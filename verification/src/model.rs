//! The speech models that can be selected, and what is known of each.
use crate::error::SessionError;
use vstd::prelude::*;
use vstd::string::StringExecFns;

verus! {

/// The quantised English models, smallest first.
#[derive(Clone, Copy, Debug, PartialEq, Eq, Structural)]
pub enum ModelType {
    TinyEn,
    BaseEn,
    SmallEn,
}

/// What `str::to_lowercase` returns for a string with these characters.
pub uninterp spec fn lowercase_of(s: Seq<char>) -> Seq<char>;

/// `str::to_lowercase` of the standard library: the lower-case form of `s`
/// by Unicode's rules. The result is named, not spelled out.
#[verifier::external_body]
fn lowercase(s: &str) -> (lowered: String)
    ensures
        lowered@ == lowercase_of(s@),
{
    s.to_lowercase()
}

/// The model that an identifier in lower case selects, if any. Each model
/// answers to its short name and to its full name.
pub open spec fn model_named(name: Seq<char>) -> Option<ModelType> {
    if name == "tiny"@ || name == "tiny.en"@ {
        Some(ModelType::TinyEn)
    } else if name == "base"@ || name == "base.en"@ {
        Some(ModelType::BaseEn)
    } else if name == "small"@ || name == "small.en"@ {
        Some(ModelType::SmallEn)
    } else {
        None
    }
}

/// Whether two strings hold the same characters.
fn same_text(a: &str, b: &str) -> (same: bool)
    ensures
        same == (a@ == b@),
{
    a.to_owned() == b.to_owned()
}

/// One row of the model catalogue, as characters and numbers.
pub struct ModelInfoView {
    pub id: Seq<char>,
    pub name: Seq<char>,
    pub size_mb: u64,
    pub speed: Seq<char>,
    pub recommended: bool,
}

/// One row of the model catalogue.
#[derive(Debug, Clone)]
pub struct ModelInfo {
    pub id: String,
    pub name: String,
    pub size_mb: u64,
    pub speed: String,
    pub recommended: bool,
}

impl View for ModelInfo {
    type V = ModelInfoView;

    open spec fn view(&self) -> ModelInfoView {
        ModelInfoView {
            id: self.id@,
            name: self.name@,
            size_mb: self.size_mb,
            speed: self.speed@,
            recommended: self.recommended,
        }
    }
}

impl ModelType {
    /// The model's full identifier.
    pub open spec fn id_spec(self) -> Seq<char> {
        match self {
            ModelType::TinyEn => "tiny.en"@,
            ModelType::BaseEn => "base.en"@,
            ModelType::SmallEn => "small.en"@,
        }
    }

    /// The file name of the model artifact.
    pub open spec fn filename_spec(self) -> Seq<char> {
        match self {
            ModelType::TinyEn => "ggml-tiny.en-q5_1.bin"@,
            ModelType::BaseEn => "ggml-base.en-q5_1.bin"@,
            ModelType::SmallEn => "ggml-small.en-q5_1.bin"@,
        }
    }

    /// The approximate size of the model artifact in megabytes.
    pub open spec fn size_mb_spec(self) -> u64 {
        match self {
            ModelType::TinyEn => 40,
            ModelType::BaseEn => 75,
            ModelType::SmallEn => 200,
        }
    }

    /// The model's row in the catalogue.
    pub open spec fn info_spec(self) -> ModelInfoView {
        ModelInfoView {
            id: self.id_spec(),
            name: match self {
                ModelType::TinyEn => "Tiny (Fast)"@,
                ModelType::BaseEn => "Base (Recommended)"@,
                ModelType::SmallEn => "Small (Best Quality)"@,
            },
            size_mb: self.size_mb_spec(),
            speed: match self {
                ModelType::TinyEn => "Real-time"@,
                ModelType::BaseEn => "2-3x real-time"@,
                ModelType::SmallEn => "4-5x real-time"@,
            },
            recommended: self == ModelType::BaseEn,
        }
    }

    /// The model that an identifier already in lower case selects.
    pub fn from_lowercase(name: &str) -> (model: Option<ModelType>)
        ensures
            model == model_named(name@),
    {
        if same_text(name, "tiny") || same_text(name, "tiny.en") {
            Some(ModelType::TinyEn)
        } else if same_text(name, "base") || same_text(name, "base.en") {
            Some(ModelType::BaseEn)
        } else if same_text(name, "small") || same_text(name, "small.en") {
            Some(ModelType::SmallEn)
        } else {
            None
        }
    }

    /// Parses a model identifier, ignoring case. An identifier whose
    /// lower-case form names no model is refused.
    pub fn from_str(s: &str) -> (parsed: Result<ModelType, SessionError>)
        ensures
            match parsed {
                Ok(model) => model_named(lowercase_of(s@)) == Some(model),
                Err(e) => {
                    &&& model_named(lowercase_of(s@)) is None
                    &&& e == SessionError::InvalidModelIdentifier
                },
            },
    {
        let lowered = lowercase(s);
        match ModelType::from_lowercase(lowered.as_str()) {
            Some(model) => Ok(model),
            None => Err(SessionError::InvalidModelIdentifier),
        }
    }

    /// The model's full identifier, as it is shown and accepted.
    pub fn id(&self) -> (text: &'static str)
        ensures
            text@ == self.id_spec(),
    {
        match self {
            ModelType::TinyEn => "tiny.en",
            ModelType::BaseEn => "base.en",
            ModelType::SmallEn => "small.en",
        }
    }

    /// The file name under which the model artifact is stored.
    pub fn filename(&self) -> (name: &'static str)
        ensures
            name@ == self.filename_spec(),
    {
        match self {
            ModelType::TinyEn => "ggml-tiny.en-q5_1.bin",
            ModelType::BaseEn => "ggml-base.en-q5_1.bin",
            ModelType::SmallEn => "ggml-small.en-q5_1.bin",
        }
    }

    /// The address from which the model artifact is fetched: the fixed
    /// repository address followed by the file name.
    pub fn download_url(&self) -> (url: String)
        ensures
            url@ == "https://huggingface.co/ggerganov/whisper.cpp/resolve/main/"@
                + self.filename_spec(),
    {
        let mut url = String::from_str("https://huggingface.co/ggerganov/whisper.cpp/resolve/main/");
        url.append(self.filename());
        url
    }

    /// The approximate size of the model artifact in megabytes.
    pub fn size_mb(&self) -> (size: u64)
        ensures
            size == self.size_mb_spec(),
    {
        match self {
            ModelType::TinyEn => 40,
            ModelType::BaseEn => 75,
            ModelType::SmallEn => 200,
        }
    }

    /// The model's row in the catalogue.
    pub fn info(&self) -> (row: ModelInfo)
        ensures
            row@ == self.info_spec(),
    {
        let name: &'static str = match self {
            ModelType::TinyEn => "Tiny (Fast)",
            ModelType::BaseEn => "Base (Recommended)",
            ModelType::SmallEn => "Small (Best Quality)",
        };
        let speed: &'static str = match self {
            ModelType::TinyEn => "Real-time",
            ModelType::BaseEn => "2-3x real-time",
            ModelType::SmallEn => "4-5x real-time",
        };
        let recommended = match self {
            ModelType::BaseEn => true,
            _ => false,
        };
        ModelInfo {
            id: self.id().to_owned(),
            name: name.to_owned(),
            size_mb: self.size_mb(),
            speed: speed.to_owned(),
            recommended,
        }
    }
}

/// The message for an identifier that names no model: a fixed text
/// followed by the identifier as it was given.
pub fn unknown_model_message(s: &str) -> (text: String)
    ensures
        text@ == "Unknown model type: "@ + s@,
{
    let mut text = String::from_str("Unknown model type: ");
    text.append(s);
    text
}

/// The catalogue of selectable models: tiny, base and small, in that
/// order, of which base is the recommended one.
pub fn get_available_models() -> (models: Vec<ModelInfo>)
    ensures
        models@.len() == 3,
        models@[0]@ == ModelType::TinyEn.info_spec(),
        models@[1]@ == ModelType::BaseEn.info_spec(),
        models@[2]@ == ModelType::SmallEn.info_spec(),
{
    let mut models: Vec<ModelInfo> = Vec::new();
    models.push(ModelType::TinyEn.info());
    models.push(ModelType::BaseEn.info());
    models.push(ModelType::SmallEn.info());
    models
}

/// Every model is selected by its own identifier, and the six accepted
/// names select three different models.
pub proof fn law_identifier_selects_its_model(model: ModelType)
    ensures
        model_named(model.id_spec()) == Some(model),
        model_named("tiny"@) == Some(ModelType::TinyEn),
        model_named("base"@) == Some(ModelType::BaseEn),
        model_named("small"@) == Some(ModelType::SmallEn),
        model_named(Seq::empty()) is None,
{
    reveal_strlit("tiny");
    reveal_strlit("tiny.en");
    reveal_strlit("base");
    reveal_strlit("base.en");
    reveal_strlit("small");
    reveal_strlit("small.en");
    assert("tiny"@.len() == 4 && "tiny.en"@.len() == 7);
    assert("base"@.len() == 4 && "base.en"@.len() == 7);
    assert("small"@.len() == 5 && "small.en"@.len() == 8);
    assert("base"@[0] == 'b');
    assert("base.en"@[0] == 'b');
    assert("small"@[0] == 's');
    assert("small.en"@[0] == 's');
    assert("tiny"@[0] == 't');
    assert("tiny.en"@[0] == 't');
}

} // verus!
