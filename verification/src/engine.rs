//! What surrounds one run of the inference engine: the decoding settings
//! it is given and the assembly of its text segments into one transcript.
use vstd::prelude::*;
use vstd::string::StringExecFns;

verus! {

/// The settings of one decoding run.
#[derive(Clone, Copy, Debug, PartialEq, Eq)]
pub struct DecodeSettings {
    /// Candidates that greedy sampling keeps.
    pub best_of: i32,
    /// Worker threads of the engine.
    pub n_threads: i32,
    /// Whether the engine translates to English instead of transcribing.
    pub translate: bool,
    /// The language of the audio.
    pub language: &'static str,
    /// Whether the engine prints special tokens.
    pub print_special: bool,
    /// Whether the engine prints its progress.
    pub print_progress: bool,
    /// Whether the engine prints text while it decodes.
    pub print_realtime: bool,
    /// Whether the engine prints timestamps.
    pub print_timestamps: bool,
}

impl DecodeSettings {
    /// The settings for a handheld device: greedy sampling with a single
    /// candidate, two threads, English, no translation and no printing.
    pub fn mobile() -> (settings: Self)
        ensures
            settings.best_of == 1,
            settings.n_threads == 2,
            !settings.translate,
            settings.language@ == "en"@,
            !settings.print_special,
            !settings.print_progress,
            !settings.print_realtime,
            !settings.print_timestamps,
    {
        DecodeSettings {
            best_of: 1,
            n_threads: 2,
            translate: false,
            language: "en",
            print_special: false,
            print_progress: false,
            print_realtime: false,
            print_timestamps: false,
        }
    }
}

/// The segments of `parts` joined without a separator.
pub open spec fn joined(parts: Seq<Seq<char>>) -> Seq<char>
    decreases parts.len(),
{
    if parts.len() == 0 {
        Seq::empty()
    } else {
        joined(parts.drop_last()) + parts.last()
    }
}

/// What `char::is_whitespace` returns for this character: whether it has
/// Unicode's White_Space property.
pub uninterp spec fn is_white_space(c: char) -> bool;

/// Whether `text` is a contiguous part of `whole` that leaves out only
/// white space, at the front and at the back.
pub open spec fn is_cut_of(text: Seq<char>, whole: Seq<char>) -> bool {
    exists|i: int, j: int|
        {
            &&& 0 <= i <= j <= whole.len()
            &&& text == #[trigger] whole.subrange(i, j)
            &&& forall|k: int| 0 <= k < i ==> is_white_space(whole[k])
            &&& forall|k: int| j <= k < whole.len() ==> is_white_space(whole[k])
        }
}

/// Whether `text` is `whole` trimmed: only white space is cut off at both
/// ends, and what is left neither begins nor ends with white space.
pub open spec fn is_trim_of(text: Seq<char>, whole: Seq<char>) -> bool {
    &&& is_cut_of(text, whole)
    &&& text.len() > 0 ==> !is_white_space(text[0]) && !is_white_space(text[text.len() - 1])
}

/// `str::trim` of the standard library: the slice of `s` without leading
/// and trailing white space, where white space is what
/// `char::is_whitespace` says it is.
#[verifier::external_body]
fn trim_text<'a>(s: &'a str) -> (r: &'a str)
    ensures
        is_cut_of(r@, s@),
        r@.len() > 0 ==> !is_white_space(r@[0]) && !is_white_space(r@[r@.len() - 1]),
{
    s.trim()
}

/// A string has one trimmed form only.
pub proof fn law_trim_is_unique(a: Seq<char>, b: Seq<char>, whole: Seq<char>)
    requires
        is_trim_of(a, whole),
        is_trim_of(b, whole),
    ensures
        a == b,
{
    let (i1, j1) = choose|i: int, j: int|
        {
            &&& 0 <= i <= j <= whole.len()
            &&& a == #[trigger] whole.subrange(i, j)
            &&& forall|k: int| 0 <= k < i ==> is_white_space(whole[k])
            &&& forall|k: int| j <= k < whole.len() ==> is_white_space(whole[k])
        };
    let (i2, j2) = choose|i: int, j: int|
        {
            &&& 0 <= i <= j <= whole.len()
            &&& b == #[trigger] whole.subrange(i, j)
            &&& forall|k: int| 0 <= k < i ==> is_white_space(whole[k])
            &&& forall|k: int| j <= k < whole.len() ==> is_white_space(whole[k])
        };
    if a.len() > 0 {
        assert(a[0] == whole[i1] && a[a.len() - 1] == whole[j1 - 1]);
        assert(i2 <= i1 && j1 <= j2);
        assert(b[0] == whole[i2] && b[b.len() - 1] == whole[j2 - 1]);
        assert(i1 <= i2 && j2 <= j1);
    } else if b.len() > 0 {
        assert(b[0] == whole[i2] && b[b.len() - 1] == whole[j2 - 1]);
        assert(i1 <= i2 && j2 <= j1);
    }
    assert(a =~= b);
}

/// Puts the text segments of one inference run together: joined in order,
/// then trimmed of surrounding white space. No segments give the empty
/// text.
pub fn assemble_transcript(segments: &Vec<String>) -> (text: String)
    ensures
        is_trim_of(text@, joined(segments@.map_values(|s: String| s@))),
        text@.len() <= joined(segments@.map_values(|s: String| s@)).len(),
        segments@.len() == 0 ==> text@ == Seq::<char>::empty(),
{
    let mut result = String::new();
    let mut i: usize = 0;
    while i < segments.len()
        invariant
            i <= segments.len(),
            result@ == joined(segments@.map_values(|s: String| s@).take(i as int)),
        decreases segments.len() - i,
    {
        proof {
            let parts = segments@.map_values(|s: String| s@);
            assert(parts.take(i + 1).drop_last() =~= parts.take(i as int));
        }
        result.append(segments[i].as_str());
        i = i + 1;
    }
    proof {
        let parts = segments@.map_values(|s: String| s@);
        assert(parts.take(i as int) =~= parts);
    }
    let text = trim_text(result.as_str()).to_owned();
    proof {
        assert(text@.len() == 0 ==> text@ =~= Seq::<char>::empty());
    }
    text
}

} // verus!
