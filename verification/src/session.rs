//! The recording session: whether a recording is running, and the handles
//! that belong to it.
//!
//! The session never performs outside work itself. `plan_start` says what
//! a start has to do first, the caller loads the engine and opens the
//! capture device, and `start` then stores all handles at once, so that a
//! failure on the way leaves the session as it was. `stop` hands back the
//! capture handle for the caller to signal and drop. A session holds a
//! capture handle exactly while it is recording, and it remembers for
//! which model its cached engine was loaded: a start reuses the engine
//! only for that model.
use crate::error::SessionError;
use crate::model::{lowercase_of, model_named, ModelType};
use crate::processor::TranscriptionEvent;
use tokio::sync::mpsc::UnboundedReceiver;
use vstd::prelude::*;

verus! {

/// What a start has to do about the inference engine.
#[derive(Clone, Copy, Debug, PartialEq, Eq, Structural)]
pub enum StartPlan {
    /// The cached engine was loaded for the requested model: use it, load
    /// nothing.
    ReuseEngine,
    /// No engine is cached for the requested model: provision and load
    /// this model.
    LoadEngine(ModelType),
}

/// The receiving end of an unbounded channel. Nothing inside it is visible
/// here: the session only keeps it until the relay takes it.
#[verifier::external_type_specification]
#[verifier::external_body]
#[verifier::reject_recursive_types(T)]
pub struct ExUnboundedReceiver<T>(tokio::sync::mpsc::UnboundedReceiver<T>);

/// The mathematical state of a `RecordingState`.
pub struct SessionView<E, S, P> {
    /// The cached inference engine.
    pub engine: Option<E>,
    /// The model that the cached engine was loaded for.
    pub model: Option<ModelType>,
    /// The capture handle of the running recording.
    pub stream: Option<S>,
    /// The processor that the capture feeds.
    pub processor: Option<P>,
    /// The receiving end of the event channel, until the relay takes it.
    pub receiver: Option<UnboundedReceiver<TranscriptionEvent>>,
    /// Whether a recording is running.
    pub recording: bool,
}

impl<E, S, P> SessionView<E, S, P> {
    /// The state of a session that has never been started.
    pub open spec fn idle() -> Self {
        SessionView {
            engine: None,
            model: None,
            stream: None,
            processor: None,
            receiver: None,
            recording: false,
        }
    }

    /// A capture handle exists exactly while the session is recording, and
    /// a model is remembered exactly while an engine is cached.
    pub open spec fn wf(self) -> bool {
        &&& self.recording == (self.stream is Some)
        &&& (self.model is Some) == (self.engine is Some)
    }

    /// What a start has to do, given the requested identifier in lower
    /// case: a recording session refuses, an identifier that names no
    /// model is refused, the cached engine serves exactly where it was
    /// loaded for the requested model, and otherwise that model is loaded.
    pub open spec fn plan(self, lowered: Seq<char>) -> Result<StartPlan, SessionError> {
        if self.recording {
            Err(SessionError::AlreadyRecording)
        } else {
            match model_named(lowered) {
                Some(model) => if self.model == Some(model) {
                    Ok(StartPlan::ReuseEngine)
                } else {
                    Ok(StartPlan::LoadEngine(model))
                },
                None => Err(SessionError::InvalidModelIdentifier),
            }
        }
    }

    /// The state with `engine`, loaded for `model`, as the cached engine.
    pub open spec fn with_engine(self, model: ModelType, engine: E) -> Self {
        SessionView { engine: Some(engine), model: Some(model), ..self }
    }

    /// The state after a successful start with these handles and an
    /// engine that was loaded for `model`.
    pub open spec fn started(
        self,
        model: ModelType,
        engine: E,
        processor: P,
        stream: S,
        receiver: UnboundedReceiver<TranscriptionEvent>,
    ) -> Self {
        SessionView {
            engine: Some(engine),
            model: Some(model),
            stream: Some(stream),
            processor: Some(processor),
            receiver: Some(receiver),
            recording: true,
        }
    }

    /// The state after a successful stop: only the engine stays, with the
    /// model it was loaded for.
    pub open spec fn stopped(self) -> Self {
        SessionView {
            engine: self.engine,
            model: self.model,
            stream: None,
            processor: None,
            receiver: None,
            recording: false,
        }
    }
}

/// The session's state: an engine handle `E`, a capture handle `S`, a
/// processor handle `P` and the receiving end of the event channel.
pub struct RecordingState<E, S, P> {
    whisper_engine: Option<(ModelType, E)>,
    audio_stream: Option<S>,
    audio_processor: Option<P>,
    event_rx: Option<UnboundedReceiver<TranscriptionEvent>>,
    is_recording: bool,
}

impl<E, S, P> View for RecordingState<E, S, P> {
    type V = SessionView<E, S, P>;

    closed spec fn view(&self) -> SessionView<E, S, P> {
        SessionView {
            engine: match self.whisper_engine {
                Some(cached) => Some(cached.1),
                None => None,
            },
            model: match self.whisper_engine {
                Some(cached) => Some(cached.0),
                None => None,
            },
            stream: self.audio_stream,
            processor: self.audio_processor,
            receiver: self.event_rx,
            recording: self.is_recording,
        }
    }
}

impl<E, S, P> RecordingState<E, S, P> {
    #[verifier::type_invariant]
    spec fn inv(&self) -> bool {
        self@.wf()
    }

    /// Moves everything out of the session, which is left idle and empty.
    fn take_all(&mut self) -> (taken: Self)
        ensures
            taken@ == old(self)@,
            taken@.wf(),
            final(self)@ == SessionView::<E, S, P>::idle(),
    {
        let mut taken = RecordingState::new();
        std::mem::swap(self, &mut taken);
        proof {
            use_type_invariant(&taken);
        }
        taken
    }

    /// An idle session that holds nothing.
    pub fn new() -> (state: Self)
        ensures
            state@ == SessionView::<E, S, P>::idle(),
            state@.wf(),
    {
        RecordingState {
            whisper_engine: None,
            audio_stream: None,
            audio_processor: None,
            event_rx: None,
            is_recording: false,
        }
    }

    /// Whether a recording is running, which is the case exactly while the
    /// session holds a capture handle.
    pub fn is_recording(&self) -> (recording: bool)
        ensures
            recording == self@.recording,
            self@.wf(),
    {
        proof {
            use_type_invariant(self);
        }
        self.is_recording
    }

    /// Whether a recording is running.
    pub fn status(&self) -> (recording: bool)
        ensures
            recording == self@.recording,
            self@.wf(),
    {
        self.is_recording()
    }

    /// Caches `engine`, which was loaded for `model`, replacing any engine
    /// cached before.
    pub fn set_whisper_engine(&mut self, model: ModelType, engine: E)
        ensures
            final(self)@ == old(self)@.with_engine(model, engine),
            final(self)@.wf(),
    {
        proof {
            use_type_invariant(&*self);
        }
        self.whisper_engine = Some((model, engine));
    }

    /// The cached engine, if there is one.
    pub fn get_whisper_engine(&self) -> (engine: Option<&E>)
        ensures
            match engine {
                Some(e) => self@.engine == Some(*e),
                None => self@.engine is None,
            },
    {
        match &self.whisper_engine {
            Some(cached) => Some(&cached.1),
            None => None,
        }
    }

    /// The model that the cached engine was loaded for, if there is one.
    pub fn get_engine_model(&self) -> (model: Option<ModelType>)
        ensures
            model == self@.model,
            self@.wf(),
    {
        proof {
            use_type_invariant(self);
        }
        match &self.whisper_engine {
            Some(cached) => Some(cached.0),
            None => None,
        }
    }

    /// Stores `processor`, replacing any processor stored before.
    pub fn set_audio_processor(&mut self, processor: P)
        ensures
            final(self)@ == (SessionView { processor: Some(processor), ..old(self)@ }),
    {
        proof {
            use_type_invariant(&*self);
        }
        self.audio_processor = Some(processor);
    }

    /// The stored processor, if there is one.
    pub fn get_audio_processor(&self) -> (processor: Option<&P>)
        ensures
            match processor {
                Some(p) => self@.processor == Some(*p),
                None => self@.processor is None,
            },
    {
        match &self.audio_processor {
            Some(p) => Some(p),
            None => None,
        }
    }

    /// Stores the capture handle and marks the session as recording.
    pub fn set_audio_stream(&mut self, stream: S)
        ensures
            final(self)@ == (SessionView {
                stream: Some(stream),
                recording: true,
                ..old(self)@
            }),
    {
        let taken = self.take_all();
        *self = RecordingState {
            whisper_engine: taken.whisper_engine,
            audio_stream: Some(stream),
            audio_processor: taken.audio_processor,
            event_rx: taken.event_rx,
            is_recording: true,
        };
    }

    /// Stores the receiving end of the event channel.
    pub fn set_event_receiver(&mut self, rx: UnboundedReceiver<TranscriptionEvent>)
        ensures
            final(self)@ == (SessionView { receiver: Some(rx), ..old(self)@ }),
    {
        proof {
            use_type_invariant(&*self);
        }
        self.event_rx = Some(rx);
    }

    /// Hands the receiving end of the event channel to the relay: it is
    /// given out once, and the session holds none afterwards.
    pub fn take_event_receiver(&mut self) -> (rx: Option<UnboundedReceiver<TranscriptionEvent>>)
        ensures
            rx == old(self)@.receiver,
            final(self)@ == (SessionView { receiver: None, ..old(self)@ }),
    {
        proof {
            use_type_invariant(&*self);
        }
        let mut rx = None;
        std::mem::swap(&mut rx, &mut self.event_rx);
        rx
    }

    /// Ends the recording, if one is running: the capture handle leaves
    /// the session and is returned, for the caller to signal and drop.
    /// Engine, processor and receiver stay.
    pub fn stop_recording(&mut self) -> (stream: Option<S>)
        ensures
            stream == old(self)@.stream,
            (stream is Some) == old(self)@.recording,
            final(self)@ == (SessionView { stream: None, recording: false, ..old(self)@ }),
    {
        let taken = self.take_all();
        *self = RecordingState {
            whisper_engine: taken.whisper_engine,
            audio_stream: None,
            audio_processor: taken.audio_processor,
            event_rx: taken.event_rx,
            is_recording: false,
        };
        taken.audio_stream
    }

    /// Ends the recording and forgets every handle, the engine too. The
    /// capture handle is returned as by `stop_recording`.
    pub fn clear(&mut self) -> (stream: Option<S>)
        ensures
            stream == old(self)@.stream,
            (stream is Some) == old(self)@.recording,
            final(self)@ == SessionView::<E, S, P>::idle(),
    {
        let taken = self.take_all();
        taken.audio_stream
    }

    /// The first half of a start: refuses if a recording is running or if
    /// the identifier names no model, and otherwise says whether the
    /// cached engine serves the requested model or which model has to be
    /// loaded. The session is not changed.
    pub fn plan_start(&self, model_id: &str) -> (plan: Result<StartPlan, SessionError>)
        ensures
            plan == self@.plan(lowercase_of(model_id@)),
    {
        if self.is_recording {
            return Err(SessionError::AlreadyRecording);
        }
        match ModelType::from_str(model_id) {
            Ok(model) => {
                let cached = match &self.whisper_engine {
                    Some(cached) => cached.0 == model,
                    None => false,
                };
                if cached {
                    Ok(StartPlan::ReuseEngine)
                } else {
                    Ok(StartPlan::LoadEngine(model))
                }
            },
            Err(e) => Err(e),
        }
    }

    /// The second half of a start: stores the engine, with the model it
    /// was loaded for, and the handles of the new recording in one step.
    /// A session that is recording refuses and keeps what it holds.
    pub fn start(
        &mut self,
        model: ModelType,
        engine: E,
        processor: P,
        stream: S,
        receiver: UnboundedReceiver<TranscriptionEvent>,
    ) -> (outcome: Result<(), SessionError>)
        ensures
            match outcome {
                Ok(_) => {
                    &&& !old(self)@.recording
                    &&& final(self)@ == old(self)@.started(
                        model,
                        engine,
                        processor,
                        stream,
                        receiver,
                    )
                },
                Err(e) => {
                    &&& old(self)@.recording
                    &&& e == SessionError::AlreadyRecording
                    &&& final(self)@ == old(self)@
                },
            },
            final(self)@.wf(),
    {
        proof {
            use_type_invariant(&*self);
        }
        if self.is_recording {
            return Err(SessionError::AlreadyRecording);
        }
        *self = RecordingState {
            whisper_engine: Some((model, engine)),
            audio_stream: Some(stream),
            audio_processor: Some(processor),
            event_rx: Some(receiver),
            is_recording: true,
        };
        Ok(())
    }

    /// Stops the running recording: the capture handle is returned for the
    /// caller to signal and drop, processor and receiver are dropped, the
    /// engine stays cached. An idle session refuses and is not changed.
    pub fn stop(&mut self) -> (outcome: Result<S, SessionError>)
        ensures
            match outcome {
                Ok(stream) => {
                    &&& old(self)@.recording
                    &&& old(self)@.stream == Some(stream)
                    &&& final(self)@ == old(self)@.stopped()
                },
                Err(e) => {
                    &&& !old(self)@.recording
                    &&& e == SessionError::NotRecording
                    &&& final(self)@ == old(self)@
                },
            },
    {
        if !self.is_recording {
            return Err(SessionError::NotRecording);
        }
        let taken = self.take_all();
        *self = RecordingState {
            whisper_engine: taken.whisper_engine,
            audio_stream: None,
            audio_processor: None,
            event_rx: None,
            is_recording: false,
        };
        Ok(taken.audio_stream.unwrap())
    }
}

impl<E, S, P> Default for RecordingState<E, S, P> {
    fn default() -> (state: Self)
        ensures
            state@ == SessionView::<E, S, P>::idle(),
            state@.wf(),
    {
        RecordingState::new()
    }
}

/// A session that was started and then stopped has its engine cached,
/// with the model it was loaded for. The next start for the same model
/// reuses the engine and loads nothing; a start for another model loads
/// that model; an identifier that names no model is refused.
pub proof fn law_restart_reuses_engine<E, S, P>(
    before: SessionView<E, S, P>,
    model: ModelType,
    engine: E,
    processor: P,
    stream: S,
    receiver: UnboundedReceiver<TranscriptionEvent>,
    lowered: Seq<char>,
)
    ensures
        before.started(model, engine, processor, stream, receiver).wf(),
        before.started(model, engine, processor, stream, receiver).recording,
        before.started(model, engine, processor, stream, receiver).stopped().wf(),
        !before.started(model, engine, processor, stream, receiver).stopped().recording,
        before.started(model, engine, processor, stream, receiver).stopped().engine == Some(engine),
        before.started(model, engine, processor, stream, receiver).stopped().model == Some(model),
        model_named(lowered) == Some(model) ==> before.started(
            model,
            engine,
            processor,
            stream,
            receiver,
        ).stopped().plan(lowered) == Ok::<StartPlan, SessionError>(StartPlan::ReuseEngine),
        forall|other: ModelType|
            model_named(lowered) == Some(other) && other != model ==> before.started(
                model,
                engine,
                processor,
                stream,
                receiver,
            ).stopped().plan(lowered) == Ok::<StartPlan, SessionError>(
                StartPlan::LoadEngine(other),
            ),
        model_named(lowered) is None ==> before.started(
            model,
            engine,
            processor,
            stream,
            receiver,
        ).stopped().plan(lowered) == Err::<StartPlan, SessionError>(
            SessionError::InvalidModelIdentifier,
        ),
{
}

/// A start is planned for an idle session only, and a recording session
/// refuses whatever it is asked to start.
pub proof fn law_start_refused_while_recording<E, S, P>(
    state: SessionView<E, S, P>,
    lowered: Seq<char>,
)
    ensures
        state.recording ==> state.plan(lowered) == Err::<StartPlan, SessionError>(
            SessionError::AlreadyRecording,
        ),
        state.plan(lowered) is Ok ==> !state.recording,
{
}

} // verus!
