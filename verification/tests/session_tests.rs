use speech_capture::error::SessionError;
use speech_capture::model::ModelType;
use speech_capture::processor::TranscriptionEvent;
use speech_capture::session::{RecordingState, StartPlan};
use std::sync::Arc;
use tokio::sync::mpsc::{unbounded_channel, UnboundedReceiver, UnboundedSender};

type Session = RecordingState<Arc<String>, u32, &'static str>;

fn channel() -> (UnboundedSender<TranscriptionEvent>, UnboundedReceiver<TranscriptionEvent>) {
    unbounded_channel()
}

fn event(text: &str) -> TranscriptionEvent {
    TranscriptionEvent {
        text: text.to_string(),
        timestamp: "2024-01-01T00:00:00+00:00".to_string(),
        is_final: true,
    }
}

#[test]
fn new_session_is_idle_and_empty() {
    let mut session = Session::new();
    assert!(!session.is_recording());
    assert!(!session.status());
    assert!(session.get_whisper_engine().is_none());
    assert!(session.get_engine_model().is_none());
    assert!(session.get_audio_processor().is_none());
    assert!(session.take_event_receiver().is_none());
    let other = Session::default();
    assert!(!other.is_recording());
}

#[test]
fn stop_on_idle_is_refused() {
    let mut session = Session::new();
    assert_eq!(session.stop(), Err(SessionError::NotRecording));
    assert!(!session.is_recording());
    session.set_whisper_engine(ModelType::BaseEn, Arc::new("engine".to_string()));
    assert_eq!(session.stop(), Err(SessionError::NotRecording));
    assert_eq!(session.get_whisper_engine().unwrap().as_str(), "engine");
}

#[test]
fn start_while_recording_is_refused_and_changes_nothing() {
    let mut session = Session::new();
    let first = Arc::new("first".to_string());
    let (tx1, rx1) = channel();
    assert_eq!(session.start(ModelType::BaseEn, first.clone(), "processor-1", 1, rx1), Ok(()));
    assert!(session.is_recording());
    assert_eq!(session.plan_start("base"), Err(SessionError::AlreadyRecording));
    assert_eq!(session.plan_start("no such model"), Err(SessionError::AlreadyRecording));
    let second = Arc::new("second".to_string());
    let (tx2, rx2) = channel();
    assert_eq!(
        session.start(ModelType::TinyEn, second, "processor-2", 2, rx2),
        Err(SessionError::AlreadyRecording)
    );
    assert!(session.is_recording());
    assert!(Arc::ptr_eq(session.get_whisper_engine().unwrap(), &first));
    assert_eq!(session.get_audio_processor(), Some(&"processor-1"));
    // the receiver that is held is still the first one
    assert!(tx1.send(event("one")).is_ok());
    assert!(tx2.send(event("two")).is_err());
    let mut held = session.take_event_receiver().unwrap();
    assert_eq!(held.try_recv().unwrap().text, "one");
    assert_eq!(session.stop(), Ok(1));
}

#[test]
fn plan_names_the_model_to_load() {
    let session = Session::new();
    assert_eq!(session.plan_start("tiny"), Ok(StartPlan::LoadEngine(ModelType::TinyEn)));
    assert_eq!(session.plan_start("BASE.en"), Ok(StartPlan::LoadEngine(ModelType::BaseEn)));
    assert_eq!(session.plan_start("Small"), Ok(StartPlan::LoadEngine(ModelType::SmallEn)));
    assert_eq!(session.plan_start("huge"), Err(SessionError::InvalidModelIdentifier));
    assert_eq!(session.plan_start(""), Err(SessionError::InvalidModelIdentifier));
}

#[test]
fn restart_reuses_the_engine() {
    let mut session = Session::new();
    let mut provisioned = 0;
    for round in 0..3u32 {
        let engine = match session.plan_start("base.en").unwrap() {
            StartPlan::LoadEngine(model) => {
                assert_eq!(model, ModelType::BaseEn);
                provisioned += 1;
                Arc::new(model.filename().to_string())
            }
            StartPlan::ReuseEngine => session.get_whisper_engine().unwrap().clone(),
        };
        let (_tx, rx) = channel();
        assert_eq!(session.start(ModelType::BaseEn, engine, "processor", round, rx), Ok(()));
        assert!(session.status());
        assert_eq!(session.stop(), Ok(round));
        assert!(!session.status());
        assert_eq!(session.get_whisper_engine().unwrap().as_str(), "ggml-base.en-q5_1.bin");
    }
    assert_eq!(provisioned, 1);
    assert_eq!(session.get_engine_model(), Some(ModelType::BaseEn));
    // the short name selects the same model
    assert_eq!(session.plan_start("BASE"), Ok(StartPlan::ReuseEngine));
}

#[test]
fn another_model_is_loaded_and_then_cached() {
    let mut session = Session::new();
    let mut provisioned: Vec<ModelType> = Vec::new();
    for (round, id) in ["tiny.en", "tiny", "small.en", "small", "tiny"].iter().enumerate() {
        let (model, engine) = match session.plan_start(id).unwrap() {
            StartPlan::LoadEngine(model) => {
                provisioned.push(model);
                (model, Arc::new(model.filename().to_string()))
            }
            StartPlan::ReuseEngine => (
                session.get_engine_model().unwrap(),
                session.get_whisper_engine().unwrap().clone(),
            ),
        };
        let (_tx, rx) = channel();
        assert_eq!(session.start(model, engine, "processor", round as u32, rx), Ok(()));
        assert_eq!(session.stop(), Ok(round as u32));
        assert_eq!(session.get_engine_model(), ModelType::from_str(id).ok());
        assert_eq!(
            session.get_whisper_engine().unwrap().as_str(),
            ModelType::from_str(id).unwrap().filename()
        );
    }
    assert_eq!(
        provisioned,
        vec![ModelType::TinyEn, ModelType::SmallEn, ModelType::TinyEn]
    );
}

#[test]
fn unknown_identifier_is_refused_with_an_engine_cached() {
    let mut session = Session::new();
    session.set_whisper_engine(ModelType::BaseEn, Arc::new("engine".to_string()));
    assert_eq!(session.get_engine_model(), Some(ModelType::BaseEn));
    assert_eq!(session.plan_start("huge"), Err(SessionError::InvalidModelIdentifier));
    assert_eq!(session.plan_start(""), Err(SessionError::InvalidModelIdentifier));
    assert_eq!(session.plan_start("base.en"), Ok(StartPlan::ReuseEngine));
    assert_eq!(session.plan_start("tiny"), Ok(StartPlan::LoadEngine(ModelType::TinyEn)));
    // a replaced engine is remembered with its own model
    session.set_whisper_engine(ModelType::TinyEn, Arc::new("other".to_string()));
    assert_eq!(session.get_whisper_engine().unwrap().as_str(), "other");
    assert_eq!(session.plan_start("tiny"), Ok(StartPlan::ReuseEngine));
    assert_eq!(session.plan_start("base.en"), Ok(StartPlan::LoadEngine(ModelType::BaseEn)));
}

#[test]
fn stop_keeps_only_the_engine() {
    let mut session = Session::new();
    let engine = Arc::new("engine".to_string());
    let (tx, rx) = channel();
    assert_eq!(session.start(ModelType::SmallEn, engine.clone(), "processor", 9, rx), Ok(()));
    assert_eq!(session.stop(), Ok(9));
    assert!(!session.is_recording());
    assert!(Arc::ptr_eq(session.get_whisper_engine().unwrap(), &engine));
    assert!(session.get_audio_processor().is_none());
    assert!(session.take_event_receiver().is_none());
    // the receiver was dropped with the stop: the channel is closed
    assert!(tx.is_closed());
    assert_eq!(session.stop(), Err(SessionError::NotRecording));
}

#[test]
fn setters_store_one_handle_each() {
    let mut session = Session::new();
    session.set_audio_processor("processor");
    assert!(!session.is_recording());
    assert_eq!(session.get_audio_processor(), Some(&"processor"));
    let (tx, rx) = channel();
    session.set_event_receiver(rx);
    assert!(!session.is_recording());
    session.set_audio_stream(5);
    assert!(session.is_recording());
    assert!(session.get_whisper_engine().is_none());
    assert!(tx.send(event("hello")).is_ok());
    let mut taken = session.take_event_receiver().unwrap();
    assert_eq!(taken.try_recv().unwrap().text, "hello");
    assert!(session.take_event_receiver().is_none());
}

#[test]
fn stop_recording_hands_back_the_stream_only() {
    let mut session = Session::new();
    session.set_whisper_engine(ModelType::BaseEn, Arc::new("engine".to_string()));
    session.set_audio_processor("processor");
    let (tx, rx) = channel();
    session.set_event_receiver(rx);
    session.set_audio_stream(11);
    assert_eq!(session.stop_recording(), Some(11));
    assert!(!session.is_recording());
    assert!(session.get_whisper_engine().is_some());
    assert_eq!(session.get_audio_processor(), Some(&"processor"));
    assert_eq!(session.stop_recording(), None);
    assert!(!tx.is_closed());
    assert!(session.take_event_receiver().is_some());
}

#[test]
fn clear_forgets_everything() {
    let mut session = Session::new();
    let (tx, rx) = channel();
    assert_eq!(session.start(ModelType::TinyEn, Arc::new("engine".to_string()), "processor", 3, rx), Ok(()));
    assert_eq!(session.clear(), Some(3));
    assert!(!session.is_recording());
    assert!(session.get_whisper_engine().is_none());
    assert!(session.get_audio_processor().is_none());
    assert!(session.take_event_receiver().is_none());
    assert!(tx.is_closed());
    assert_eq!(session.clear(), None);
    assert_eq!(session.plan_start("tiny"), Ok(StartPlan::LoadEngine(ModelType::TinyEn)));
}
