//! Per-chunk orchestration: voice-activity detection, buffering and the
//! decision to cut a segment, and the event that a finished transcription
//! turns into.
use crate::buffer::{
    is_speech, law_silence_is_not_speech, AudioBuffer, BufferState, MAX_SAMPLES,
};
use tokio::sync::mpsc::UnboundedSender;
use vstd::prelude::*;

verus! {

/// One recognised segment, as it is delivered to the consumer.
#[derive(Debug, Clone)]
pub struct TranscriptionEvent {
    pub text: String,
    pub timestamp: String,
    pub is_final: bool,
}

/// The buffer state after one chunk has been evaluated and appended: the
/// voice-activity step comes first, so that a speech run that this chunk
/// opens starts in front of the chunk's own samples.
pub open spec fn after_chunk(state: BufferState, chunk: Seq<i16>) -> BufferState {
    state.stepped(is_speech(chunk)).pushed(chunk)
}

/// While no speech run is open, a chunk of zeros completes no segment and
/// opens no run: silence alone never leads to an extraction, however long
/// it lasts and however it is cut into chunks.
pub proof fn law_silence_yields_no_segment(state: BufferState, chunk: Seq<i16>)
    requires
        state.speech_start is None,
        forall|i: int| 0 <= i < chunk.len() ==> chunk[i] == 0,
    ensures
        !after_chunk(state, chunk).ready(),
        after_chunk(state, chunk).speech_start is None,
{
    law_silence_is_not_speech(chunk);
}

/// The sending end of an unbounded channel. Nothing inside it is visible
/// here: it is carried and handed to `send_event`.
#[verifier::external_type_specification]
#[verifier::external_body]
#[verifier::reject_recursive_types(T)]
pub struct ExUnboundedSender<T>(tokio::sync::mpsc::UnboundedSender<T>);

/// Owns the segment buffer and carries the handles that the surrounding
/// program needs to transcribe a segment and to publish the result: an
/// inference engine `E` and the sending end of the event channel.
pub struct AudioProcessor<E> {
    buffer: AudioBuffer,
    whisper_engine: E,
    event_tx: UnboundedSender<TranscriptionEvent>,
}

impl<E> View for AudioProcessor<E> {
    type V = BufferState;

    closed spec fn view(&self) -> BufferState {
        self.buffer@
    }
}

impl<E> AudioProcessor<E> {
    /// The engine handle this processor was made with.
    pub closed spec fn engine(&self) -> E {
        self.whisper_engine
    }

    /// The event sender this processor was made with.
    pub closed spec fn sender(&self) -> UnboundedSender<TranscriptionEvent> {
        self.event_tx
    }

    /// A processor with an empty buffer.
    pub fn new(whisper_engine: E, event_tx: UnboundedSender<TranscriptionEvent>) -> (processor:
        Self)
        ensures
            processor@ == BufferState::empty(),
            processor@.wf(),
            processor.engine() == whisper_engine,
            processor.sender() == event_tx,
    {
        AudioProcessor { buffer: AudioBuffer::new(), whisper_engine, event_tx }
    }

    /// Takes one chunk from the capture callback. Returns the segment to
    /// transcribe if this chunk completed one, and then starts over with an
    /// empty buffer; otherwise the chunk is only buffered. Transcribing the
    /// segment is left to the caller, off the capture path.
    pub fn process_chunk(&mut self, data: &[i16]) -> (utterance: Option<Vec<i16>>)
        ensures
            old(self)@.wf(),
            final(self)@.wf(),
            final(self).engine() == old(self).engine(),
            final(self).sender() == old(self).sender(),
            match utterance {
                Some(audio) => {
                    &&& after_chunk(old(self)@, data@).ready()
                    &&& audio@ == after_chunk(old(self)@, data@).samples
                    &&& audio@.len() <= MAX_SAMPLES
                    &&& final(self)@ == BufferState::empty()
                },
                None => {
                    &&& !after_chunk(old(self)@, data@).ready()
                    &&& final(self)@ == after_chunk(old(self)@, data@)
                },
            },
    {
        let has_speech = self.buffer.has_speech(data);
        self.buffer.update_speech_state(has_speech);
        self.buffer.push_samples(data);
        if self.buffer.should_transcribe() {
            Some(self.buffer.extract_for_transcription())
        } else {
            None
        }
    }

    /// The segment buffer, for inspection.
    pub fn get_buffer(&self) -> (buffer: &AudioBuffer)
        ensures
            buffer@ == self@,
    {
        &self.buffer
    }

    /// The inference engine handle.
    pub fn whisper_engine(&self) -> (engine: &E)
        ensures
            *engine == self.engine(),
    {
        &self.whisper_engine
    }

    /// The sending end of the event channel.
    pub fn event_sender(&self) -> (sender: &UnboundedSender<TranscriptionEvent>)
        ensures
            *sender == self.sender(),
    {
        &self.event_tx
    }
}

/// `SystemTime::now` of the standard library, chrono's conversion of it
/// to `DateTime<Utc>` and `DateTime::to_rfc3339`: the current UTC time as
/// an RFC 3339 string. The conversion takes a clock before 1970 as well.
/// Nothing is claimed of the string.
#[verifier::external_body]
fn current_timestamp() -> (stamp: String) {
    chrono::DateTime::<chrono::Utc>::from(std::time::SystemTime::now()).to_rfc3339()
}

/// The event that the outcome of one inference run gives rise to: a final
/// event with the text and the given timestamp if the run produced
/// non-empty text, and none if the text is empty or the run failed.
pub fn transcription_event<X>(outcome: Result<String, X>, timestamp: String) -> (event: Option<
    TranscriptionEvent,
>)
    ensures
        match outcome {
            Ok(text) => if text@.len() > 0 {
                event == Some(TranscriptionEvent { text, timestamp, is_final: true })
            } else {
                event is None
            },
            Err(_) => event is None,
        },
{
    match outcome {
        Ok(text) => {
            if text.as_str().is_empty() {
                None
            } else {
                Some(TranscriptionEvent { text, timestamp, is_final: true })
            }
        },
        Err(_) => None,
    }
}

/// As `transcription_event`, stamped with the current UTC time. A failed
/// run or an empty text yields no event whatever the clock says.
pub fn publish_transcription<X>(outcome: Result<String, X>) -> (event: Option<TranscriptionEvent>)
    ensures
        match outcome {
            Ok(text) => if text@.len() > 0 {
                &&& event is Some
                &&& event.unwrap().text == text
                &&& event.unwrap().is_final
            } else {
                event is None
            },
            Err(_) => event is None,
        },
{
    let stamp = current_timestamp();
    transcription_event(outcome, stamp)
}

/// `tokio::sync::mpsc::UnboundedSender::send`: queues `event` without
/// blocking. The channel refuses once its receiving end is closed or
/// dropped, which nothing here can tell in advance, so nothing is claimed
/// of which answer comes; a refused event comes back as it was handed in.
#[verifier::external_body]
fn send_event(tx: &UnboundedSender<TranscriptionEvent>, event: TranscriptionEvent) -> (answer:
    Result<(), TranscriptionEvent>)
    ensures
        answer matches Err(refused) ==> refused == event,
{
    match tx.send(event) {
        Ok(()) => Ok(()),
        Err(e) => Err(e.0),
    }
}

/// Publishes the outcome of one inference run on the event channel: the
/// event of `publish_transcription`, if there is one, is sent. Empty text
/// and a failed run publish nothing. A text is always handed to the
/// channel, as a final event; whether the channel takes it is the
/// channel's to say, and an event that it refuses is handed back.
pub fn deliver_transcription<X>(
    tx: &UnboundedSender<TranscriptionEvent>,
    outcome: Result<String, X>,
) -> (delivery: Delivery)
    ensures
        delivery is NoEvent <==> !(outcome matches Ok(text) && text@.len() > 0),
        delivery matches Delivery::Refused(event) ==> {
            &&& outcome matches Ok(text) && event.text == text
            &&& event.is_final
        },
{
    match publish_transcription(outcome) {
        Some(event) => match send_event(tx, event) {
            Ok(_) => Delivery::Queued,
            Err(refused) => Delivery::Refused(refused),
        },
        None => Delivery::NoEvent,
    }
}

/// What became of the outcome of one inference run.
#[derive(Debug, Clone)]
pub enum Delivery {
    /// The run produced no text: nothing was sent.
    NoEvent,
    /// The event was queued on the channel.
    Queued,
    /// The channel is closed: the event was not queued and is returned.
    Refused(TranscriptionEvent),
}

/// The record that is republished to the user interface for one event.
#[derive(Debug, Clone)]
pub struct TranscriptUpdate {
    pub text: String,
    pub timestamp: String,
    pub is_final: bool,
}

impl TranscriptUpdate {
    /// The update that relays `event`: the same three fields.
    pub fn from_event(event: TranscriptionEvent) -> (update: Self)
        ensures
            update.text == event.text,
            update.timestamp == event.timestamp,
            update.is_final == event.is_final,
    {
        TranscriptUpdate { text: event.text, timestamp: event.timestamp, is_final: event.is_final }
    }
}

} // verus!
