//! Provisioning of a model artifact: whether it has to be fetched, and the
//! course of a download.
//!
//! A download is driven from outside: the caller performs the request and
//! the file operations and reports what happened, `download_step` says
//! what to do next. The artifact reaches its final path in one step, by
//! renaming a temporary file that holds the whole stream; a download that
//! breaks off leaves the final path as it was.
use vstd::prelude::*;

verus! {

/// What has to happen before a model artifact can be loaded.
#[derive(Clone, Copy, Debug, PartialEq, Eq, Structural)]
pub enum ProvisionStep {
    /// The artifact is on disk: load it, touch no network.
    UseLocal,
    /// The artifact is missing: download it first.
    Download,
}

/// Provisioning is idempotent: an artifact that is present is never
/// fetched again, a missing one always is.
pub fn provision_step(artifact_present: bool) -> (step: ProvisionStep)
    ensures
        step == if artifact_present {
            ProvisionStep::UseLocal
        } else {
            ProvisionStep::Download
        },
{
    if artifact_present {
        ProvisionStep::UseLocal
    } else {
        ProvisionStep::Download
    }
}

/// How far a download has come.
#[derive(Clone, Copy, Debug, PartialEq, Eq, Structural)]
pub enum DownloadState {
    /// The request is sent and not yet answered.
    Requested,
    /// The server answered with success; so many bytes have been written
    /// to the temporary file. The count saturates.
    Receiving(u64),
    /// The artifact stands at its final path.
    Complete,
    /// The download was given up. The final path was not touched.
    Failed,
}

/// What the caller observed.
#[derive(Clone, Copy, Debug, PartialEq, Eq, Structural)]
pub enum DownloadEvent {
    /// The server answered with this HTTP status code.
    Response(u16),
    /// A chunk of this many bytes arrived.
    Chunk(u64),
    /// The stream ended.
    EndOfStream,
    /// The network or the file system reported an error.
    Failure,
}

/// What the caller has to do next.
#[derive(Clone, Copy, Debug, PartialEq, Eq, Structural)]
pub enum DownloadAction {
    /// Create the temporary file beside the final path.
    CreateTemp,
    /// Append the chunk to the temporary file.
    Append,
    /// Flush the temporary file and rename it to the final path.
    Commit,
    /// Give up and report the failure.
    Abort,
    /// Nothing: the download is over.
    Nothing,
}

/// Whether an HTTP status code reports success: the codes from 200 to 299.
pub open spec fn is_success(code: u16) -> bool {
    200 <= code < 300
}

/// The sum of a byte count and a chunk length, held at the largest count.
pub open spec fn counted(bytes: u64, len: u64) -> u64 {
    if bytes + len <= u64::MAX {
        (bytes + len) as u64
    } else {
        u64::MAX
    }
}

/// The state that follows `state` on `event`, and the action to take.
pub open spec fn next(state: DownloadState, event: DownloadEvent) -> (DownloadState, DownloadAction) {
    match state {
        DownloadState::Requested => match event {
            DownloadEvent::Response(code) => if is_success(code) {
                (DownloadState::Receiving(0), DownloadAction::CreateTemp)
            } else {
                (DownloadState::Failed, DownloadAction::Abort)
            },
            _ => (DownloadState::Failed, DownloadAction::Abort),
        },
        DownloadState::Receiving(bytes) => match event {
            DownloadEvent::Chunk(len) => (
                DownloadState::Receiving(counted(bytes, len)),
                DownloadAction::Append,
            ),
            DownloadEvent::EndOfStream => (DownloadState::Complete, DownloadAction::Commit),
            _ => (DownloadState::Failed, DownloadAction::Abort),
        },
        DownloadState::Complete => (DownloadState::Complete, DownloadAction::Nothing),
        DownloadState::Failed => (DownloadState::Failed, DownloadAction::Nothing),
    }
}

/// The state reached from `state` after all of `events`, in order.
pub open spec fn run(state: DownloadState, events: Seq<DownloadEvent>) -> DownloadState
    decreases events.len(),
{
    if events.len() == 0 {
        state
    } else {
        next(run(state, events.drop_last()), events.last()).0
    }
}

/// Whether `events` is a successful answer followed by chunks only.
pub open spec fn is_partial_stream(events: Seq<DownloadEvent>) -> bool {
    &&& events.len() >= 1
    &&& events[0] matches DownloadEvent::Response(code) && is_success(code)
    &&& forall|i: int| 1 <= i < events.len() ==> events[i] is Chunk
}

/// One step of a download: a successful answer opens the temporary file,
/// every chunk is appended to it, the end of the stream commits it, and
/// anything else gives the download up. Once a download is complete or
/// has failed, nothing more is done.
pub fn download_step(state: DownloadState, event: DownloadEvent) -> (step: (
    DownloadState,
    DownloadAction,
))
    ensures
        step == next(state, event),
{
    match state {
        DownloadState::Requested => match event {
            DownloadEvent::Response(code) => {
                if 200 <= code && code < 300 {
                    (DownloadState::Receiving(0), DownloadAction::CreateTemp)
                } else {
                    (DownloadState::Failed, DownloadAction::Abort)
                }
            },
            _ => (DownloadState::Failed, DownloadAction::Abort),
        },
        DownloadState::Receiving(bytes) => match event {
            DownloadEvent::Chunk(len) => {
                let total: u64 = if len <= u64::MAX - bytes {
                    bytes + len
                } else {
                    u64::MAX
                };
                (DownloadState::Receiving(total), DownloadAction::Append)
            },
            DownloadEvent::EndOfStream => (DownloadState::Complete, DownloadAction::Commit),
            _ => (DownloadState::Failed, DownloadAction::Abort),
        },
        DownloadState::Complete => (DownloadState::Complete, DownloadAction::Nothing),
        DownloadState::Failed => (DownloadState::Failed, DownloadAction::Nothing),
    }
}

/// The final path is written in one situation only: the end of the stream
/// while chunks are being received. A download that has failed stays
/// failed, and one that is complete stays complete.
pub proof fn law_commit_only_at_end_of_stream(state: DownloadState, event: DownloadEvent)
    ensures
        next(state, event).1 == DownloadAction::Commit <==> (state is Receiving
            && event is EndOfStream),
        next(state, event).0 is Complete <==> (state is Complete || next(state, event).1
            == DownloadAction::Commit),
        state is Failed ==> next(state, event) == (DownloadState::Failed, DownloadAction::Nothing),
        state is Complete ==> next(state, event) == (
            DownloadState::Complete,
            DownloadAction::Nothing,
        ),
{
}

/// A download that starts with its request is receiving exactly after a
/// successful answer followed by chunks only.
pub proof fn law_receiving_after_partial_stream(events: Seq<DownloadEvent>)
    ensures
        run(DownloadState::Requested, events) is Receiving <==> is_partial_stream(events),
        events.len() == 0 ==> run(DownloadState::Requested, events) is Requested,
        events.len() > 0 ==> !(run(DownloadState::Requested, events) is Requested),
    decreases events.len(),
{
    if events.len() > 0 {
        let head = events.drop_last();
        law_receiving_after_partial_stream(head);
        if is_partial_stream(events) && head.len() > 0 {
            assert(head[0] == events[0]);
            assert forall|i: int| 1 <= i < head.len() implies head[i] is Chunk by {
                assert(head[i] == events[i]);
            }
        }
        if head.len() > 0 && is_partial_stream(head) && events.last() is Chunk {
            assert(events[0] == head[0]);
            assert forall|i: int| 1 <= i < events.len() implies events[i] is Chunk by {
                if i < head.len() {
                    assert(events[i] == head[i]);
                }
            }
        }
    }
}

/// A download is complete only if the stream ended after a successful
/// answer followed by chunks only.
pub proof fn law_complete_after_whole_stream(events: Seq<DownloadEvent>)
    requires
        run(DownloadState::Requested, events) is Complete,
    ensures
        exists|k: int|
            1 <= k < events.len() && events[k] is EndOfStream && is_partial_stream(
                #[trigger] events.take(k),
            ),
    decreases events.len(),
{
    let head = events.drop_last();
    if run(DownloadState::Requested, head) is Complete {
        law_complete_after_whole_stream(head);
        let k = choose|k: int|
            1 <= k < head.len() && head[k] is EndOfStream && is_partial_stream(
                #[trigger] head.take(k),
            );
        assert(events.take(k) =~= head.take(k));
        assert(events[k] == head[k]);
    } else {
        law_receiving_after_partial_stream(head);
        let k = events.len() - 1;
        assert(events.take(k) =~= head);
    }
}

} // verus!
