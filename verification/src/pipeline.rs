//! The per-message pipeline, as a state machine: each state waits for the
//! answer of exactly one outside step (download, remote call, reply send,
//! file deletion), and each transition says which action to perform next.
//! A host drives the machine, performing the actions and feeding the
//! answers back as events; every decision — ordering, fallback replies on
//! partial failure, the guaranteed release of the temp file — is made here.

use vstd::prelude::*;

use crate::identity::ForwardOrigin;
use crate::identity::resolve_identity;
use crate::identity::spec_identity;
use crate::request::SummaryRequest;
use crate::request::SummaryRequestV;
use crate::request::TranscriptionRequest;
use crate::request::TranscriptionRequestV;
use crate::request::build_summary_request;
use crate::request::build_transcription_request;
use crate::request::format_tldr_reply;
use crate::request::opt_text_view;
use crate::request::spec_summary_request;
use crate::request::spec_tldr_reply;
use crate::request::spec_transcription_request;
use crate::tmp::TempFile;
use crate::tmp::spec_temp_path;

verus! {

/// The kind of audio attachment an incoming message carries. Both kinds
/// run through one flow, distinguished only by the extracted file id.
#[derive(Clone, Copy, PartialEq, Eq, Structural, Debug)]
pub enum AttachmentKind {
    Voice,
    Audio,
}

/// What the pipeline reads of a voice or audio message.
#[derive(Debug)]
pub struct MediaMessage {
    pub kind: AttachmentKind,
    pub chat_id: i64,
    /// The remote file identifier of the attachment.
    pub file_id: String,
    /// The sender's username, if the account exposes one.
    pub sender_username: Option<String>,
    /// Where the message was forwarded from, if it was forwarded.
    pub forward: Option<ForwardOrigin>,
}

/// One unit of inbound chat-platform data.
#[derive(Debug)]
pub enum Incoming {
    Media(MediaMessage),
    /// Anything that is not a voice or audio attachment; ignored.
    Other,
}

/// How processing one message ended: completed (possibly through fallback
/// replies), or aborted by a download or send failure.
#[derive(Clone, Copy, PartialEq, Eq, Structural, Debug)]
pub enum Outcome {
    Completed,
    TransportFailed,
}

/// What the pipeline carries while a message is in flight.
#[derive(Debug)]
pub struct PipelineCtx {
    pub chat_id: i64,
    /// The handle of the temp file the audio is downloaded into.
    pub file: TempFile,
    /// The resolved display name, used only to personalize the prompt.
    pub identity: String,
}

#[verifier::ext_equal]
pub ghost struct PipelineCtxV {
    pub chat_id: int,
    pub path: Seq<char>,
    pub identity: Seq<char>,
}

impl View for PipelineCtx {
    type V = PipelineCtxV;

    open spec fn view(&self) -> PipelineCtxV {
        PipelineCtxV {
            chat_id: self.chat_id as int,
            path: self.file@,
            identity: self.identity@,
        }
    }
}

/// The pipeline's states; each waits for one event.
#[derive(Debug)]
pub enum State {
    /// Awaiting the media download into the temp file.
    Fetching { ctx: PipelineCtx },
    /// Awaiting the speech-to-text answer.
    Transcribing { ctx: PipelineCtx },
    /// Awaiting the send of the raw-transcript reply.
    SendingTranscript { ctx: PipelineCtx, transcript: String },
    /// Awaiting the send of the no-transcription fallback reply.
    SendingNoTranscript { ctx: PipelineCtx },
    /// Awaiting the completion-service answer.
    Summarizing { ctx: PipelineCtx },
    /// Awaiting the send of the summary reply or its fallback.
    SendingSummary { ctx: PipelineCtx },
    /// Awaiting the deletion of the temp file.
    Releasing { outcome: Outcome },
    /// Processing finished.
    Done { outcome: Outcome },
}

#[verifier::ext_equal]
pub ghost enum StateV {
    Fetching { ctx: PipelineCtxV },
    Transcribing { ctx: PipelineCtxV },
    SendingTranscript { ctx: PipelineCtxV, transcript: Seq<char> },
    SendingNoTranscript { ctx: PipelineCtxV },
    Summarizing { ctx: PipelineCtxV },
    SendingSummary { ctx: PipelineCtxV },
    Releasing { outcome: Outcome },
    Done { outcome: Outcome },
}

impl View for State {
    type V = StateV;

    open spec fn view(&self) -> StateV {
        match self {
            State::Fetching { ctx } => StateV::Fetching { ctx: ctx@ },
            State::Transcribing { ctx } => StateV::Transcribing { ctx: ctx@ },
            State::SendingTranscript { ctx, transcript } => StateV::SendingTranscript {
                ctx: ctx@,
                transcript: transcript@,
            },
            State::SendingNoTranscript { ctx } => StateV::SendingNoTranscript { ctx: ctx@ },
            State::Summarizing { ctx } => StateV::Summarizing { ctx: ctx@ },
            State::SendingSummary { ctx } => StateV::SendingSummary { ctx: ctx@ },
            State::Releasing { outcome } => StateV::Releasing { outcome: *outcome },
            State::Done { outcome } => StateV::Done { outcome: *outcome },
        }
    }
}

/// The answer of one outside step, fed back into the machine.
#[derive(Debug)]
pub enum Event {
    /// The download finished; `ok` says whether the bytes reached the file.
    FetchDone { ok: bool },
    /// The speech-to-text call finished; the text is absent on remote
    /// failure.
    TranscriptionDone { text: Option<String> },
    /// The completion call finished; absent outside on remote failure, the
    /// inside is the first choice's optional content.
    SummaryDone { content: Option<Option<String>> },
    /// A reply send finished.
    SendDone { ok: bool },
    /// The temp-file deletion was attempted; `deleted` says whether it
    /// succeeded.
    ReleaseDone { deleted: bool },
}

#[verifier::ext_equal]
pub ghost enum EventV {
    FetchDone { ok: bool },
    TranscriptionDone { text: Option<Seq<char>> },
    SummaryDone { content: Option<Option<Seq<char>>> },
    SendDone { ok: bool },
    ReleaseDone { deleted: bool },
}

impl View for Event {
    type V = EventV;

    open spec fn view(&self) -> EventV {
        match self {
            Event::FetchDone { ok } => EventV::FetchDone { ok: *ok },
            Event::TranscriptionDone { text } => EventV::TranscriptionDone {
                text: match text {
                    Some(t) => Some(t@),
                    None => None,
                },
            },
            Event::SummaryDone { content } => EventV::SummaryDone {
                content: match content {
                    Some(c) => Some(opt_text_view(*c)),
                    None => None,
                },
            },
            Event::SendDone { ok } => EventV::SendDone { ok: *ok },
            Event::ReleaseDone { deleted } => EventV::ReleaseDone { deleted: *deleted },
        }
    }
}

/// What the host must perform next on the machine's behalf.
#[derive(Debug)]
#[allow(inconsistent_fields)]
pub enum Action {
    /// Download the remote file into the temp path, overwriting.
    Fetch { file_id: String, path: String },
    /// Issue the speech-to-text call.
    Transcribe { request: TranscriptionRequest },
    /// Send a text reply into the original conversation.
    SendText { chat_id: i64, text: String },
    /// Issue the completion call.
    Summarize { request: SummaryRequest },
    /// Delete the temp file, best effort.
    ReleaseFile { path: String },
}

#[verifier::ext_equal]
#[allow(inconsistent_fields)]
pub ghost enum ActionV {
    Fetch { file_id: Seq<char>, path: Seq<char> },
    Transcribe { request: TranscriptionRequestV },
    SendText { chat_id: int, text: Seq<char> },
    Summarize { request: SummaryRequestV },
    ReleaseFile { path: Seq<char> },
}

impl View for Action {
    type V = ActionV;

    open spec fn view(&self) -> ActionV {
        match self {
            Action::Fetch { file_id, path } => ActionV::Fetch {
                file_id: file_id@,
                path: path@,
            },
            Action::Transcribe { request } => ActionV::Transcribe { request: request@ },
            Action::SendText { chat_id, text } => ActionV::SendText {
                chat_id: *chat_id as int,
                text: text@,
            },
            Action::Summarize { request } => ActionV::Summarize { request: request@ },
            Action::ReleaseFile { path } => ActionV::ReleaseFile { path: path@ },
        }
    }
}

/// The view of an optional action.
pub open spec fn opt_action_view(action: Option<Action>) -> Option<ActionV> {
    match action {
        Some(a) => Some(a@),
        None => None,
    }
}

/// Whether an event answers the question the state is waiting on.
pub open spec fn event_fits(s: StateV, e: EventV) -> bool {
    match (s, e) {
        (StateV::Fetching { .. }, EventV::FetchDone { .. }) => true,
        (StateV::Transcribing { .. }, EventV::TranscriptionDone { .. }) => true,
        (StateV::SendingTranscript { .. }, EventV::SendDone { .. }) => true,
        (StateV::SendingNoTranscript { .. }, EventV::SendDone { .. }) => true,
        (StateV::Summarizing { .. }, EventV::SummaryDone { .. }) => true,
        (StateV::SendingSummary { .. }, EventV::SendDone { .. }) => true,
        (StateV::Releasing { .. }, EventV::ReleaseDone { .. }) => true,
        _ => false,
    }
}

/// The transition relation: next state and the action to perform, for a
/// state and the event it was waiting on. A mismatched event changes
/// nothing.
pub open spec fn spec_step(s: StateV, e: EventV) -> (StateV, Option<ActionV>) {
    match (s, e) {
        (StateV::Fetching { ctx }, EventV::FetchDone { ok }) => if ok {
            (
                StateV::Transcribing { ctx },
                Some(ActionV::Transcribe { request: spec_transcription_request(ctx.path) }),
            )
        } else {
            (
                StateV::Releasing { outcome: Outcome::TransportFailed },
                Some(ActionV::ReleaseFile { path: ctx.path }),
            )
        },
        (StateV::Transcribing { ctx }, EventV::TranscriptionDone { text }) => match text {
            Some(t) => (
                StateV::SendingTranscript { ctx, transcript: t },
                Some(ActionV::SendText { chat_id: ctx.chat_id, text: t }),
            ),
            None => (
                StateV::SendingNoTranscript { ctx },
                Some(
                    ActionV::SendText {
                        chat_id: ctx.chat_id,
                        text: "No transcription available"@,
                    },
                ),
            ),
        },
        (StateV::SendingTranscript { ctx, transcript }, EventV::SendDone { ok }) => if ok {
            (
                StateV::Summarizing { ctx },
                Some(
                    ActionV::Summarize {
                        request: spec_summary_request(transcript, ctx.identity),
                    },
                ),
            )
        } else {
            (
                StateV::Releasing { outcome: Outcome::TransportFailed },
                Some(ActionV::ReleaseFile { path: ctx.path }),
            )
        },
        (StateV::SendingNoTranscript { ctx }, EventV::SendDone { ok }) => (
            StateV::Releasing {
                outcome: if ok {
                    Outcome::Completed
                } else {
                    Outcome::TransportFailed
                },
            },
            Some(ActionV::ReleaseFile { path: ctx.path }),
        ),
        (StateV::Summarizing { ctx }, EventV::SummaryDone { content }) => match content {
            Some(c) => (
                StateV::SendingSummary { ctx },
                Some(ActionV::SendText { chat_id: ctx.chat_id, text: spec_tldr_reply(c) }),
            ),
            None => (
                StateV::SendingSummary { ctx },
                Some(ActionV::SendText { chat_id: ctx.chat_id, text: "no response"@ }),
            ),
        },
        (StateV::SendingSummary { ctx }, EventV::SendDone { ok }) => (
            StateV::Releasing {
                outcome: if ok {
                    Outcome::Completed
                } else {
                    Outcome::TransportFailed
                },
            },
            Some(ActionV::ReleaseFile { path: ctx.path }),
        ),
        (StateV::Releasing { outcome }, EventV::ReleaseDone { .. }) => (
            StateV::Done { outcome },
            None,
        ),
        _ => (s, None),
    }
}

/// Performs one transition. The caller hands in the event the state was
/// waiting on and gets the next state and the next action to perform.
pub fn step(s: State, e: Event) -> (r: (State, Option<Action>))
    requires
        event_fits(s@, e@),
    ensures
        r.0@ == spec_step(s@, e@).0,
        opt_action_view(r.1) == spec_step(s@, e@).1,
{
    match (s, e) {
        (State::Fetching { ctx }, Event::FetchDone { ok }) => if ok {
            let request = build_transcription_request(String::from_str(ctx.file.path()));
            (State::Transcribing { ctx }, Some(Action::Transcribe { request }))
        } else {
            let path = ctx.file.into_path();
            (
                State::Releasing { outcome: Outcome::TransportFailed },
                Some(Action::ReleaseFile { path }),
            )
        },
        (State::Transcribing { ctx }, Event::TranscriptionDone { text }) => match text {
            Some(t) => {
                let reply = t.clone();
                let chat_id = ctx.chat_id;
                (
                    State::SendingTranscript { ctx, transcript: t },
                    Some(Action::SendText { chat_id, text: reply }),
                )
            },
            None => {
                let chat_id = ctx.chat_id;
                (
                    State::SendingNoTranscript { ctx },
                    Some(
                        Action::SendText {
                            chat_id,
                            text: String::from_str("No transcription available"),
                        },
                    ),
                )
            },
        },
        (State::SendingTranscript { ctx, transcript }, Event::SendDone { ok }) => if ok {
            let request = build_summary_request(transcript, ctx.identity.as_str());
            (State::Summarizing { ctx }, Some(Action::Summarize { request }))
        } else {
            let path = ctx.file.into_path();
            (
                State::Releasing { outcome: Outcome::TransportFailed },
                Some(Action::ReleaseFile { path }),
            )
        },
        (State::SendingNoTranscript { ctx }, Event::SendDone { ok }) => {
            let path = ctx.file.into_path();
            (
                State::Releasing {
                    outcome: if ok {
                        Outcome::Completed
                    } else {
                        Outcome::TransportFailed
                    },
                },
                Some(Action::ReleaseFile { path }),
            )
        },
        (State::Summarizing { ctx }, Event::SummaryDone { content }) => match content {
            Some(c) => {
                let chat_id = ctx.chat_id;
                let reply = format_tldr_reply(c);
                (
                    State::SendingSummary { ctx },
                    Some(Action::SendText { chat_id, text: reply }),
                )
            },
            None => {
                let chat_id = ctx.chat_id;
                (
                    State::SendingSummary { ctx },
                    Some(
                        Action::SendText { chat_id, text: String::from_str("no response") },
                    ),
                )
            },
        },
        (State::SendingSummary { ctx }, Event::SendDone { ok }) => {
            let path = ctx.file.into_path();
            (
                State::Releasing {
                    outcome: if ok {
                        Outcome::Completed
                    } else {
                        Outcome::TransportFailed
                    },
                },
                Some(Action::ReleaseFile { path }),
            )
        },
        (State::Releasing { outcome }, Event::ReleaseDone { .. }) => (
            State::Done { outcome },
            None,
        ),
        _ => unreached(),
    }
}

/// The filename of one message's temp file: the drawn unique id plus the
/// fixed audio extension.
pub open spec fn spec_temp_filename(unique_id: Seq<char>) -> Seq<char> {
    unique_id + ".ogg"@
}

/// The machine's beginning for one incoming message: a non-media message
/// is ignored and the machine is already done; a media message resolves
/// the identity, acquires the temp path `<unique_id>.ogg` under the temp
/// root, and asks for the download of its attachment.
pub open spec fn spec_start(
    msg: Incoming,
    temp_root: Seq<char>,
    unique_id: Seq<char>,
) -> (StateV, Option<ActionV>) {
    match msg {
        Incoming::Media(m) => (
            StateV::Fetching {
                ctx: PipelineCtxV {
                    chat_id: m.chat_id as int,
                    path: spec_temp_path(temp_root, spec_temp_filename(unique_id)),
                    identity: spec_identity(m.sender_username, m.forward),
                },
            },
            Some(
                ActionV::Fetch {
                    file_id: m.file_id@,
                    path: spec_temp_path(temp_root, spec_temp_filename(unique_id)),
                },
            ),
        ),
        Incoming::Other => (StateV::Done { outcome: Outcome::Completed }, None),
    }
}

/// Begins processing one incoming message under a caller-supplied unique
/// filename id.
pub fn start(msg: Incoming, temp_root: &str, unique_id: &str) -> (r: (State, Option<Action>))
    ensures
        r.0@ == spec_start(msg, temp_root@, unique_id@).0,
        opt_action_view(r.1) == spec_start(msg, temp_root@, unique_id@).1,
{
    match msg {
        Incoming::Media(m) => {
            let mut filename = String::from_str(unique_id);
            filename.append(".ogg");
            let file = TempFile::new(temp_root, filename.as_str());
            let fetch_path = String::from_str(file.path());
            let identity = resolve_identity(m.sender_username, m.forward);
            let ctx = PipelineCtx { chat_id: m.chat_id, file, identity };
            (
                State::Fetching { ctx },
                Some(Action::Fetch { file_id: m.file_id, path: fetch_path }),
            )
        },
        Incoming::Other => (State::Done { outcome: Outcome::Completed }, None),
    }
}

/// Relies on uuid::Uuid::new_v4 and its hyphenated display form: a freshly
/// drawn random identifier rendered as 36 ASCII characters. Nothing is
/// assumed about which identifier comes back — only its shape; collisions
/// between two draws are negligible but not impossible, so no two calls
/// are claimed to differ.
#[verifier::external_body]
fn fresh_unique_id() -> (id: String)
    ensures
        id@.len() == 36,
{
    uuid::Uuid::new_v4().to_string()
}

/// Begins processing one incoming message, drawing the unique filename id
/// itself.
pub fn start_message(msg: Incoming, temp_root: &str) -> (r: (State, Option<Action>))
    ensures
        exists|uid: Seq<char>|
            {
                &&& #[trigger] spec_start(msg, temp_root@, uid).0 == r.0@
                &&& spec_start(msg, temp_root@, uid).1 == opt_action_view(r.1)
                &&& uid.len() == 36
            },
{
    let id = fresh_unique_id();
    let r = start(msg, temp_root, id.as_str());
    proof {
        assert(spec_start(msg, temp_root@, id@).0 == r.0@);
    }
    r
}

/// The log-and-continue adapter at the remote-call boundary: a failed
/// transcription or summary call becomes an absence marker, and the
/// pipeline degrades to a fallback reply instead of aborting. The host
/// logs the error before it is erased here.
pub fn into_absent<T, E>(outcome: Result<T, E>) -> (r: Option<T>)
    ensures
        (outcome matches Ok(t) ==> r == Some(t)),
        (outcome is Err ==> r is None),
{
    match outcome {
        Ok(t) => Some(t),
        Err(_) => None,
    }
}

/// The actions one transition emits, as a sequence of length zero or one.
pub open spec fn step_actions(s: StateV, e: EventV) -> Seq<ActionV> {
    match spec_step(s, e).1 {
        Some(a) => seq![a],
        None => Seq::empty(),
    }
}

/// Runs the machine from `s` over `events`, collecting the final state and
/// every action emitted on the way.
pub open spec fn spec_run(s: StateV, events: Seq<EventV>) -> (StateV, Seq<ActionV>)
    decreases events.len(),
{
    if events.len() == 0 {
        (s, Seq::empty())
    } else {
        let rest = spec_run(spec_step(s, events[0]).0, events.skip(1));
        (rest.0, step_actions(s, events[0]) + rest.1)
    }
}

/// Whether every event of the trace answers the question its state was
/// waiting on.
pub open spec fn trace_fits(s: StateV, events: Seq<EventV>) -> bool
    decreases events.len(),
{
    events.len() == 0 || (event_fits(s, events[0]) && trace_fits(
        spec_step(s, events[0]).0,
        events.skip(1),
    ))
}

/// How many reply sends a sequence of actions holds.
pub open spec fn count_sends(actions: Seq<ActionV>) -> nat
    decreases actions.len(),
{
    if actions.len() == 0 {
        0
    } else {
        (if actions[0] is SendText {
            1nat
        } else {
            0nat
        }) + count_sends(actions.skip(1))
    }
}

/// How many completion calls a sequence of actions holds.
pub open spec fn count_summarizes(actions: Seq<ActionV>) -> nat
    decreases actions.len(),
{
    if actions.len() == 0 {
        0
    } else {
        (if actions[0] is Summarize {
            1nat
        } else {
            0nat
        }) + count_summarizes(actions.skip(1))
    }
}

/// How many temp-file releases a sequence of actions holds.
pub open spec fn count_releases(actions: Seq<ActionV>) -> nat
    decreases actions.len(),
{
    if actions.len() == 0 {
        0
    } else {
        (if actions[0] is ReleaseFile {
            1nat
        } else {
            0nat
        }) + count_releases(actions.skip(1))
    }
}

/// Whether the machine still holds the temp-file handle: it is held from
/// the fetch through every remote call and reply, and given up exactly
/// when the release action is emitted.
pub open spec fn holds_file(s: StateV) -> bool {
    match s {
        StateV::Fetching { .. } => true,
        StateV::Transcribing { .. } => true,
        StateV::SendingTranscript { .. } => true,
        StateV::SendingNoTranscript { .. } => true,
        StateV::Summarizing { .. } => true,
        StateV::SendingSummary { .. } => true,
        StateV::Releasing { .. } => false,
        StateV::Done { .. } => false,
    }
}

} // verus!
