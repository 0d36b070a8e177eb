//! The pipeline's guarantees, stated over whole traces of the state
//! machine: the temp file is released exactly once per message, partial
//! failures degrade to the documented fallback replies, and a failed
//! deletion never changes how a message's processing ends.

use vstd::prelude::*;

use crate::pipeline::ActionV;
use crate::pipeline::EventV;
use crate::pipeline::Outcome;
use crate::pipeline::PipelineCtxV;
use crate::pipeline::StateV;
use crate::pipeline::count_releases;
use crate::pipeline::count_sends;
use crate::pipeline::count_summarizes;
use crate::pipeline::holds_file;
use crate::pipeline::spec_run;
use crate::pipeline::spec_step;
use crate::pipeline::spec_temp_filename;
use crate::pipeline::step_actions;
use crate::pipeline::trace_fits;
use crate::request::lemma_tldr_empty_content;
use crate::request::spec_summary_request;
use crate::request::spec_tldr_reply;
use crate::request::spec_transcription_request;
use crate::tmp::lemma_wrap_injective;
use crate::tmp::spec_temp_path;

verus! {

proof fn lemma_count_releases_concat(a: Seq<ActionV>, b: Seq<ActionV>)
    ensures
        count_releases(a + b) == count_releases(a) + count_releases(b),
    decreases a.len(),
{
    if a.len() == 0 {
        assert(a + b =~= b);
    } else {
        assert((a + b).skip(1) =~= a.skip(1) + b);
        lemma_count_releases_concat(a.skip(1), b);
        assert((a + b)[0] == a[0]);
    }
}

proof fn lemma_count_releases_single(a: ActionV)
    ensures
        count_releases(seq![a]) == (if a is ReleaseFile {
            1nat
        } else {
            0nat
        }),
{
    assert(seq![a].skip(1) =~= Seq::<ActionV>::empty());
    assert(count_releases(Seq::<ActionV>::empty()) == 0);
}

/// Along any trace of fitting events, releases already emitted plus the
/// handle still held balance what was held at the beginning.
proof fn lemma_release_balance(s: StateV, events: Seq<EventV>)
    requires
        trace_fits(s, events),
    ensures
        count_releases(spec_run(s, events).1) + (if holds_file(spec_run(s, events).0) {
            1nat
        } else {
            0nat
        }) == (if holds_file(s) {
            1nat
        } else {
            0nat
        }),
    decreases events.len(),
{
    if events.len() > 0 {
        let s1 = spec_step(s, events[0]).0;
        lemma_release_balance(s1, events.skip(1));
        lemma_count_releases_concat(step_actions(s, events[0]), spec_run(s1, events.skip(1)).1);
        match spec_step(s, events[0]).1 {
            Some(a) => lemma_count_releases_single(a),
            None => {
                assert(step_actions(s, events[0]) =~= Seq::<ActionV>::empty());
                assert(count_releases(Seq::<ActionV>::empty()) == 0);
            },
        }
    }
}

/// Release happens exactly once per acquire: however the remote calls and
/// sends succeed or fail, every complete run that begins with the freshly
/// acquired handle emits exactly one release of the temp file.
pub proof fn lemma_release_exactly_once(ctx: PipelineCtxV, events: Seq<EventV>)
    requires
        trace_fits(StateV::Fetching { ctx }, events),
        spec_run(StateV::Fetching { ctx }, events).0 is Done,
    ensures
        count_releases(spec_run(StateV::Fetching { ctx }, events).1) == 1,
{
    lemma_release_balance(StateV::Fetching { ctx }, events);
}

/// A successful fetch followed by a failed transcription sends exactly one
/// reply — the fallback text — performs no summarize call, and still
/// releases the temp file.
pub proof fn lemma_failed_transcription_one_fallback(
    ctx: PipelineCtxV,
    send_ok: bool,
    deleted: bool,
)
    ensures
        ({
            let events = seq![
                EventV::FetchDone { ok: true },
                EventV::TranscriptionDone { text: None },
                EventV::SendDone { ok: send_ok },
                EventV::ReleaseDone { deleted },
            ];
            let r = spec_run(StateV::Fetching { ctx }, events);
            &&& trace_fits(StateV::Fetching { ctx }, events)
            &&& r.0 is Done
            &&& r.1 == seq![
                ActionV::Transcribe { request: spec_transcription_request(ctx.path) },
                ActionV::SendText {
                    chat_id: ctx.chat_id,
                    text: "No transcription available"@,
                },
                ActionV::ReleaseFile { path: ctx.path },
            ]
            &&& count_sends(r.1) == 1
            &&& count_summarizes(r.1) == 0
        }),
{
    let ev0 = EventV::FetchDone { ok: true };
    let ev1 = EventV::TranscriptionDone { text: None };
    let ev2 = EventV::SendDone { ok: send_ok };
    let ev3 = EventV::ReleaseDone { deleted };
    let events = seq![ev0, ev1, ev2, ev3];
    let a0 = ActionV::Transcribe { request: spec_transcription_request(ctx.path) };
    let a1 = ActionV::SendText { chat_id: ctx.chat_id, text: "No transcription available"@ };
    let a2 = ActionV::ReleaseFile { path: ctx.path };
    let out = if send_ok {
        Outcome::Completed
    } else {
        Outcome::TransportFailed
    };
    let s0 = StateV::Fetching { ctx };
    let s1 = StateV::Transcribing { ctx };
    let s2 = StateV::SendingNoTranscript { ctx };
    let s3 = StateV::Releasing { outcome: out };
    let s4 = StateV::Done { outcome: out };
    let t1 = seq![ev1, ev2, ev3];
    let t2 = seq![ev2, ev3];
    let t3 = seq![ev3];
    let t4 = Seq::<EventV>::empty();
    assert(events.skip(1) =~= t1);
    assert(t1.skip(1) =~= t2);
    assert(t2.skip(1) =~= t3);
    assert(t3.skip(1) =~= t4);
    assert(spec_step(s0, ev0) == (s1, Some(a0)));
    assert(spec_step(s1, ev1) == (s2, Some(a1)));
    assert(spec_step(s2, ev2) == (s3, Some(a2)));
    assert(spec_step(s3, ev3) == (s4, None::<ActionV>));
    assert(trace_fits(s4, t4));
    assert(trace_fits(s3, t3));
    assert(trace_fits(s2, t2));
    assert(trace_fits(s1, t1));
    assert(trace_fits(s0, events));
    assert(spec_run(s4, t4) == (s4, Seq::<ActionV>::empty()));
    assert(spec_run(s3, t3).0 == s4);
    assert(spec_run(s3, t3).1 =~= Seq::<ActionV>::empty());
    assert(spec_run(s2, t2).0 == s4);
    assert(spec_run(s2, t2).1 =~= seq![a2]);
    assert(spec_run(s1, t1).0 == s4);
    assert(spec_run(s1, t1).1 =~= seq![a1, a2]);
    assert(spec_run(s0, events).0 == s4);
    assert(spec_run(s0, events).1 =~= seq![a0, a1, a2]);
    let acts = seq![a0, a1, a2];
    assert(acts.skip(1) =~= seq![a1, a2]);
    assert(seq![a1, a2].skip(1) =~= seq![a2]);
    assert(seq![a2].skip(1) =~= Seq::<ActionV>::empty());
    assert(count_sends(Seq::<ActionV>::empty()) == 0);
    assert(count_sends(seq![a2]) == 0);
    assert(count_sends(seq![a1, a2]) == 1);
    assert(count_sends(acts) == 1);
    assert(count_summarizes(Seq::<ActionV>::empty()) == 0);
    assert(count_summarizes(seq![a2]) == 0);
    assert(count_summarizes(seq![a1, a2]) == 0);
    assert(count_summarizes(acts) == 0);
}

/// Any run that gets a transcript and then any summary answer emits
/// exactly these five actions in order: the transcription call, the
/// transcript reply, the summary call, the summary reply (or its
/// fallback), and the release of the temp file.
pub proof fn lemma_transcript_run_actions(
    ctx: PipelineCtxV,
    transcript: Seq<char>,
    summary: Option<Option<Seq<char>>>,
    send_ok: bool,
    deleted: bool,
)
    ensures
        ({
            let events = seq![
                EventV::FetchDone { ok: true },
                EventV::TranscriptionDone { text: Some(transcript) },
                EventV::SendDone { ok: true },
                EventV::SummaryDone { content: summary },
                EventV::SendDone { ok: send_ok },
                EventV::ReleaseDone { deleted },
            ];
            let r = spec_run(StateV::Fetching { ctx }, events);
            &&& trace_fits(StateV::Fetching { ctx }, events)
            &&& r.0 == StateV::Done {
                outcome: if send_ok {
                    Outcome::Completed
                } else {
                    Outcome::TransportFailed
                },
            }
            &&& r.1 == seq![
                ActionV::Transcribe { request: spec_transcription_request(ctx.path) },
                ActionV::SendText { chat_id: ctx.chat_id, text: transcript },
                ActionV::Summarize {
                    request: spec_summary_request(transcript, ctx.identity),
                },
                ActionV::SendText {
                    chat_id: ctx.chat_id,
                    text: match summary {
                        Some(c) => spec_tldr_reply(c),
                        None => "no response"@,
                    },
                },
                ActionV::ReleaseFile { path: ctx.path },
            ]
        }),
{
    let ev0 = EventV::FetchDone { ok: true };
    let ev1 = EventV::TranscriptionDone { text: Some(transcript) };
    let ev2 = EventV::SendDone { ok: true };
    let ev3 = EventV::SummaryDone { content: summary };
    let ev4 = EventV::SendDone { ok: send_ok };
    let ev5 = EventV::ReleaseDone { deleted };
    let events = seq![ev0, ev1, ev2, ev3, ev4, ev5];
    let a0 = ActionV::Transcribe { request: spec_transcription_request(ctx.path) };
    let a1 = ActionV::SendText { chat_id: ctx.chat_id, text: transcript };
    let a2 = ActionV::Summarize { request: spec_summary_request(transcript, ctx.identity) };
    let a3 = ActionV::SendText {
        chat_id: ctx.chat_id,
        text: match summary {
            Some(c) => spec_tldr_reply(c),
            None => "no response"@,
        },
    };
    let a4 = ActionV::ReleaseFile { path: ctx.path };
    let out = if send_ok {
        Outcome::Completed
    } else {
        Outcome::TransportFailed
    };
    let s0 = StateV::Fetching { ctx };
    let s1 = StateV::Transcribing { ctx };
    let s2 = StateV::SendingTranscript { ctx, transcript };
    let s3 = StateV::Summarizing { ctx };
    let s4 = StateV::SendingSummary { ctx };
    let s5 = StateV::Releasing { outcome: out };
    let s6 = StateV::Done { outcome: out };
    let t1 = seq![ev1, ev2, ev3, ev4, ev5];
    let t2 = seq![ev2, ev3, ev4, ev5];
    let t3 = seq![ev3, ev4, ev5];
    let t4 = seq![ev4, ev5];
    let t5 = seq![ev5];
    let t6 = Seq::<EventV>::empty();
    assert(events.skip(1) =~= t1);
    assert(t1.skip(1) =~= t2);
    assert(t2.skip(1) =~= t3);
    assert(t3.skip(1) =~= t4);
    assert(t4.skip(1) =~= t5);
    assert(t5.skip(1) =~= t6);
    assert(spec_step(s0, ev0) == (s1, Some(a0)));
    assert(spec_step(s1, ev1) == (s2, Some(a1)));
    assert(spec_step(s2, ev2) == (s3, Some(a2)));
    assert(spec_step(s3, ev3) == (s4, Some(a3)));
    assert(spec_step(s4, ev4) == (s5, Some(a4)));
    assert(spec_step(s5, ev5) == (s6, None::<ActionV>));
    assert(trace_fits(s6, t6));
    assert(trace_fits(s5, t5));
    assert(trace_fits(s4, t4));
    assert(trace_fits(s3, t3));
    assert(trace_fits(s2, t2));
    assert(trace_fits(s1, t1));
    assert(trace_fits(s0, events));
    assert(spec_run(s6, t6) == (s6, Seq::<ActionV>::empty()));
    assert(spec_run(s5, t5).0 == s6);
    assert(spec_run(s5, t5).1 =~= Seq::<ActionV>::empty());
    assert(spec_run(s4, t4).0 == s6);
    assert(spec_run(s4, t4).1 =~= seq![a4]);
    assert(spec_run(s3, t3).0 == s6);
    assert(spec_run(s3, t3).1 =~= seq![a3, a4]);
    assert(spec_run(s2, t2).0 == s6);
    assert(spec_run(s2, t2).1 =~= seq![a2, a3, a4]);
    assert(spec_run(s1, t1).0 == s6);
    assert(spec_run(s1, t1).1 =~= seq![a1, a2, a3, a4]);
    assert(spec_run(s0, events).0 == s6);
    assert(spec_run(s0, events).1 =~= seq![a0, a1, a2, a3, a4]);
}

/// Successful transcription followed by failed summarization: the pipeline
/// sends exactly two replies, the transcript first and then the fixed
/// fallback text.
pub proof fn lemma_failed_summary_two_replies(
    ctx: PipelineCtxV,
    transcript: Seq<char>,
    send_ok: bool,
    deleted: bool,
)
    ensures
        ({
            let events = seq![
                EventV::FetchDone { ok: true },
                EventV::TranscriptionDone { text: Some(transcript) },
                EventV::SendDone { ok: true },
                EventV::SummaryDone { content: None },
                EventV::SendDone { ok: send_ok },
                EventV::ReleaseDone { deleted },
            ];
            let r = spec_run(StateV::Fetching { ctx }, events);
            &&& r.0 is Done
            &&& count_sends(r.1) == 2
            &&& r.1[1] == ActionV::SendText { chat_id: ctx.chat_id, text: transcript }
            &&& r.1[3] == ActionV::SendText { chat_id: ctx.chat_id, text: "no response"@ }
        }),
{
    lemma_transcript_run_actions(ctx, transcript, None, send_ok, deleted);
    let a0 = ActionV::Transcribe { request: spec_transcription_request(ctx.path) };
    let a1 = ActionV::SendText { chat_id: ctx.chat_id, text: transcript };
    let a2 = ActionV::Summarize { request: spec_summary_request(transcript, ctx.identity) };
    let a3 = ActionV::SendText { chat_id: ctx.chat_id, text: "no response"@ };
    let a4 = ActionV::ReleaseFile { path: ctx.path };
    let acts = seq![a0, a1, a2, a3, a4];
    assert(acts.skip(1) =~= seq![a1, a2, a3, a4]);
    assert(seq![a1, a2, a3, a4].skip(1) =~= seq![a2, a3, a4]);
    assert(seq![a2, a3, a4].skip(1) =~= seq![a3, a4]);
    assert(seq![a3, a4].skip(1) =~= seq![a4]);
    assert(seq![a4].skip(1) =~= Seq::<ActionV>::empty());
    assert(count_sends(Seq::<ActionV>::empty()) == 0);
    assert(count_sends(seq![a4]) == 0);
    assert(count_sends(seq![a3, a4]) == 1);
    assert(count_sends(seq![a2, a3, a4]) == 1);
    assert(count_sends(seq![a1, a2, a3, a4]) == 2);
    assert(count_sends(acts) == 2);
    let events = seq![
        EventV::FetchDone { ok: true },
        EventV::TranscriptionDone { text: Some(transcript) },
        EventV::SendDone { ok: true },
        EventV::SummaryDone { content: None },
        EventV::SendDone { ok: send_ok },
        EventV::ReleaseDone { deleted },
    ];
    let r = spec_run(StateV::Fetching { ctx }, events);
    assert(r.1 == acts);
    assert(acts[1] == a1);
    assert(acts[3] == a3);
}

/// Successful summarization whose single choice carries no content: the
/// final reply reads exactly `TL;DR: no response`.
pub proof fn lemma_empty_summary_reply(
    ctx: PipelineCtxV,
    transcript: Seq<char>,
    send_ok: bool,
    deleted: bool,
)
    ensures
        ({
            let events = seq![
                EventV::FetchDone { ok: true },
                EventV::TranscriptionDone { text: Some(transcript) },
                EventV::SendDone { ok: true },
                EventV::SummaryDone { content: Some(None) },
                EventV::SendDone { ok: send_ok },
                EventV::ReleaseDone { deleted },
            ];
            let r = spec_run(StateV::Fetching { ctx }, events);
            &&& r.0 is Done
            &&& r.1[3] == ActionV::SendText {
                chat_id: ctx.chat_id,
                text: "TL;DR: no response"@,
            }
        }),
{
    lemma_transcript_run_actions(ctx, transcript, Some(None), send_ok, deleted);
    lemma_tldr_empty_content();
}

/// Two pipelines over the same message draw their own unique ids; as long
/// as those differ, the temp paths differ too, so the runs never touch the
/// same file.
pub proof fn lemma_independent_temp_files(temp_root: Seq<char>, id1: Seq<char>, id2: Seq<char>)
    requires
        id1 != id2,
    ensures
        spec_temp_path(temp_root, spec_temp_filename(id1)) != spec_temp_path(
            temp_root,
            spec_temp_filename(id2),
        ),
{
    lemma_wrap_injective(temp_root + "/"@, id1, id2, ".ogg"@);
}

/// Deletion failure is harmless: from the releasing state the machine
/// reaches the same final state whether or not the file could be deleted,
/// and emits no further action either way.
pub proof fn lemma_deletion_failure_harmless(outcome: Outcome, deleted: bool)
    ensures
        (spec_step(StateV::Releasing { outcome }, EventV::ReleaseDone { deleted }) == spec_step(
            StateV::Releasing { outcome },
            EventV::ReleaseDone { deleted: true },
        )),
        (spec_step(StateV::Releasing { outcome }, EventV::ReleaseDone { deleted }).0
            == StateV::Done { outcome }),
        (spec_step(StateV::Releasing { outcome }, EventV::ReleaseDone { deleted }).1 is None),
{
}

} // verus!
