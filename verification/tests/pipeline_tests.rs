use audio_tldr::identity::ForwardOrigin;
use audio_tldr::pipeline::Action;
use audio_tldr::pipeline::AttachmentKind;
use audio_tldr::pipeline::Event;
use audio_tldr::pipeline::Incoming;
use audio_tldr::pipeline::MediaMessage;
use audio_tldr::pipeline::Outcome;
use audio_tldr::pipeline::State;
use audio_tldr::pipeline::into_absent;
use audio_tldr::pipeline::start;
use audio_tldr::pipeline::start_message;
use audio_tldr::pipeline::step;

fn voice_message() -> Incoming {
    Incoming::Media(MediaMessage {
        kind: AttachmentKind::Voice,
        chat_id: 77,
        file_id: String::from("file-123"),
        sender_username: Some(String::from("anna")),
        forward: None,
    })
}

fn audio_message() -> Incoming {
    Incoming::Media(MediaMessage {
        kind: AttachmentKind::Audio,
        chat_id: 78,
        file_id: String::from("file-456"),
        sender_username: None,
        forward: Some(ForwardOrigin::SenderName { name: String::from("Ben") }),
    })
}

/// Drives the machine from `state` over `events`, collecting every action.
fn drive(mut state: State, first: Option<Action>, events: Vec<Event>) -> (State, Vec<Action>) {
    let mut actions = Vec::new();
    if let Some(a) = first {
        actions.push(a);
    }
    for event in events {
        let (next, action) = step(state, event);
        state = next;
        if let Some(a) = action {
            actions.push(a);
        }
    }
    (state, actions)
}

#[test]
fn non_media_message_is_ignored() {
    let (state, action) = start(Incoming::Other, "/tmp/audio-tldr", "id-1");
    assert!(action.is_none());
    assert!(matches!(state, State::Done { outcome: Outcome::Completed }));
}

#[test]
fn start_asks_for_download_into_temp_path() {
    let (state, action) = start(voice_message(), "/tmp/audio-tldr", "id-1");
    match &action {
        Some(Action::Fetch { file_id, path }) => {
            assert_eq!(file_id, "file-123");
            assert_eq!(path, "/tmp/audio-tldr/id-1.ogg");
        },
        other => panic!("expected a fetch action, got {other:?}"),
    }
    match &state {
        State::Fetching { ctx } => {
            assert_eq!(ctx.chat_id, 77);
            assert_eq!(ctx.file.path(), "/tmp/audio-tldr/id-1.ogg");
            assert_eq!(ctx.identity, "anna");
        },
        _ => panic!("expected the fetching state"),
    }
}

#[test]
fn happy_path_sends_transcript_then_summary() {
    let (state, first) = start(voice_message(), "/tmp/audio-tldr", "id-1");
    let (state, actions) = drive(
        state,
        first,
        vec![
            Event::FetchDone { ok: true },
            Event::TranscriptionDone { text: Some(String::from("hallo welt")) },
            Event::SendDone { ok: true },
            Event::SummaryDone { content: Some(Some(String::from("kurz"))) },
            Event::SendDone { ok: true },
            Event::ReleaseDone { deleted: true },
        ],
    );
    assert!(matches!(state, State::Done { outcome: Outcome::Completed }));
    assert_eq!(actions.len(), 6);
    assert!(matches!(&actions[0], Action::Fetch { .. }));
    match &actions[1] {
        Action::Transcribe { request } => {
            assert_eq!(request.file_path, "/tmp/audio-tldr/id-1.ogg");
            assert_eq!(request.model, "whisper-1");
        },
        other => panic!("expected a transcribe action, got {other:?}"),
    }
    match &actions[2] {
        Action::SendText { chat_id, text } => {
            assert_eq!(*chat_id, 77);
            assert_eq!(text, "hallo welt");
        },
        other => panic!("expected the transcript reply, got {other:?}"),
    }
    match &actions[3] {
        Action::Summarize { request } => {
            assert_eq!(request.model, "gpt-4");
            assert_eq!(request.turns[1].content, "hallo welt");
            assert!(request.turns[0].content.contains("anna"));
        },
        other => panic!("expected a summarize action, got {other:?}"),
    }
    match &actions[4] {
        Action::SendText { chat_id, text } => {
            assert_eq!(*chat_id, 77);
            assert_eq!(text, "TL;DR: kurz");
        },
        other => panic!("expected the summary reply, got {other:?}"),
    }
    match &actions[5] {
        Action::ReleaseFile { path } => assert_eq!(path, "/tmp/audio-tldr/id-1.ogg"),
        other => panic!("expected the release action, got {other:?}"),
    }
}

#[test]
fn failed_transcription_sends_one_fallback_and_no_summary() {
    let (state, first) = start(voice_message(), "/tmp/audio-tldr", "id-1");
    let (state, actions) = drive(
        state,
        first,
        vec![
            Event::FetchDone { ok: true },
            Event::TranscriptionDone { text: None },
            Event::SendDone { ok: true },
            Event::ReleaseDone { deleted: true },
        ],
    );
    assert!(matches!(state, State::Done { outcome: Outcome::Completed }));
    let sends: Vec<&Action> = actions
        .iter()
        .filter(|a| matches!(a, Action::SendText { .. }))
        .collect();
    assert_eq!(sends.len(), 1);
    match sends[0] {
        Action::SendText { text, .. } => assert_eq!(text, "No transcription available"),
        _ => unreachable!(),
    }
    assert!(!actions.iter().any(|a| matches!(a, Action::Summarize { .. })));
    let releases = actions
        .iter()
        .filter(|a| matches!(a, Action::ReleaseFile { .. }))
        .count();
    assert_eq!(releases, 1);
}

#[test]
fn failed_summary_sends_transcript_then_fixed_fallback() {
    let (state, first) = start(audio_message(), "/tmp/audio-tldr", "id-2");
    let (state, actions) = drive(
        state,
        first,
        vec![
            Event::FetchDone { ok: true },
            Event::TranscriptionDone { text: Some(String::from("hallo")) },
            Event::SendDone { ok: true },
            Event::SummaryDone { content: None },
            Event::SendDone { ok: true },
            Event::ReleaseDone { deleted: true },
        ],
    );
    assert!(matches!(state, State::Done { outcome: Outcome::Completed }));
    let sends: Vec<&Action> = actions
        .iter()
        .filter(|a| matches!(a, Action::SendText { .. }))
        .collect();
    assert_eq!(sends.len(), 2);
    match sends[0] {
        Action::SendText { chat_id, text } => {
            assert_eq!(*chat_id, 78);
            assert_eq!(text, "hallo");
        },
        _ => unreachable!(),
    }
    match sends[1] {
        Action::SendText { text, .. } => assert_eq!(text, "no response"),
        _ => unreachable!(),
    }
}

#[test]
fn empty_summary_content_replies_fixed_tldr_text() {
    let (state, first) = start(voice_message(), "/tmp/audio-tldr", "id-3");
    let (state, actions) = drive(
        state,
        first,
        vec![
            Event::FetchDone { ok: true },
            Event::TranscriptionDone { text: Some(String::from("hallo")) },
            Event::SendDone { ok: true },
            Event::SummaryDone { content: Some(None) },
            Event::SendDone { ok: true },
            Event::ReleaseDone { deleted: true },
        ],
    );
    assert!(matches!(state, State::Done { outcome: Outcome::Completed }));
    match actions.last() {
        Some(Action::ReleaseFile { .. }) => {},
        other => panic!("expected the release action last, got {other:?}"),
    }
    match &actions[actions.len() - 2] {
        Action::SendText { text, .. } => assert_eq!(text, "TL;DR: no response"),
        other => panic!("expected the summary reply, got {other:?}"),
    }
}

#[test]
fn failed_fetch_aborts_but_still_releases() {
    let (state, first) = start(voice_message(), "/tmp/audio-tldr", "id-4");
    let (state, actions) = drive(
        state,
        first,
        vec![Event::FetchDone { ok: false }, Event::ReleaseDone { deleted: true }],
    );
    assert!(matches!(state, State::Done { outcome: Outcome::TransportFailed }));
    assert!(!actions.iter().any(|a| matches!(a, Action::SendText { .. })));
    let releases = actions
        .iter()
        .filter(|a| matches!(a, Action::ReleaseFile { .. }))
        .count();
    assert_eq!(releases, 1);
}

#[test]
fn failed_deletion_still_completes_without_user_visible_error() {
    let (state, first) = start(voice_message(), "/tmp/audio-tldr", "id-5");
    let (state, actions) = drive(
        state,
        first,
        vec![
            Event::FetchDone { ok: true },
            Event::TranscriptionDone { text: None },
            Event::SendDone { ok: true },
            Event::ReleaseDone { deleted: false },
        ],
    );
    assert!(matches!(state, State::Done { outcome: Outcome::Completed }));
    let sends = actions
        .iter()
        .filter(|a| matches!(a, Action::SendText { .. }))
        .count();
    assert_eq!(sends, 1);
}

#[test]
fn two_runs_use_distinct_temp_files() {
    let (_, first_action) = start_message(voice_message(), "/tmp/audio-tldr");
    let (_, second_action) = start_message(voice_message(), "/tmp/audio-tldr");
    let first_path = match first_action {
        Some(Action::Fetch { path, .. }) => path,
        other => panic!("expected a fetch action, got {other:?}"),
    };
    let second_path = match second_action {
        Some(Action::Fetch { path, .. }) => path,
        other => panic!("expected a fetch action, got {other:?}"),
    };
    assert_ne!(first_path, second_path);
    // "/tmp/audio-tldr/" plus a 36-character id plus ".ogg"
    assert_eq!(first_path.chars().count(), "/tmp/audio-tldr/".len() + 36 + ".ogg".len());
    assert!(first_path.starts_with("/tmp/audio-tldr/"));
    assert!(first_path.ends_with(".ogg"));
}

#[test]
fn into_absent_keeps_success_and_erases_failure() {
    let ok: Result<u32, String> = Ok(5);
    let err: Result<u32, String> = Err(String::from("quota"));
    assert_eq!(into_absent(ok), Some(5));
    assert_eq!(into_absent(err), None);
}
