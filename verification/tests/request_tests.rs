use audio_tldr::request::TranscriptionFormat;
use audio_tldr::request::TurnRole;
use audio_tldr::request::build_summary_request;
use audio_tldr::request::build_transcription_request;
use audio_tldr::request::format_tldr_reply;
use audio_tldr::tmp::TempFile;

#[test]
fn transcription_request_has_fixed_configuration() {
    let req = build_transcription_request(String::from("/tmp/audio-tldr/a.ogg"));
    assert_eq!(req.file_path, "/tmp/audio-tldr/a.ogg");
    assert_eq!(req.model, "whisper-1");
    assert_eq!(req.response_format, TranscriptionFormat::Json);
    assert_eq!(req.temperature_hundredths, 0);
    assert_eq!(req.language, "de");
}

#[test]
fn summary_request_has_two_turns_and_one_choice() {
    let req = build_summary_request(String::from("hallo welt"), "Anna");
    assert_eq!(req.model, "gpt-4");
    assert_eq!(req.n_choices, 1);
    assert_eq!(req.turns.len(), 2);
    assert_eq!(req.turns[0].role, TurnRole::System);
    assert_eq!(
        req.turns[0].content,
        "Generiere ein TL;DR der folgenden Nachricht ohne 'TL;DR' prefix. Die Nachricht is \
         eine transkribierte Sprachnachricht von einer Person namens Anna welche in einem \
         Chat geschickt wurde. Die Transkribtion kann fehlerhaft gewesen sein, korrigiere \
         mögliche Fehler eigenständig"
    );
    assert_eq!(req.turns[1].role, TurnRole::User);
    assert_eq!(req.turns[1].content, "hallo welt");
}

#[test]
fn tldr_reply_prefixes_content() {
    let reply = format_tldr_reply(Some(String::from("kurz und gut")));
    assert_eq!(reply, "TL;DR: kurz und gut");
}

#[test]
fn tldr_reply_on_empty_content_is_fixed_text() {
    let reply = format_tldr_reply(None);
    assert_eq!(reply, "TL;DR: no response");
}

#[test]
fn temp_file_joins_root_and_filename() {
    let handle = TempFile::new("/tmp/audio-tldr", "a.ogg");
    assert_eq!(handle.path(), "/tmp/audio-tldr/a.ogg");
    assert_eq!(handle.into_path(), "/tmp/audio-tldr/a.ogg");
}

#[test]
fn temp_files_with_distinct_names_have_distinct_paths() {
    let first = TempFile::new("/tmp/audio-tldr", "a.ogg");
    let second = TempFile::new("/tmp/audio-tldr", "b.ogg");
    assert_ne!(first.path(), second.path());
}
