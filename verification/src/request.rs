//! The fixed request shapes sent to the two remote services, and the reply
//! texts derived from their answers. Both calls use one configuration per
//! service; only the audio path, the transcript and the resolved display
//! name vary from message to message.

use vstd::prelude::*;

verus! {

/// How the speech-to-text service should shape its response.
#[derive(Clone, Copy, PartialEq, Eq, Structural, Debug)]
pub enum TranscriptionFormat {
    /// Structured JSON carrying at least a `text` field.
    Json,
}

/// One transcription call: fixed whisper-class model, JSON response,
/// deterministic sampling and a fixed source-language hint; the audio
/// file's path is the only variable part.
#[derive(Debug)]
pub struct TranscriptionRequest {
    pub file_path: String,
    pub model: String,
    pub response_format: TranscriptionFormat,
    /// Sampling temperature in hundredths; zero asks for determinism.
    pub temperature_hundredths: u32,
    pub language: String,
}

#[verifier::ext_equal]
pub ghost struct TranscriptionRequestV {
    pub file_path: Seq<char>,
    pub model: Seq<char>,
    pub response_format: TranscriptionFormat,
    pub temperature_hundredths: u32,
    pub language: Seq<char>,
}

impl View for TranscriptionRequest {
    type V = TranscriptionRequestV;

    open spec fn view(&self) -> TranscriptionRequestV {
        TranscriptionRequestV {
            file_path: self.file_path@,
            model: self.model@,
            response_format: self.response_format,
            temperature_hundredths: self.temperature_hundredths,
            language: self.language@,
        }
    }
}

/// The one transcription request shape the pipeline ever sends for a file
/// at `file_path`.
pub open spec fn spec_transcription_request(file_path: Seq<char>) -> TranscriptionRequestV {
    TranscriptionRequestV {
        file_path,
        model: "whisper-1"@,
        response_format: TranscriptionFormat::Json,
        temperature_hundredths: 0,
        language: "de"@,
    }
}

/// Builds the transcription request for the downloaded audio file.
pub fn build_transcription_request(file_path: String) -> (req: TranscriptionRequest)
    ensures
        req@ == spec_transcription_request(file_path@),
{
    TranscriptionRequest {
        file_path,
        model: String::from_str("whisper-1"),
        response_format: TranscriptionFormat::Json,
        temperature_hundredths: 0,
        language: String::from_str("de"),
    }
}

/// Who speaks a prompt turn.
#[derive(Clone, Copy, PartialEq, Eq, Structural, Debug)]
pub enum TurnRole {
    System,
    User,
}

/// One prompt turn of the completion request.
#[derive(Debug)]
pub struct ChatTurn {
    pub role: TurnRole,
    pub content: String,
}

#[verifier::ext_equal]
pub ghost struct ChatTurnV {
    pub role: TurnRole,
    pub content: Seq<char>,
}

impl View for ChatTurn {
    type V = ChatTurnV;

    open spec fn view(&self) -> ChatTurnV {
        ChatTurnV { role: self.role, content: self.content@ }
    }
}

/// One summary call: fixed GPT-4-class model, exactly two prompt turns,
/// exactly one completion choice requested.
#[derive(Debug)]
pub struct SummaryRequest {
    pub model: String,
    pub turns: Vec<ChatTurn>,
    pub n_choices: u32,
}

#[verifier::ext_equal]
pub ghost struct SummaryRequestV {
    pub model: Seq<char>,
    pub turns: Seq<ChatTurnV>,
    pub n_choices: u32,
}

impl View for SummaryRequest {
    type V = SummaryRequestV;

    open spec fn view(&self) -> SummaryRequestV {
        SummaryRequestV {
            model: self.model@,
            turns: self.turns@.map_values(|t: ChatTurn| t@),
            n_choices: self.n_choices,
        }
    }
}

/// The system instruction, personalized with the resolved display name:
/// ask for a prefix-free TL;DR of a transcribed voice message from that
/// person, self-correcting transcription errors.
pub open spec fn spec_system_prompt(username: Seq<char>) -> Seq<char> {
    "Generiere ein TL;DR der folgenden Nachricht ohne 'TL;DR' prefix. Die Nachricht is eine transkribierte Sprachnachricht von einer Person namens "@
        + username
        + " welche in einem Chat geschickt wurde. Die Transkribtion kann fehlerhaft gewesen sein, korrigiere mögliche Fehler eigenständig"@
}

/// The one summary request shape the pipeline ever sends: the personalized
/// system turn, then the transcript verbatim as the user turn.
pub open spec fn spec_summary_request(transcript: Seq<char>, username: Seq<char>) -> SummaryRequestV {
    SummaryRequestV {
        model: "gpt-4"@,
        turns: seq![
            ChatTurnV { role: TurnRole::System, content: spec_system_prompt(username) },
            ChatTurnV { role: TurnRole::User, content: transcript },
        ],
        n_choices: 1,
    }
}

/// Builds the summary request for a transcript and a resolved display name.
pub fn build_summary_request(transcript: String, username: &str) -> (req: SummaryRequest)
    ensures
        req@ == spec_summary_request(transcript@, username@),
{
    let mut prompt = String::from_str(
        "Generiere ein TL;DR der folgenden Nachricht ohne 'TL;DR' prefix. Die Nachricht is eine transkribierte Sprachnachricht von einer Person namens ",
    );
    prompt.append(username);
    prompt.append(
        " welche in einem Chat geschickt wurde. Die Transkribtion kann fehlerhaft gewesen sein, korrigiere mögliche Fehler eigenständig",
    );
    let mut turns: Vec<ChatTurn> = Vec::new();
    turns.push(ChatTurn { role: TurnRole::System, content: prompt });
    turns.push(ChatTurn { role: TurnRole::User, content: transcript });
    let req = SummaryRequest { model: String::from_str("gpt-4"), turns, n_choices: 1 };
    proof {
        assert(req@.turns =~= spec_summary_request(transcript@, username@).turns);
        assert(req@ =~= spec_summary_request(transcript@, username@));
    }
    req
}

/// The reply sent after a summary call that succeeded: the fixed prefix,
/// then the first choice's content, or the fixed fallback text when the
/// choice carried no content.
pub open spec fn spec_tldr_reply(content: Option<Seq<char>>) -> Seq<char> {
    "TL;DR: "@ + match content {
        Some(c) => c,
        None => "no response"@,
    }
}

/// The view of an optional owned text.
pub open spec fn opt_text_view(text: Option<String>) -> Option<Seq<char>> {
    match text {
        Some(t) => Some(t@),
        None => None,
    }
}

/// Formats the summary reply from the first choice's optional content.
pub fn format_tldr_reply(content: Option<String>) -> (reply: String)
    ensures
        reply@ == spec_tldr_reply(opt_text_view(content)),
{
    let mut reply = String::from_str("TL;DR: ");
    match content {
        Some(c) => reply.append(c.as_str()),
        None => reply.append("no response"),
    }
    reply
}

/// An empty completion choice falls back to the fixed text: the reply then
/// reads exactly `TL;DR: no response`.
pub proof fn lemma_tldr_empty_content()
    ensures
        spec_tldr_reply(None) == "TL;DR: no response"@,
{
    reveal_strlit("TL;DR: ");
    reveal_strlit("no response");
    reveal_strlit("TL;DR: no response");
    assert(spec_tldr_reply(None) =~= "TL;DR: no response"@);
}

} // verus!
