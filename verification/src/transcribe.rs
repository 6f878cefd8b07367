//! The decisions of the media transcription tool: which requests are
//! refused before anything is sent, what is sent, and what the answer of
//! the service means.

use vstd::prelude::*;
use crate::paths::{PathParts, PathView};
use crate::text::{
    chars_of, decimal, push_chars, push_decimal, push_str, string_from_chars, trim, trimmed,
};

verus! {

/// The tool that has a media file transcribed.
#[derive(Clone, Copy, Debug, PartialEq, Eq, Structural)]
pub struct TranscribeMediaHandler;

/// The model that transcribes where the request names none.
pub const DEFAULT_TRANSCRIPTION_MODEL: &'static str = "gpt-4o-mini-transcribe";

/// The largest media file that is sent, in bytes: 100 MiB.
pub const MAX_MEDIA_BYTES: u64 = 104857600;

/// The longest text of an error that is passed on, in bytes and, once cut,
/// in characters.
pub const MAX_ERROR_CHARS: u64 = 400;

/// The name under which a file is uploaded: its last name, `media` where
/// it has none, where that is empty, and where the path ends in `..`.
pub open spec fn upload_name(path: PathView) -> Seq<char> {
    if path.names.len() > 0 && path.names.last() != ".."@ && path.names.last().len() > 0 {
        path.names.last()
    } else {
        "media"@
    }
}

/// Names a file for its upload.
pub fn file_name_for_upload(path: &PathParts) -> (name: String)
    ensures
        name@ == upload_name(path@),
{
    let count = path.names.len();
    if count == 0 {
        return "media".to_owned();
    }
    let last = &path.names[count - 1];
    let dots = "..".to_owned();
    if *last == dots || last.as_str().is_empty() {
        "media".to_owned()
    } else {
        last.clone()
    }
}

/// The bytes that a character takes in UTF-8.
pub open spec fn char_utf8_len(c: char) -> nat {
    let n = c as u32;
    if n < 0x80 {
        1
    } else if n < 0x800 {
        2
    } else if n < 0x10000 {
        3
    } else {
        4
    }
}

/// The bytes that a text takes in UTF-8.
pub open spec fn utf8_len(s: Seq<char>) -> nat
    decreases s.len(),
{
    if s.len() == 0 {
        0
    } else {
        utf8_len(s.drop_last()) + char_utf8_len(s.last())
    }
}

proof fn lemma_utf8_len_grows(s: Seq<char>, n: int)
    requires
        0 <= n <= s.len(),
    ensures
        utf8_len(s.take(n)) <= utf8_len(s),
    decreases s.len(),
{
    if n < s.len() {
        assert(s.drop_last().take(n) == s.take(n));
        lemma_utf8_len_grows(s.drop_last(), n);
    } else {
        assert(s.take(n) == s);
    }
}

fn utf8_len_exceeds(s: &Vec<char>, limit: u64) -> (exceeds: bool)
    requires
        limit < 0xffff_ffff,
    ensures
        exceeds == (utf8_len(s@) > limit),
{
    let mut total: u64 = 0;
    let mut i: usize = 0;
    while i < s.len()
        invariant
            i <= s.len(),
            total == utf8_len(s@.take(i as int)),
            total <= limit < 0xffff_ffff,
        decreases s.len() - i,
    {
        let n: u32 = s[i] as u32;
        let width: u64 = if n < 0x80 {
            1
        } else if n < 0x800 {
            2
        } else if n < 0x10000 {
            3
        } else {
            4
        };
        assert(s@.take(i + 1).drop_last() == s@.take(i as int));
        total = total + width;
        i += 1;
        if total > limit {
            proof {
                lemma_utf8_len_grows(s@, i as int);
            }
            return true;
        }
    }
    assert(s@.take(s@.len() as int) == s@);
    false
}

/// The text of an error as it is passed on: the trimmed body where that
/// takes no more than 400 bytes, else its first 397 characters and `...`.
pub open spec fn error_summary(body: Seq<char>) -> Seq<char> {
    let text = trimmed(body);
    if utf8_len(text) <= MAX_ERROR_CHARS {
        text
    } else if text.len() <= MAX_ERROR_CHARS - 3 {
        text + "..."@
    } else {
        text.take(MAX_ERROR_CHARS - 3) + "..."@
    }
}

fn push_error_summary(out: &mut Vec<char>, body: &str)
    ensures
        final(out)@ == old(out)@ + error_summary(body@),
{
    let text = trim(&chars_of(body));
    if !utf8_len_exceeds(&text, MAX_ERROR_CHARS) {
        push_chars(out, &text);
    } else {
        let keep: usize = if text.len() <= 397 {
            text.len()
        } else {
            397
        };
        let mut i: usize = 0;
        while i < keep
            invariant
                i <= keep <= text.len(),
                out@ == old(out)@ + text@.take(i as int),
            decreases keep - i,
        {
            out.push(text[i]);
            assert(text@.take(i + 1) == text@.take(i as int).push(text@[i as int]));
            i += 1;
        }
        assert(text@.len() <= 397 ==> text@.take(keep as int) == text@);
        push_str(out, "...");
    }
}

/// Shortens the body of a failed answer to what is passed on.
pub fn summarize_error_body(body: &str) -> (summary: String)
    ensures
        summary@ == error_summary(body@),
{
    let mut out: Vec<char> = Vec::new();
    push_error_summary(&mut out, body);
    string_from_chars(&out)
}

/// What is known of the file at the path of a request.
#[derive(Clone, Copy, Debug, PartialEq, Eq, Structural)]
pub struct MediaFileFacts {
    /// Whether the path leads to a regular file.
    pub is_file: bool,
    /// The length of the file in bytes.
    pub len: u64,
}

/// Why a path is refused before anything is read: it is blank.
pub open spec fn path_refusal(path: Seq<char>) -> Option<Seq<char>> {
    if trimmed(path).len() == 0 {
        Some("path cannot be empty"@)
    } else {
        None
    }
}

/// Why a file is refused before it is read: it is no regular file, it is
/// empty, or it is larger than the limit. `shown` is the path as the
/// message names it.
pub open spec fn file_refusal(facts: MediaFileFacts, shown: Seq<char>) -> Option<Seq<char>> {
    if !facts.is_file {
        Some("media path `"@ + shown + "` is not a file"@)
    } else if facts.len == 0 {
        Some("media file `"@ + shown + "` is empty"@)
    } else if facts.len > MAX_MEDIA_BYTES {
        Some(
            "media file `"@ + shown + "` is too large ("@ + decimal(facts.len as nat)
                + " bytes > "@ + decimal(MAX_MEDIA_BYTES as nat) + " bytes)"@,
        )
    } else {
        None
    }
}

/// What the answer of the service means. A status that is no success is a
/// failure that names the status and the summary of the body. Else the
/// transcript is the text that the body holds as JSON, or, where the body
/// is not of that form, the trimmed body itself; an empty transcript is a
/// failure.
pub open spec fn response_meaning(
    success: bool,
    status: Seq<char>,
    parsed_text: Option<Seq<char>>,
    body: Seq<char>,
) -> Result<Seq<char>, Seq<char>> {
    if !success {
        Err("transcription request failed ("@ + status + "): "@ + error_summary(body))
    } else {
        let transcript = match parsed_text {
            Some(text) => text,
            None => trimmed(body),
        };
        if transcript.len() == 0 {
            Err("transcription response did not contain text"@)
        } else {
            Ok(transcript)
        }
    }
}

/// A step of the tool that the machine or the network let down.
#[derive(Clone, Copy, Debug, PartialEq, Eq, Structural)]
pub enum Mishap {
    /// The file could not be found or looked at.
    Locate,
    /// The file could not be read.
    Read,
    /// The request could not be sent.
    Request,
    /// The answer could not be read.
    Answer,
}

/// What is told of a mishap. `shown` is the path as the message names it,
/// `error` what the machine or the network said.
pub open spec fn mishap_message(mishap: Mishap, shown: Seq<char>, error: Seq<char>) -> Seq<char> {
    match mishap {
        Mishap::Locate => "unable to locate media file at `"@ + shown + "`: "@ + error,
        Mishap::Read => "failed to read media file `"@ + shown + "`: "@ + error,
        Mishap::Request => "failed to request transcription: "@ + error,
        Mishap::Answer => "failed to read transcription response: "@ + error,
    }
}

/// The text fields of the upload form, in the order in which they are
/// added: the model, the response format, and language, prompt and
/// temperature where the request gives them.
pub open spec fn form_fields(
    model: Option<Seq<char>>,
    language: Option<Seq<char>>,
    prompt: Option<Seq<char>>,
    temperature: Option<Seq<char>>,
) -> Seq<(Seq<char>, Seq<char>)> {
    seq![
        (
            "model"@,
            match model {
                Some(m) => m,
                None => DEFAULT_TRANSCRIPTION_MODEL@,
            },
        ),
        ("response_format"@, "json"@),
    ] + (match language {
        Some(l) => seq![("language"@, l)],
        None => Seq::empty(),
    }) + (match prompt {
        Some(p) => seq![("prompt"@, p)],
        None => Seq::empty(),
    }) + (match temperature {
        Some(t) => seq![("temperature"@, t)],
        None => Seq::empty(),
    })
}

/// The names and values of a list of form fields.
pub open spec fn field_views(fields: Seq<(String, String)>) -> Seq<(Seq<char>, Seq<char>)> {
    Seq::new(fields.len(), |i: int| (fields[i].0@, fields[i].1@))
}

/// The view of a text that may be missing.
pub open spec fn text_view(text: Option<String>) -> Option<Seq<char>> {
    match text {
        Some(t) => Some(t@),
        None => None,
    }
}

fn push_form_field(fields: &mut Vec<(String, String)>, name: &str, value: &Option<String>)
    ensures
        field_views(final(fields)@) == field_views(old(fields)@) + (match *value {
            Some(v) => seq![(name@, v@)],
            None => Seq::empty(),
        }),
{
    let ghost before = field_views(fields@);
    match value {
        Some(v) => {
            fields.push((name.to_owned(), v.clone()));
            assert(field_views(fields@) =~= before.push((name@, v@)));
        },
        None => {
            assert(field_views(fields@) =~= before);
        },
    }
}

impl TranscribeMediaHandler {
    /// Checks the path of a request before anything is read.
    pub fn check_path(&self, path: &str) -> (checked: Result<(), String>)
        ensures
            match checked {
                Ok(_) => path_refusal(path@) is None,
                Err(message) => path_refusal(path@) == Some(message@),
            },
    {
        if trim(&chars_of(path)).len() == 0 {
            Err("path cannot be empty".to_owned())
        } else {
            Ok(())
        }
    }

    /// Checks the file of a request before it is read.
    pub fn check_file(&self, facts: MediaFileFacts, shown: &str) -> (checked: Result<(), String>)
        ensures
            match checked {
                Ok(_) => file_refusal(facts, shown@) is None,
                Err(message) => file_refusal(facts, shown@) == Some(message@),
            },
    {
        let mut out: Vec<char> = Vec::new();
        if !facts.is_file {
            push_str(&mut out, "media path `");
            push_str(&mut out, shown);
            push_str(&mut out, "` is not a file");
            Err(string_from_chars(&out))
        } else if facts.len == 0 {
            push_str(&mut out, "media file `");
            push_str(&mut out, shown);
            push_str(&mut out, "` is empty");
            Err(string_from_chars(&out))
        } else if facts.len > MAX_MEDIA_BYTES {
            push_str(&mut out, "media file `");
            push_str(&mut out, shown);
            push_str(&mut out, "` is too large (");
            push_decimal(&mut out, facts.len);
            push_str(&mut out, " bytes > ");
            push_decimal(&mut out, MAX_MEDIA_BYTES);
            push_str(&mut out, " bytes)");
            Err(string_from_chars(&out))
        } else {
            Ok(())
        }
    }

    /// Takes the arguments out of a request; a request of another kind
    /// than a function call brings none and is refused.
    pub fn function_arguments(&self, arguments: Option<String>) -> (taken: Result<String, String>)
        ensures
            match taken {
                Ok(text) => arguments == Some(text),
                Err(message) => arguments is None
                    && message@ == "transcribe_media handler received unsupported payload"@,
            },
    {
        match arguments {
            Some(text) => Ok(text),
            None => Err("transcribe_media handler received unsupported payload".to_owned()),
        }
    }

    /// Takes the token without which nothing is sent.
    pub fn bearer_token(&self, token: Option<String>) -> (taken: Result<String, String>)
        ensures
            match taken {
                Ok(text) => token == Some(text),
                Err(message) => token is None
                    && message@ == "transcribe_media requires an authenticated provider token"@,
            },
    {
        match token {
            Some(text) => Ok(text),
            None => Err("transcribe_media requires an authenticated provider token".to_owned()),
        }
    }

    /// Words the message of a mishap.
    pub fn describe_mishap(&self, mishap: Mishap, shown: &str, error: &str) -> (message: String)
        ensures
            message@ == mishap_message(mishap, shown@, error@),
    {
        let mut out: Vec<char> = Vec::new();
        match mishap {
            Mishap::Locate => {
                push_str(&mut out, "unable to locate media file at `");
                push_str(&mut out, shown);
                push_str(&mut out, "`: ");
            },
            Mishap::Read => {
                push_str(&mut out, "failed to read media file `");
                push_str(&mut out, shown);
                push_str(&mut out, "`: ");
            },
            Mishap::Request => {
                push_str(&mut out, "failed to request transcription: ");
            },
            Mishap::Answer => {
                push_str(&mut out, "failed to read transcription response: ");
            },
        }
        push_str(&mut out, error);
        string_from_chars(&out)
    }

    /// Lists the text fields of the upload form.
    pub fn form_text_fields(
        &self,
        model: Option<String>,
        language: Option<String>,
        prompt: Option<String>,
        temperature: Option<String>,
    ) -> (fields: Vec<(String, String)>)
        ensures
            field_views(fields@) == form_fields(
                text_view(model),
                text_view(language),
                text_view(prompt),
                text_view(temperature),
            ),
    {
        let mut fields: Vec<(String, String)> = Vec::new();
        let chosen = match model {
            Some(m) => m,
            None => DEFAULT_TRANSCRIPTION_MODEL.to_owned(),
        };
        fields.push(("model".to_owned(), chosen));
        fields.push(("response_format".to_owned(), "json".to_owned()));
        assert(field_views(fields@) =~= seq![
            (
                "model"@,
                match model {
                    Some(m) => m@,
                    None => DEFAULT_TRANSCRIPTION_MODEL@,
                },
            ),
            ("response_format"@, "json"@),
        ]);
        push_form_field(&mut fields, "language", &language);
        push_form_field(&mut fields, "prompt", &prompt);
        push_form_field(&mut fields, "temperature", &temperature);
        fields
    }

    /// The value of the authorization header for a token.
    pub fn authorization(&self, token: &str) -> (value: String)
        ensures
            value@ == "Bearer "@ + token@,
    {
        let mut out: Vec<char> = Vec::new();
        push_str(&mut out, "Bearer ");
        push_str(&mut out, token);
        string_from_chars(&out)
    }

    /// Reads the answer of the service. `status` is the status as the
    /// message names it, `parsed_text` the text that the body holds where
    /// it is a JSON object of that form.
    pub fn read_response(
        &self,
        success: bool,
        status: &str,
        parsed_text: Option<String>,
        body: &str,
    ) -> (outcome: Result<String, String>)
        ensures
            match outcome {
                Ok(transcript) => response_meaning(success, status@, text_view(parsed_text), body@)
                    == Ok::<Seq<char>, Seq<char>>(transcript@),
                Err(message) => response_meaning(success, status@, text_view(parsed_text), body@)
                    == Err::<Seq<char>, Seq<char>>(message@),
            },
    {
        if !success {
            let mut out: Vec<char> = Vec::new();
            push_str(&mut out, "transcription request failed (");
            push_str(&mut out, status);
            push_str(&mut out, "): ");
            push_error_summary(&mut out, body);
            return Err(string_from_chars(&out));
        }
        let transcript = match parsed_text {
            Some(text) => text,
            None => string_from_chars(&trim(&chars_of(body))),
        };
        if transcript.as_str().is_empty() {
            Err("transcription response did not contain text".to_owned())
        } else {
            Ok(transcript)
        }
    }
}

} // verus!
