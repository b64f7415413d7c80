//! Requests to OpenAI-compatible endpoints: which addresses are accepted, where a request goes,
//! which prompt is sent, and what a reply becomes.
use vstd::prelude::*;

use crate::text::{
    concat2, has_prefix, replace_all, replace_str, starts_with, trim, trim_end_char,
    trim_end_matches_char, trim_str,
};

verus! {

/// Error returned for an address that is not `http://` or `https://`.
pub const INVALID_URL_MESSAGE: &'static str =
    "Invalid API URL: only http:// and https:// are allowed";

/// Whether an address uses `http://` or `https://`.
pub open spec fn spec_allowed_scheme(url: Seq<char>) -> bool {
    has_prefix(url, "http://"@) || has_prefix(url, "https://"@)
}

/// Whether an address uses `http://` or `https://`.
pub fn has_allowed_scheme(url: &str) -> (r: bool)
    ensures
        r == spec_allowed_scheme(url@),
{
    starts_with(url, "http://") || starts_with(url, "https://")
}

/// Accepts only `http://` and `https://` addresses (no `file://`, `ftp://`, ...).
pub fn validate_base_url(base_url: &str) -> (r: Result<(), String>)
    ensures
        r is Ok <==> spec_allowed_scheme(base_url@),
        r matches Err(e) ==> e@ == INVALID_URL_MESSAGE@,
{
    if !has_allowed_scheme(base_url) {
        Err(String::from_str(INVALID_URL_MESSAGE))
    } else {
        Ok(())
    }
}

/// Every `http://` or `https://` address is accepted, whatever follows the scheme (a remote
/// plain-HTTP host included, which is only worth a warning), and every other address is refused.
pub proof fn lemma_http_addresses_accepted(rest: Seq<char>, url: Seq<char>)
    ensures
        spec_allowed_scheme("http://"@ + rest),
        spec_allowed_scheme("https://"@ + rest),
        spec_unencrypted_remote(url) ==> spec_allowed_scheme(url),
        !has_prefix(url, "http://"@) && !has_prefix(url, "https://"@) ==> !spec_allowed_scheme(url),
{
    assert(("http://"@ + rest).subrange(0, "http://"@.len() as int) =~= "http://"@);
    assert(("https://"@ + rest).subrange(0, "https://"@.len() as int) =~= "https://"@);
}

/// Whether an address is unencrypted HTTP to a host other than this machine.
pub open spec fn spec_unencrypted_remote(url: Seq<char>) -> bool {
    &&& has_prefix(url, "http://"@)
    &&& !has_prefix(url, "http://localhost"@)
    &&& !has_prefix(url, "http://127.0.0.1"@)
    &&& !has_prefix(url, "http://[::1]"@)
}

/// Whether an address is unencrypted HTTP to a host other than this machine (worth a warning).
pub fn is_unencrypted_remote(url: &str) -> (r: bool)
    ensures
        r == spec_unencrypted_remote(url@),
{
    starts_with(url, "http://") && !starts_with(url, "http://localhost") && !starts_with(
        url,
        "http://127.0.0.1",
    ) && !starts_with(url, "http://[::1]")
}

/// The address of an endpoint below a base address, however many slashes the base ends with.
pub open spec fn spec_endpoint_url(base_url: Seq<char>, path: Seq<char>) -> Seq<char> {
    trim_end_char(base_url, '/') + path
}

/// The address of an endpoint below a base address.
pub fn endpoint_url(base_url: &str, path: &str) -> (r: String)
    ensures
        r@ == spec_endpoint_url(base_url@, path@),
{
    concat2(trim_end_matches_char(base_url, '/'), path)
}

/// The transcription endpoint below a base address.
pub fn transcription_url(base_url: &str) -> (r: String)
    ensures
        r@ == spec_endpoint_url(base_url@, "/audio/transcriptions"@),
{
    endpoint_url(base_url, "/audio/transcriptions")
}

/// The chat endpoint below a base address.
pub fn chat_completions_url(base_url: &str) -> (r: String)
    ensures
        r@ == spec_endpoint_url(base_url@, "/chat/completions"@),
{
    endpoint_url(base_url, "/chat/completions")
}

/// Language asked of the transcription endpoint.
pub const TRANSCRIPTION_LANGUAGE: &'static str = "ru";

/// Prompt sent with each transcription: the technical terms to expect.
pub const TRANSCRIPTION_PROMPT: &'static str = "Технические термины: сервисы, workflow, commit, deploy, Django, Celery, pgvector, ЕСЕПШІ, ComfyUI, RTX, инференс, транскрипция, API, GPU, VRAM, СВ-95, СВ-110, ПК-плиты, БСУ, ГОСТ.";

/// The system prompt used when no prompt file with text in it is found.
pub const DEFAULT_SYSTEM_PROMPT: &'static str = "You are an editor of spoken thoughts. Convert the raw voice transcript into clear written text.
Reply in the SAME language as the input. Preserve meaning exactly; do NOT add facts.
Remove filler, false starts, repetitions; fix word order and obvious errors.
Keep all names, numbers and technical terms. If style is '{style}' and it's a task/list,
organize into clear points; otherwise one clear paragraph. Output ONLY the final text.";

/// The prompt template: the prompt file's text if it could be read and holds more than
/// whitespace, else the built-in prompt.
pub open spec fn spec_prompt_template(file_text: Option<String>) -> Seq<char> {
    match file_text {
        Some(t) => if trim(t@).len() > 0 {
            t@
        } else {
            DEFAULT_SYSTEM_PROMPT@
        },
        None => DEFAULT_SYSTEM_PROMPT@,
    }
}

/// The prompt template, given the prompt file's text if it could be read.
pub fn prompt_template(file_text: Option<String>) -> (r: String)
    ensures
        r@ == spec_prompt_template(file_text),
{
    match file_text {
        Some(t) => {
            if !trim_str(t.as_str()).is_empty() {
                t
            } else {
                String::from_str(DEFAULT_SYSTEM_PROMPT)
            }
        },
        None => String::from_str(DEFAULT_SYSTEM_PROMPT),
    }
}

/// The system prompt: the template with every `{style}` replaced by the style.
pub fn system_prompt(template: &str, style: &str) -> (r: String)
    ensures
        r@ == replace_all(template@, "{style}"@, style@),
{
    proof {
        reveal_strlit("{style}");
    }
    replace_str(template, "{style}", style)
}

/// The error for a reply whose status is not a success.
pub fn api_error_message(status: &str, body: &str) -> (r: String)
    ensures
        r@ == "API error "@ + status@ + ": "@ + body@,
{
    let mut r = concat2("API error ", status);
    r.append(": ");
    r.append(body);
    r
}

/// The transcription carried by a reply: its `text` field, or an error quoting the reply.
pub fn transcription_reply(text_field: Option<String>, reply: &str) -> (r: Result<String, String>)
    ensures
        match text_field {
            Some(t) => r matches Ok(s) && s@ == t@,
            None => r matches Err(e) && e@ == "No 'text' field in response: "@ + reply@,
        },
{
    match text_field {
        Some(t) => Ok(t),
        None => Err(concat2("No 'text' field in response: ", reply)),
    }
}

/// The edited text carried by a chat reply: its first choice's message content, or an error
/// quoting the reply.
pub fn chat_reply(content_field: Option<String>, reply: &str) -> (r: Result<String, String>)
    ensures
        match content_field {
            Some(t) => r matches Ok(s) && s@ == t@,
            None => r matches Err(e) && e@ == "No choices[0].message.content field in response: "@
                + reply@,
        },
{
    match content_field {
        Some(t) => Ok(t),
        None => Err(concat2("No choices[0].message.content field in response: ", reply)),
    }
}

} // verus!
