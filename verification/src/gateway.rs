//! The rules of the relay in front of the inference backends: which
//! commands it runs and what it answers, which backend a request goes to,
//! what one chunk of a backend's stream means, and how one event of the
//! outgoing stream is framed. They are stated on bytes and text; reading
//! and sending is left to the caller.
//!
//! Reading a chunk leans on `serde_json` for the JSON and on std for the
//! text. What those return is given a name here and believed; everything
//! the relay decides on top of it is proved.

use vstd::prelude::*;
use crate::constant_time_eq::constant_time_eq;

verus! {

/// The word that every command the relay runs must begin with: `zeroclaw`.
pub open spec fn command_tag() -> Seq<u8> {
    seq![122u8, 101u8, 114u8, 111u8, 99u8, 108u8, 97u8, 119u8]
}

/// The name under which the second backend is asked for: `vllm`.
pub open spec fn vllm_name() -> Seq<u8> {
    seq![118u8, 108u8, 108u8, 109u8]
}

/// What a line of that backend's stream begins with when it carries data:
/// `data: `, with the space.
pub open spec fn data_tag() -> Seq<u8> {
    seq![100u8, 97u8, 116u8, 97u8, 58u8, 32u8]
}

/// The payload that ends that backend's stream: `[DONE]`.
pub open spec fn done_marker() -> Seq<u8> {
    seq![91u8, 68u8, 79u8, 78u8, 69u8, 93u8]
}

/// The two line feeds that close an event.
pub open spec fn event_end() -> Seq<u8> {
    seq![10u8, 10u8]
}

/// One event of the outgoing stream that carries `body`.
pub open spec fn framed(body: Seq<u8>) -> Seq<u8> {
    data_tag() + body + event_end()
}

/// Tells whether `text` begins with `prefix`.
pub fn has_prefix(text: &[u8], prefix: &[u8]) -> (r: bool)
    ensures
        r == prefix@.is_prefix_of(text@),
{
    if prefix.len() > text.len() {
        return false;
    }
    let mut i: usize = 0;
    while i < prefix.len()
        invariant
            i <= prefix.len(),
            prefix.len() <= text.len(),
            forall|j: int| 0 <= j < i ==> prefix@[j] == text@[j],
        decreases prefix.len() - i,
    {
        if prefix[i] != text[i] {
            assert(text@.subrange(0, prefix@.len() as int)[i as int] == text@[i as int]);
            return false;
        }
        i += 1;
    }
    assert(prefix@ =~= text@.subrange(0, prefix@.len() as int));
    true
}

/// Tells whether the relay may run `command`: only one that begins with
/// `zeroclaw`.
pub fn command_allowed(command: &[u8]) -> (r: bool)
    ensures
        r == command_tag().is_prefix_of(command@),
{
    let tag: Vec<u8> = vec![122u8, 101u8, 114u8, 111u8, 99u8, 108u8, 97u8, 119u8];
    assert(tag@ =~= command_tag());
    has_prefix(command, tag.as_slice())
}

/// The inference backends that the relay forwards to.
#[derive(Clone, Copy, Debug, PartialEq, Eq, Structural)]
pub enum Backend {
    Ollama,
    Vllm,
}

/// The backend that a request names. Only the exact name `vllm` selects
/// that backend; no name, or any other, selects the first.
pub fn select_backend(provider: Option<&[u8]>) -> (backend: Backend)
    ensures
        backend == Backend::Vllm <==> (provider is Some && provider->Some_0@ == vllm_name()),
        backend == Backend::Ollama || backend == Backend::Vllm,
{
    match provider {
        Some(name) => {
            let vllm: Vec<u8> = vec![118u8, 108u8, 108u8, 109u8];
            assert(vllm@ =~= vllm_name());
            if constant_time_eq(name, vllm.as_slice()) {
                Backend::Vllm
            } else {
                Backend::Ollama
            }
        },
        None => Backend::Ollama,
    }
}

impl Backend {
    /// The path of the chat endpoint of each backend.
    pub open spec fn endpoint_text(self) -> Seq<char> {
        match self {
            Backend::Ollama => "/api/chat"@,
            Backend::Vllm => "/v1/chat/completions"@,
        }
    }

    /// The path under which this backend takes chat requests.
    pub fn endpoint(&self) -> (path: &'static str)
        ensures
            path@ == self.endpoint_text(),
    {
        match self {
            Backend::Ollama => "/api/chat",
            Backend::Vllm => "/v1/chat/completions",
        }
    }
}

/// Tells whether a line of the second backend's stream carries data.
pub fn is_data_line(line: &[u8]) -> (r: bool)
    ensures
        r == data_tag().is_prefix_of(line@),
{
    let tag: Vec<u8> = vec![100u8, 97u8, 116u8, 97u8, 58u8, 32u8];
    assert(tag@ =~= data_tag());
    has_prefix(line, tag.as_slice())
}

/// Tells whether `payload` is the marker that ends the stream.
pub fn is_done(payload: &[u8]) -> (r: bool)
    ensures
        r == (payload@ == done_marker()),
{
    let marker: Vec<u8> = vec![91u8, 68u8, 79u8, 78u8, 69u8, 93u8];
    assert(marker@ =~= done_marker());
    constant_time_eq(payload, marker.as_slice())
}

/// Frames `body` as one event of the outgoing stream: `data: `, the body,
/// and two line feeds.
pub fn frame_event(body: &[u8]) -> (event: Vec<u8>)
    ensures
        event@ == framed(body@),
{
    let mut event: Vec<u8> = vec![100u8, 97u8, 116u8, 97u8, 58u8, 32u8];
    assert(event@ =~= data_tag());
    let mut i: usize = 0;
    while i < body.len()
        invariant
            i <= body.len(),
            event@ == data_tag() + body@.subrange(0, i as int),
        decreases body.len() - i,
    {
        event.push(body[i]);
        i += 1;
        assert(event@ =~= data_tag() + body@.subrange(0, i as int));
    }
    event.push(10u8);
    event.push(10u8);
    assert(event@ =~= framed(body@));
    event
}

/// What the relay answers when it was asked to run a command that it may
/// run. `ran` is what became of the command: whether it ended well, with
/// what it wrote to its output and to its error stream, or why it could not
/// be started. The answer is a status and a body: 200 with the output when
/// the command ended well, 500 with the error stream when it did not, and
/// 500 with the reason when it could not be started.
pub fn command_reply(ran: Result<(bool, String, String), String>) -> (reply: (u16, String))
    ensures
        ran is Ok && ran->Ok_0.0 ==> reply.0 == 200 && reply.1@ == ran->Ok_0.1@,
        ran is Ok && !ran->Ok_0.0 ==> reply.0 == 500 && reply.1@ == ran->Ok_0.2@,
        ran is Err ==> reply.0 == 500 && reply.1@ == ran->Err_0@,
{
    match ran {
        Ok((ended_well, output, errors)) => {
            if ended_well {
                (200u16, output)
            } else {
                (500u16, errors)
            }
        },
        Err(reason) => (500u16, reason),
    }
}

/// The text that `String::from_utf8_lossy` makes of `bytes`.
pub uninterp spec fn utf8_lossy_text(bytes: Seq<u8>) -> Seq<char>;

/// The text that `str::replace` makes of `text` when every match of `from`
/// is replaced by `to`.
pub uninterp spec fn replaced_text(text: Seq<char>, from: Seq<char>, to: Seq<char>) -> Seq<char>;

/// The text that `str::trim` leaves of `text`.
pub uninterp spec fn trimmed_text(text: Seq<char>) -> Seq<char>;

/// The text that a JSON document, read by `serde_json::from_str`, holds at
/// `document[list][index][item][field]`, if the document is well formed and
/// holds a string there.
pub uninterp spec fn json_text_in_list(
    document: Seq<char>,
    list: Seq<char>,
    index: usize,
    item: Seq<char>,
    field: Seq<char>,
) -> Option<Seq<char>>;

/// The text that a JSON document, read by `serde_json::from_slice`, holds
/// at `document[object][field]`, if the document is well formed and holds a
/// string there.
pub uninterp spec fn json_text_in_object(
    document: Seq<u8>,
    object: Seq<char>,
    field: Seq<char>,
) -> Option<Seq<char>>;

/// Calls `String::from_utf8_lossy`, which reads `bytes` as UTF-8 and puts
/// the replacement character where they are not. Believed, not proved: the
/// text depends on the bytes alone.
#[verifier::external_body]
fn lossy_text(bytes: &[u8]) -> (text: String)
    ensures
        text@ == utf8_lossy_text(bytes@),
{
    String::from_utf8_lossy(bytes).into_owned()
}

/// Calls `str::replace`. Believed, not proved: the text depends on the
/// three arguments alone.
#[verifier::external_body]
fn replace_text(text: &str, from: &str, to: &str) -> (out: String)
    ensures
        out@ == replaced_text(text@, from@, to@),
{
    text.replace(from, to)
}

/// Calls `str::trim`, which drops white space at both ends. Believed, not
/// proved: the text depends on the argument alone.
#[verifier::external_body]
fn trim_text(text: &str) -> (out: String)
    ensures
        out@ == trimmed_text(text@),
{
    text.trim().to_string()
}

/// Calls `serde_json::from_str` and picks the string at
/// `[list][index][item][field]` out of the value it made. Believed, not
/// proved: the answer depends on the arguments alone; it is `None` when the
/// document is not well formed or holds no string at that place.
#[verifier::external_body]
fn text_in_list(document: &str, list: &str, index: usize, item: &str, field: &str) -> (r: Option<
    String,
>)
    ensures
        r is Some == json_text_in_list(document@, list@, index, item@, field@) is Some,
        r is Some ==> r->Some_0@ == json_text_in_list(
            document@,
            list@,
            index,
            item@,
            field@,
        )->Some_0,
{
    let value = serde_json::from_str::<serde_json::Value>(document).ok()?;
    let text = value.get(list)?.get(index)?.get(item)?.get(field)?.as_str()?;
    Some(text.to_string())
}

/// Calls `serde_json::from_slice` and picks the string at `[object][field]`
/// out of the value it made. Believed, not proved: the answer depends on
/// the arguments alone; it is `None` when the document is not well formed
/// or holds no string at that place.
#[verifier::external_body]
fn text_in_object(document: &[u8], object: &str, field: &str) -> (r: Option<String>)
    ensures
        r is Some == json_text_in_object(document@, object@, field@) is Some,
        r is Some ==> r->Some_0@ == json_text_in_object(document@, object@, field@)->Some_0,
{
    let value = serde_json::from_slice::<serde_json::Value>(document).ok()?;
    let text = value.get(object)?.get(field)?.as_str()?;
    Some(text.to_string())
}

/// What one chunk of a backend's stream means for the outgoing stream.
#[derive(Clone, Debug, PartialEq, Eq)]
pub enum Step {
    /// The backend has ended its stream.
    End,
    /// The chunk carries no text: an empty event goes out.
    Nothing,
    /// The chunk carries this text.
    Content(String),
}

/// A step, with its text as a sequence of characters.
pub enum StepView {
    End,
    Nothing,
    Content(Seq<char>),
}

impl View for Step {
    type V = StepView;

    open spec fn view(&self) -> StepView {
        match self {
            Step::End => StepView::End,
            Step::Nothing => StepView::Nothing,
            Step::Content(text) => StepView::Content(text@),
        }
    }
}

/// The step that a looked-up text stands for.
pub open spec fn step_of(text: Option<Seq<char>>) -> StepView {
    match text {
        Some(t) => StepView::Content(t),
        None => StepView::Nothing,
    }
}

/// The payload of a line of the second backend: the line read as text,
/// every `data: ` taken out, and white space at both ends dropped.
pub open spec fn vllm_payload(line: Seq<u8>) -> Seq<char> {
    trimmed_text(replaced_text(utf8_lossy_text(line), "data: "@, ""@))
}

/// What a chunk means, by backend.
///
/// The first backend sends one JSON document per chunk, with the text at
/// `message.content`. The second sends lines: one that does not begin with
/// `data: ` carries nothing; one whose payload is `[DONE]` ends the stream;
/// any other carries the text at `choices[0].delta.content` of its payload.
pub open spec fn chunk_meaning(backend: Backend, line: Seq<u8>) -> StepView {
    match backend {
        Backend::Ollama => step_of(json_text_in_object(line, "message"@, "content"@)),
        Backend::Vllm => {
            if !data_tag().is_prefix_of(vstd::utf8::encode_utf8(utf8_lossy_text(line))) {
                StepView::Nothing
            } else if vstd::utf8::encode_utf8(vllm_payload(line)) == done_marker() {
                StepView::End
            } else {
                step_of(
                    json_text_in_list(vllm_payload(line), "choices"@, 0, "delta"@, "content"@),
                )
            }
        },
    }
}

/// The step for a text that was looked up in a chunk: the text where there
/// is one, nothing where there is none.
pub fn step_for(text: Option<String>) -> (step: Step)
    ensures
        step@ == step_of(
            match text {
                Some(t) => Some(t@),
                None => None,
            },
        ),
{
    match text {
        Some(t) => Step::Content(t),
        None => Step::Nothing,
    }
}

/// Reads one chunk of the stream of `backend` and says what it means for
/// the outgoing stream.
pub fn chunk_step(backend: Backend, line: &[u8]) -> (step: Step)
    ensures
        step@ == chunk_meaning(backend, line@),
{
    match backend {
        Backend::Ollama => step_for(text_in_object(line, "message", "content")),
        Backend::Vllm => {
            let text = lossy_text(line);
            if !is_data_line(text.as_str().as_bytes()) {
                return Step::Nothing;
            }
            let stripped = replace_text(text.as_str(), "data: ", "");
            let payload = trim_text(stripped.as_str());
            if is_done(payload.as_str().as_bytes()) {
                return Step::End;
            }
            step_for(text_in_list(payload.as_str(), "choices", 0, "delta", "content"))
        },
    }
}

} // verus!
