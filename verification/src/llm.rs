//! Answers of the language model: the event stream it sends and the text that is kept.
use vstd::prelude::*;
use vstd::utf8::{decode_utf8, valid_utf8};

use crate::cli::{one_at_least, timeout_ms};
use crate::injector::error_text;
use crate::json::{item, json_document, member, parse_json, parsed_tree, JsonTree, JsonValue};
use crate::protocol::{FloatBits, SessionId};
use crate::text::{
    begins_with, cat2, chars_of, find_at, first_at, holds_text, lemma_first_at, lemma_trim_end_take,
    lemma_trim_start_skip, same, stands_at, string_of, strip_prefix, texts, trim, trim_end,
    trim_start, trimmed,
};
use crate::url_text::{
    endpoint_view, join, parse_url, read_path, set_path, text_result, url_joined, url_parsed,
    url_path_of, url_with_path, Endpoint,
};

verus! {

/// A piece of an answer.
#[derive(Debug, Clone, PartialEq, Eq)]
pub struct LlmDelta {
    pub content: String,
}

/// News from the generation of an answer.
#[derive(Debug, PartialEq, Eq)]
pub enum LlmProgress {
    Delta { session_id: SessionId, delta: String },
    Finished {
        session_id: SessionId,
        transcript: String,
        daemon_latency_ms: u64,
        daemon_audio_ms: u64,
        result: Result<String, String>,
    },
}

// ---- how the model is asked

/// How the language model is reached and asked.
#[derive(Debug, Clone)]
pub struct LlmRuntimeConfig {
    pub base_url: Endpoint,
    pub model: String,
    pub timeout_ms: u64,
    pub max_tokens: u32,
    pub temperature: FloatBits,
    pub system_prompt: String,
    pub overlay_stream: bool,
}

/// Why a base URL was refused.
#[derive(Debug, PartialEq, Eq)]
pub struct LlmUrlError {
    pub context: String,
    pub cause: String,
}

/// What is asked of the model, apart from where it is found.
#[derive(Debug)]
pub struct LlmOptions {
    pub model: String,
    pub timeout_seconds: u64,
    pub max_tokens: u32,
    pub temperature: FloatBits,
    pub system_prompt: String,
    pub overlay_stream: bool,
}

/// Whether `c` asks what `o` says: one second and one token at least, the rest as it stands.
pub open spec fn asks(c: LlmRuntimeConfig, o: LlmOptions) -> bool {
    &&& c.model@ == o.model@
    &&& c.timeout_ms == if one_at_least(o.timeout_seconds) * 1000 <= u64::MAX {
        (one_at_least(o.timeout_seconds) * 1000) as u64
    } else {
        u64::MAX
    }
    &&& c.max_tokens == if o.max_tokens < 1 {
        1
    } else {
        o.max_tokens
    }
    &&& c.temperature == o.temperature
    &&& c.system_prompt@ == o.system_prompt@
    &&& c.overlay_stream == o.overlay_stream
}

/// What a base URL makes of a configuration, once it has been parsed.
pub open spec fn configured(
    raw: Seq<char>,
    parsed: Result<(Seq<char>, Seq<char>), Seq<char>>,
    options: LlmOptions,
    r: Result<LlmRuntimeConfig, LlmUrlError>,
) -> bool {
    match parsed {
        Ok(url) => r matches Ok(c) && c.base_url@ == url && asks(c, options),
        Err(message) => r matches Err(e) && e.context@ == "invalid LLM base URL: "@ + raw
            && e.cause@ == message,
    }
}

/// The news of pieces of an answer that are shown as they come.
pub open spec fn delta_news(
    session_id: SessionId,
    deltas: Seq<Seq<char>>,
    news: Seq<LlmProgress>,
) -> bool {
    &&& news.len() == deltas.len()
    &&& forall|i: int|
        0 <= i < deltas.len() ==> (#[trigger] news[i] matches LlmProgress::Delta {
            session_id: id,
            delta,
        } && id == session_id && delta@ == deltas[i])
}

impl LlmRuntimeConfig {
    /// A configuration for the model at `base_url`.
    pub fn new(base_url: &str, options: LlmOptions) -> (r: Result<LlmRuntimeConfig, LlmUrlError>)
        ensures
            configured(base_url@, url_parsed(base_url@), options, r),
    {
        let parsed = parse_url(base_url);
        LlmRuntimeConfig::with_parsed_url(base_url, parsed, options)
    }

    /// A configuration for a base URL that has been parsed, or the error of the parse.
    pub fn with_parsed_url(
        base_url: &str,
        parsed: Result<Endpoint, String>,
        options: LlmOptions,
    ) -> (r: Result<LlmRuntimeConfig, LlmUrlError>)
        ensures
            configured(base_url@, endpoint_view(parsed), options, r),
    {
        match parsed {
            Ok(url) => Ok(
                LlmRuntimeConfig {
                    base_url: url,
                    model: options.model,
                    timeout_ms: timeout_ms(options.timeout_seconds),
                    max_tokens: if options.max_tokens < 1 {
                        1
                    } else {
                        options.max_tokens
                    },
                    temperature: options.temperature,
                    system_prompt: options.system_prompt,
                    overlay_stream: options.overlay_stream,
                },
            ),
            Err(cause) => Err(
                LlmUrlError { context: cat2("invalid LLM base URL: ", base_url), cause },
            ),
        }
    }

    /// The name under which the model is spoken of: its base URL.
    pub fn label(&self) -> (r: &str)
        ensures
            r@ == self.base_url@.0,
    {
        self.base_url.text.as_str()
    }

    /// What is told of pieces of an answer: every piece where answers are shown as they come,
    /// else nothing.
    pub fn news_of(&self, session_id: SessionId, deltas: Vec<String>) -> (r: Vec<LlmProgress>)
        ensures
            self.overlay_stream ==> delta_news(session_id, texts(deltas@), r@),
            !self.overlay_stream ==> r@.len() == 0,
    {
        let mut news: Vec<LlmProgress> = Vec::new();
        if !self.overlay_stream {
            return news;
        }
        let mut i: usize = 0;
        while i < deltas.len()
            invariant
                i <= deltas.len(),
                delta_news(session_id, texts(deltas@.take(i as int)), news@),
            decreases deltas.len() - i,
        {
            let ghost before = news@;
            news.push(LlmProgress::Delta { session_id, delta: deltas[i].as_str().to_owned() });
            i = i + 1;
            proof {
                let now = texts(deltas@.take(i as int));
                let then = texts(deltas@.take(i - 1));
                assert forall|k: int| 0 <= k < now.len() implies (#[trigger] news@[k]
                    matches LlmProgress::Delta {
                    session_id: id,
                    delta,
                } && id == session_id && delta@ == now[k]) by {
                    if k < i - 1 {
                        assert(news@[k] == before[k]);
                        assert(now[k] == then[k]);
                    }
                }
            }
        }
        proof {
            assert(deltas@.take(deltas@.len() as int) =~= deltas@);
        }
        news
    }
}

// ---- addresses

/// `url` with a path that ends in a slash.
pub open spec fn with_open_path(url: Seq<char>) -> Option<Seq<char>> {
    match url_path_of(url) {
        Some(path) => if path.len() > 0 && path.last() == '/' {
            Some(url)
        } else {
            url_with_path(url, path + "/"@)
        },
        None => None,
    }
}

/// The address of `leaf` below a base URL; the message where it cannot be built.
pub open spec fn below(base: Seq<char>, leaf: Seq<char>, failure: Seq<char>) -> Result<
    Seq<char>,
    Seq<char>,
> {
    match with_open_path(base) {
        Some(url) => match url_joined(url, leaf) {
            Ok(u) => Ok(u),
            Err(_) => Err(failure),
        },
        None => Err(failure),
    }
}

/// Whether a path needs a slash at its end before something is joined to it.
pub fn path_needs_slash(path: &str) -> (r: bool)
    ensures
        r == !(path@.len() > 0 && path@.last() == '/'),
{
    let chars = chars_of(path);
    chars.len() == 0 || chars[chars.len() - 1] != '/'
}

/// The address of `leaf` below a base URL, which keeps its path.
fn address_below(base: &str, leaf: &str, failure: &str) -> (r: Result<String, String>)
    ensures
        text_result(r) == below(base@, leaf@, failure@),
{
    let open: Option<String> = match read_path(base) {
        Some(path) => {
            if path_needs_slash(path.as_str()) {
                let longer = cat2(path.as_str(), "/");
                set_path(base, longer.as_str())
            } else {
                Some(base.to_owned())
            }
        },
        None => None,
    };
    match open {
        Some(url) => match join(url.as_str(), leaf) {
            Ok(u) => Ok(u),
            Err(_) => Err(failure.to_owned()),
        },
        None => Err(failure.to_owned()),
    }
}

/// The address for chat completions below a base URL.
pub fn llm_chat_completions_url(base: &str) -> (r: Result<String, String>)
    ensures
        text_result(r) == below(
            base@,
            "chat/completions"@,
            "failed to build llama chat/completions URL"@,
        ),
{
    address_below(base, "chat/completions", "failed to build llama chat/completions URL")
}

/// The address for the health check below a base URL.
pub fn llm_health_url(base: &str) -> (r: Result<String, String>)
    ensures
        text_result(r) == below(base@, "health"@, "failed to build llama health URL"@),
{
    address_below(base, "health", "failed to build llama health URL")
}

// ---- the text that is kept

/// `raw` without its thinking blocks; a block that is not closed takes the rest with it.
pub open spec fn without_thinking(raw: Seq<char>) -> Seq<char>
    decreases raw.len(),
{
    match first_at(raw, "<think>"@, 0) {
        None => raw,
        Some(start) => if 0 <= start <= raw.len() {
            match first_at(raw, "</think>"@, start) {
                None => raw.take(start),
                Some(end) => if start <= end && end + 8 <= raw.len() {
                    without_thinking(raw.take(start) + raw.skip(end + 8))
                } else {
                    raw
                },
            }
        } else {
            raw
        },
    }
}

/// The answer that is kept of a raw one.
pub open spec fn kept_answer(raw: Seq<char>) -> Seq<char> {
    trim(without_thinking(raw))
}

/// What the model thought aloud is removed; white space around the rest is too.
pub fn sanitize_model_answer(raw: &str) -> (r: String)
    ensures
        r@ == kept_answer(raw@),
{
    proof {
        reveal_strlit("<think>");
        reveal_strlit("</think>");
    }
    let open = chars_of("<think>");
    let close = chars_of("</think>");
    let mut output = chars_of(raw);
    let mut more = true;
    while more
        invariant
            open@ == "<think>"@,
            close@ == "</think>"@,
            close@.len() == 8,
            without_thinking(output@) == without_thinking(raw@),
            !more ==> output@ == without_thinking(raw@),
        decreases output@.len() + (if more { 1int } else { 0 }),
    {
        match find_at(&output, &open, 0) {
            None => {
                more = false;
            },
            Some(start) => {
                proof {
                    lemma_first_at(output@, "<think>"@, 0);
                    lemma_first_at(output@, "</think>"@, start as int);
                }
                match find_at(&output, &close, start) {
                    None => {
                        let ghost before = output@;
                        output.truncate(start);
                        proof {
                            assert(output@ =~= before.take(start as int));
                            lemma_no_opening_before_first(before, start as int);
                        }
                        more = false;
                    },
                    Some(end) => {
                        let ghost before = output@;
                        let mut next: Vec<char> = Vec::new();
                        let mut i: usize = 0;
                        while i < start
                            invariant
                                i <= start <= output@.len(),
                                next@ == output@.take(i as int),
                            decreases start - i,
                        {
                            next.push(output[i]);
                            i = i + 1;
                            assert(next@ =~= output@.take(i as int));
                        }
                        let total: usize = output.len();
                        assert(end + 8 <= total);
                        i = end + 8;
                        assert(next@ =~= output@.take(start as int) + output@.subrange(
                            end + 8,
                            i as int,
                        ));
                        while i < output.len()
                            invariant
                                start <= end,
                                end + 8 <= i <= output@.len(),
                                next@ == output@.take(start as int) + output@.subrange(
                                    end + 8,
                                    i as int,
                                ),
                            decreases output@.len() - i,
                        {
                            next.push(output[i]);
                            i = i + 1;
                            assert(next@ =~= output@.take(start as int) + output@.subrange(
                                end + 8,
                                i as int,
                            ));
                        }
                        assert(next@ =~= before.take(start as int) + before.skip(end + 8));
                        output = next;
                    },
                }
            },
        }
    }
    let kept = string_of(&output, 0, output.len());
    assert(output@.subrange(0, output@.len() as int) =~= output@);
    trimmed(kept.as_str())
}

/// What stands before the first opening tag holds none.
proof fn lemma_no_opening_before_first(s: Seq<char>, start: int)
    requires
        first_at(s, "<think>"@, 0) == Some(start),
        0 <= start <= s.len(),
    ensures
        without_thinking(s.take(start)) == s.take(start),
{
    lemma_first_at(s, "<think>"@, 0);
    lemma_first_at(s.take(start), "<think>"@, 0);
    if first_at(s.take(start), "<think>"@, 0) is Some {
        let at = first_at(s.take(start), "<think>"@, 0)->0;
        let n = "<think>"@.len();
        reveal_strlit("<think>");
        assert(s.take(start).subrange(at, at + n) =~= s.subrange(at, at + n));
        assert(stands_at(s, "<think>"@, at));
    }
}

/// Removal leaves no opening tag.
pub proof fn law_no_thinking_left(raw: Seq<char>)
    ensures
        !holds_text(without_thinking(raw), "<think>"@),
    decreases raw.len(),
{
    reveal_strlit("<think>");
    reveal_strlit("</think>");
    lemma_first_at(raw, "<think>"@, 0);
    match first_at(raw, "<think>"@, 0) {
        None => {
            if holds_text(raw, "<think>"@) {
                let at = choose|at: int| stands_at(raw, "<think>"@, at);
                assert(stands_at(raw, "<think>"@, at));
            }
        },
        Some(start) => {
            lemma_first_at(raw, "</think>"@, start);
            match first_at(raw, "</think>"@, start) {
                None => {
                    let out = raw.take(start);
                    if holds_text(out, "<think>"@) {
                        let at = choose|at: int| stands_at(out, "<think>"@, at);
                        assert(out.subrange(at, at + 7) =~= raw.subrange(at, at + 7));
                        assert(stands_at(raw, "<think>"@, at));
                    }
                },
                Some(end) => {
                    law_no_thinking_left(raw.take(start) + raw.skip(end + 8));
                },
            }
        },
    }
}

/// A text that stands in a part of another stands in that one.
proof fn lemma_part_holds(s: Seq<char>, from: int, to: int, needle: Seq<char>)
    requires
        0 <= from <= to <= s.len(),
        holds_text(s.subrange(from, to), needle),
    ensures
        holds_text(s, needle),
{
    let part = s.subrange(from, to);
    let at = choose|at: int| stands_at(part, needle, at);
    assert(part.subrange(at, at + needle.len()) =~= s.subrange(
        from + at,
        from + at + needle.len(),
    ));
    assert(stands_at(s, needle, from + at));
}

/// Trimming keeps a part of the text.
proof fn lemma_trim_is_part(s: Seq<char>) -> (bounds: (int, int))
    ensures
        0 <= bounds.0 <= bounds.1 <= s.len(),
        trim(s) == s.subrange(bounds.0, bounds.1),
{
    let a = trim_start(s);
    lemma_trim_start_skip(s);
    lemma_trim_end_take(a);
    let from = s.len() - a.len();
    let to = from + trim_end(a).len();
    assert(trim(s) =~= s.subrange(from, to));
    (from, to)
}

/// The answer that is kept shows no opening tag, whatever the model sent.
pub proof fn law_kept_answer_shows_no_thinking(raw: Seq<char>)
    ensures
        !holds_text(kept_answer(raw), "<think>"@),
{
    let w = without_thinking(raw);
    law_no_thinking_left(raw);
    let b = lemma_trim_is_part(w);
    if holds_text(trim(w), "<think>"@) {
        lemma_part_holds(w, b.0, b.1, "<think>"@);
    }
}

/// An answer without thinking blocks is only trimmed.
pub proof fn law_plain_answer_is_only_trimmed(raw: Seq<char>)
    requires
        !holds_text(raw, "<think>"@),
    ensures
        kept_answer(raw) == trim(raw),
{
    lemma_first_at(raw, "<think>"@, 0);
}

// ---- lines of the event stream

/// The position of the first line feed from `from` on.
pub open spec fn feed_at(bytes: Seq<u8>, from: int) -> Option<int>
    decreases bytes.len() - from,
{
    if from >= bytes.len() {
        None
    } else if bytes[from] == 10 {
        Some(from)
    } else {
        feed_at(bytes, from + 1)
    }
}

/// A line without the carriage return at its end, if it has one.
pub open spec fn without_return(line: Seq<u8>) -> Seq<u8> {
    if line.len() > 0 && line.last() == 13 {
        line.drop_last()
    } else {
        line
    }
}

/// What a drain gives: the lines, or `None` where one is not UTF-8; and the bytes left over.
pub struct Drained {
    pub lines: Option<Seq<Seq<char>>>,
    pub rest: Seq<u8>,
}

/// The complete lines of `bytes` behind those in `before`.
pub open spec fn drained(bytes: Seq<u8>, before: Seq<Seq<char>>) -> Drained
    decreases bytes.len(),
{
    match feed_at(bytes, 0) {
        None => Drained { lines: Some(before), rest: bytes },
        Some(at) => if 0 <= at < bytes.len() {
            let line = without_return(bytes.take(at));
            if valid_utf8(line) {
                drained(bytes.skip(at + 1), before.push(decode_utf8(line)))
            } else {
                Drained { lines: None, rest: bytes.skip(at + 1) }
            }
        } else {
            Drained { lines: None, rest: bytes }
        },
    }
}

/// `s` without the carriage returns at its end.
pub open spec fn without_returns(s: Seq<char>) -> Seq<char>
    decreases s.len(),
{
    if s.len() > 0 && s.last() == '\r' {
        without_returns(s.drop_last())
    } else {
        s
    }
}

/// The drain at the end of the stream: what is left over is a line too.
pub open spec fn flushed(bytes: Seq<u8>) -> Drained {
    let d = drained(bytes, Seq::empty());
    if d.lines is None || d.rest.len() == 0 {
        d
    } else if valid_utf8(d.rest) {
        Drained {
            lines: Some(d.lines->0.push(without_returns(decode_utf8(d.rest)))),
            rest: Seq::empty(),
        }
    } else {
        Drained { lines: None, rest: d.rest }
    }
}

/// A drain with or without the flush.
pub open spec fn drain_result(bytes: Seq<u8>, flush_partial: bool) -> Drained {
    if flush_partial {
        flushed(bytes)
    } else {
        drained(bytes, Seq::empty())
    }
}

/// Where the bytes of the stream were not UTF-8.
#[derive(Debug, Clone, Copy, PartialEq, Eq, Structural)]
pub enum SseError {
    InvalidLine,
    InvalidTrailingBytes,
}

impl SseError {
    /// The message of the error.
    pub fn message(&self) -> (r: &'static str)
        ensures
            r@ == match *self {
                SseError::InvalidLine => "llama SSE stream contained invalid UTF-8 in a line"@,
                SseError::InvalidTrailingBytes =>
                    "llama SSE stream ended with invalid UTF-8 in trailing bytes"@,
            },
    {
        match self {
            SseError::InvalidLine => "llama SSE stream contained invalid UTF-8 in a line",
            SseError::InvalidTrailingBytes =>
                "llama SSE stream ended with invalid UTF-8 in trailing bytes",
        }
    }
}

/// The text that bytes encode.
///
/// Calls `std::str::from_utf8`, which std documents to accept exactly the valid UTF-8 and to
/// give the text that it encodes.
#[verifier::external_body]
pub(crate) fn utf8_text(bytes: &Vec<u8>) -> (r: Option<String>)
    ensures
        match r {
            Some(s) => valid_utf8(bytes@) && s@ == decode_utf8(bytes@),
            None => !valid_utf8(bytes@),
        },
{
    std::str::from_utf8(bytes).ok().map(str::to_owned)
}

/// The position of the first line feed.
fn find_feed(bytes: &Vec<u8>) -> (r: Option<usize>)
    ensures
        match r {
            Some(at) => at < bytes@.len() && feed_at(bytes@, 0) == Some(at as int),
            None => feed_at(bytes@, 0) is None,
        },
{
    let mut i: usize = 0;
    while i < bytes.len()
        invariant
            i <= bytes@.len(),
            feed_at(bytes@, 0) == feed_at(bytes@, i as int),
        decreases bytes@.len() - i,
    {
        if bytes[i] == 10 {
            return Some(i);
        }
        i = i + 1;
    }
    None
}

/// Takes the bytes before position `at` out of the buffer, and the one at it away.
fn take_line(buffer: &mut Vec<u8>, at: usize) -> (line: Vec<u8>)
    requires
        at < old(buffer)@.len(),
    ensures
        line@ == old(buffer)@.take(at as int),
        final(buffer)@ == old(buffer)@.skip(at + 1),
{
    let ghost all = buffer@;
    let total: usize = buffer.len();
    assert(at < total);
    let rest = buffer.split_off(at + 1);
    let mut line: Vec<u8> = Vec::new();
    let mut i: usize = 0;
    while i < at
        invariant
            i <= at < buffer@.len(),
            buffer@ == all.take(at + 1),
            at < all.len(),
            line@ == all.take(i as int),
        decreases at - i,
    {
        line.push(buffer[i]);
        i = i + 1;
        assert(line@ =~= all.take(i as int));
    }
    *buffer = rest;
    assert(buffer@ =~= all.skip(at + 1));
    line
}

/// `s` without the carriage returns at its end.
fn drop_returns(s: &str) -> (r: String)
    ensures
        r@ == without_returns(s@),
{
    let mut chars = chars_of(s);
    let mut more = true;
    while more
        invariant
            without_returns(chars@) == without_returns(s@),
            !more ==> chars@ == without_returns(s@),
        decreases chars@.len() + (if more { 1int } else { 0 }),
    {
        let n: usize = chars.len();
        if n > 0 && chars[n - 1] == '\r' {
            let ghost before = chars@;
            chars.truncate(n - 1);
            assert(chars@ =~= before.drop_last());
        } else {
            more = false;
        }
    }
    let out = string_of(&chars, 0, chars.len());
    assert(chars@.subrange(0, chars@.len() as int) =~= chars@);
    out
}

/// Takes the complete lines out of the buffer; with `flush_partial` the rest as well.
pub fn drain_sse_lines(buffer: &mut Vec<u8>, flush_partial: bool) -> (r: Result<
    Vec<String>,
    SseError,
>)
    ensures
        final(buffer)@ == drain_result(old(buffer)@, flush_partial).rest,
        match r {
            Ok(lines) => drain_result(old(buffer)@, flush_partial).lines == Some(texts(lines@)),
            Err(e) => drain_result(old(buffer)@, flush_partial).lines is None && (e
                == SseError::InvalidTrailingBytes <==> drained(
                old(buffer)@,
                Seq::empty(),
            ).lines is Some),
        },
{
    let ghost start = buffer@;
    let mut lines: Vec<String> = Vec::new();
    let mut more = true;
    assert(texts(lines@) =~= Seq::<Seq<char>>::empty());
    while more
        invariant
            start == old(buffer)@,
            drained(buffer@, texts(lines@)) == drained(start, Seq::empty()),
            !more ==> drained(start, Seq::empty()) == (Drained {
                lines: Some(texts(lines@)),
                rest: buffer@,
            }),
        decreases buffer@.len() + (if more { 1int } else { 0 }),
    {
        match find_feed(buffer) {
            None => {
                more = false;
            },
            Some(at) => {
                let mut raw_line = take_line(buffer, at);
                let n: usize = raw_line.len();
                let ghost whole = raw_line@;
                if n > 0 && raw_line[n - 1] == 13 {
                    raw_line.truncate(n - 1);
                    assert(raw_line@ =~= whole.drop_last());
                }
                match utf8_text(&raw_line) {
                    Some(line) => {
                        let ghost before = texts(lines@);
                        lines.push(line);
                        assert(texts(lines@) =~= before.push(line@));
                    },
                    None => {
                        return Err(SseError::InvalidLine);
                    },
                }
            },
        }
    }
    if flush_partial && buffer.len() > 0 {
        match utf8_text(buffer) {
            Some(line) => {
                let ghost before = texts(lines@);
                let kept = drop_returns(line.as_str());
                lines.push(kept);
                assert(texts(lines@) =~= before.push(kept@));
                buffer.clear();
                assert(buffer@ =~= Seq::<u8>::empty());
            },
            None => {
                return Err(SseError::InvalidTrailingBytes);
            },
        }
    }
    Ok(lines)
}

/// Bytes behind the first line feed do not move it.
proof fn lemma_feed_in_prefix(a: Seq<u8>, b: Seq<u8>, from: int)
    requires
        0 <= from,
    ensures
        feed_at(a, from) is Some ==> feed_at(a + b, from) == feed_at(a, from) && from <= feed_at(
            a,
            from,
        )->0 < a.len(),
    decreases a.len() - from,
{
    if from < a.len() {
        assert((a + b)[from] == a[from]);
        if a[from] != 10 {
            lemma_feed_in_prefix(a, b, from + 1);
        }
    }
}

/// It does not matter how the stream is cut into chunks: draining after the first chunk and
/// again when the second has come gives the lines that draining both at once gives.
pub proof fn law_chunks_do_not_matter(a: Seq<u8>, b: Seq<u8>, before: Seq<Seq<char>>)
    requires
        drained(a, before).lines is Some,
    ensures
        drained(a + b, before) == drained(
            drained(a, before).rest + b,
            drained(a, before).lines->0,
        ),
    decreases a.len(),
{
    lemma_feed_in_prefix(a, b, 0);
    match feed_at(a, 0) {
        None => {},
        Some(at) => {
            assert((a + b).take(at) =~= a.take(at));
            assert((a + b).skip(at + 1) =~= a.skip(at + 1) + b);
            let line = without_return(a.take(at));
            law_chunks_do_not_matter(a.skip(at + 1), b, before.push(decode_utf8(line)));
        },
    }
}

/// After a drain the buffer holds no complete line.
pub proof fn law_drain_leaves_no_complete_line(bytes: Seq<u8>, before: Seq<Seq<char>>)
    requires
        drained(bytes, before).lines is Some,
    ensures
        feed_at(drained(bytes, before).rest, 0) is None,
    decreases bytes.len(),
{
    lemma_feed_in_prefix(bytes, Seq::empty(), 0);
    match feed_at(bytes, 0) {
        None => {},
        Some(at) => {
            let line = without_return(bytes.take(at));
            law_drain_leaves_no_complete_line(
                bytes.skip(at + 1),
                before.push(decode_utf8(line)),
            );
        },
    }
}

// ---- events

/// The piece of the answer that an event carries.
pub open spec fn delta_content(event: JsonTree) -> Option<Seq<char>> {
    match member(event, "choices"@) {
        None => None,
        Some(choices) => match item(choices, 0) {
            None => None,
            Some(first) => match member(first, "delta"@) {
                None => None,
                Some(delta) => match member(delta, "content"@) {
                    Some(JsonTree::Text(t)) => Some(t),
                    _ => None,
                },
            },
        },
    }
}

/// The piece of the answer that an event carries.
pub fn extract_delta_content(payload: &JsonValue) -> (r: Option<&str>)
    ensures
        crate::text::opt_chars(r) == delta_content(payload.tree()),
{
    match payload.get("choices") {
        None => None,
        Some(choices) => match choices.at(0) {
            None => None,
            Some(first) => match first.get("delta") {
                None => None,
                Some(delta) => match delta.get("content") {
                    None => None,
                    Some(content) => content.as_text(),
                },
            },
        },
    }
}

/// What one line of the stream means.
#[derive(Debug, Clone, PartialEq, Eq)]
pub enum SseStep {
    /// Nothing for the answer.
    Skip,
    /// The stream is complete.
    Done,
    /// A piece of the answer.
    Delta { delta: String },
}

/// What one line of the stream means.
pub enum SseMeaning {
    Skip,
    Done,
    Delta(Seq<char>),
    NotJson,
}

/// What a data payload means, given the document that was read out of it.
pub open spec fn payload_meaning(document: Option<JsonTree>) -> SseMeaning {
    match document {
        None => SseMeaning::NotJson,
        Some(event) => match delta_content(event) {
            Some(delta) => if delta.len() > 0 {
                SseMeaning::Delta(delta)
            } else {
                SseMeaning::Skip
            },
            None => SseMeaning::Skip,
        },
    }
}

/// The payload of a data line.
pub open spec fn data_payload(line: Seq<char>) -> Option<Seq<char>> {
    if begins_with(line, "data:"@) {
        Some(trim(line.skip(5)))
    } else {
        None
    }
}

/// What one line of the stream means.
pub open spec fn line_meaning(line: Seq<char>) -> SseMeaning {
    match data_payload(line) {
        None => SseMeaning::Skip,
        Some(payload) => if payload == "[DONE]"@ {
            SseMeaning::Done
        } else {
            payload_meaning(json_document(payload))
        },
    }
}

/// The meaning that a step stands for.
pub open spec fn step_meaning(step: SseStep) -> SseMeaning {
    match step {
        SseStep::Skip => SseMeaning::Skip,
        SseStep::Done => SseMeaning::Done,
        SseStep::Delta { delta } => SseMeaning::Delta(delta@),
    }
}

/// Reads an event that has been parsed; the payload is named in the error.
pub fn read_payload(payload: &str, document: Option<JsonValue>) -> (r: Result<SseStep, String>)
    ensures
        match r {
            Ok(step) => payload_meaning(parsed_tree(document)) == step_meaning(step),
            Err(m) => document is None && m@
                == "failed to parse llama SSE data payload as JSON: "@ + payload@,
        },
{
    match document {
        None => Err(cat2("failed to parse llama SSE data payload as JSON: ", payload)),
        Some(event) => match extract_delta_content(&event) {
            Some(delta) => {
                if delta.is_empty() {
                    Ok(SseStep::Skip)
                } else {
                    Ok(SseStep::Delta { delta: delta.to_owned() })
                }
            },
            None => Ok(SseStep::Skip),
        },
    }
}

/// Reads one line of the stream.
pub fn read_sse_line(line: &str) -> (r: Result<SseStep, String>)
    ensures
        match r {
            Ok(step) => line_meaning(line@) == step_meaning(step),
            Err(m) => line_meaning(line@) is NotJson && data_payload(line@) is Some && m@
                == "failed to parse llama SSE data payload as JSON: "@ + data_payload(line@)->0,
        },
{
    proof {
        reveal_strlit("data:");
    }
    match strip_prefix(line, "data:") {
        None => Ok(SseStep::Skip),
        Some(rest) => {
            let payload = trimmed(rest.as_str());
            if same(payload.as_str(), "[DONE]") {
                return Ok(SseStep::Done);
            }
            let document = parse_json(payload.as_str());
            read_payload(payload.as_str(), document)
        },
    }
}

/// An answer that is being put together.
#[derive(Debug, Clone)]
pub struct AnswerStream {
    buffer: Vec<u8>,
    assembled: String,
    done: bool,
}

/// Where an answer stands: the bytes not yet read, the text so far, and whether it is complete.
pub struct StreamState {
    pub rest: Seq<u8>,
    pub text: Seq<char>,
    pub done: bool,
}

/// What reading lines in order makes of the text so far: the pieces in order, up to the end
/// mark or the first line that is no event.
pub struct LinesRead {
    pub text: Seq<char>,
    pub deltas: Seq<Seq<char>>,
    pub done: bool,
    pub failed: Option<Seq<char>>,
}

/// Reads the lines from `from` on.
pub open spec fn lines_read(lines: Seq<Seq<char>>, from: int, now: LinesRead) -> LinesRead
    decreases lines.len() - from,
{
    if from >= lines.len() || now.done || now.failed is Some {
        now
    } else {
        let line = trim(lines[from]);
        match line_meaning(line) {
            SseMeaning::Skip => lines_read(lines, from + 1, now),
            SseMeaning::Done => LinesRead { done: true, ..now },
            SseMeaning::Delta(d) => lines_read(
                lines,
                from + 1,
                LinesRead { text: now.text + d, deltas: now.deltas.push(d), ..now },
            ),
            SseMeaning::NotJson => LinesRead {
                failed: Some(
                    "failed to parse llama SSE data payload as JSON: "@ + data_payload(line)->0,
                ),
                ..now
            },
        }
    }
}

/// The start of reading with a text so far.
pub open spec fn reading_from(text: Seq<char>) -> LinesRead {
    LinesRead { text, deltas: Seq::empty(), done: false, failed: None }
}

/// The pieces and the state after a chunk, or the message where the stream is broken.
pub open spec fn chunk_outcome(s: StreamState, chunk: Seq<u8>, flush: bool) -> (
    StreamState,
    Result<Seq<Seq<char>>, Seq<char>>,
) {
    if s.done {
        (s, Ok(Seq::empty()))
    } else {
        let d = drain_result(s.rest + chunk, flush);
        match d.lines {
            None => (
                StreamState { rest: d.rest, ..s },
                Err(
                    if drained(s.rest + chunk, Seq::empty()).lines is Some {
                        "llama SSE stream ended with invalid UTF-8 in trailing bytes"@
                    } else {
                        "llama SSE stream contained invalid UTF-8 in a line"@
                    },
                ),
            ),
            Some(lines) => {
                let read = lines_read(lines, 0, reading_from(s.text));
                (
                    StreamState { rest: d.rest, text: read.text, done: read.done },
                    match read.failed {
                        Some(m) => Err(m),
                        None => Ok(read.deltas),
                    },
                )
            },
        }
    }
}

/// The pieces of the answer that a chunk completes. Where a line is no event, these are the
/// pieces before it.
pub open spec fn chunk_pieces(s: StreamState, chunk: Seq<u8>, flush: bool) -> Seq<Seq<char>> {
    if s.done {
        Seq::empty()
    } else {
        match drain_result(s.rest + chunk, flush).lines {
            None => Seq::empty(),
            Some(lines) => lines_read(lines, 0, reading_from(s.text)).deltas,
        }
    }
}

/// The message that a chunk is refused with, if it is.
pub open spec fn chunk_error(s: StreamState, chunk: Seq<u8>, flush: bool) -> Option<Seq<char>> {
    match chunk_outcome(s, chunk, flush).1 {
        Ok(_) => None,
        Err(m) => Some(m),
    }
}

/// The characters of a list of pieces or of a message.
pub open spec fn deltas_view(r: Result<Vec<String>, String>) -> Result<Seq<Seq<char>>, Seq<char>> {
    match r {
        Ok(v) => Ok(texts(v@)),
        Err(m) => Err(m@),
    }
}

impl AnswerStream {
    /// Where the answer stands.
    pub closed spec fn state(self) -> StreamState {
        StreamState { rest: self.buffer@, text: self.assembled@, done: self.done }
    }

    /// An answer of which nothing has come yet.
    pub fn new() -> (r: AnswerStream)
        ensures
            r.state() == (StreamState { rest: Seq::empty(), text: Seq::empty(), done: false }),
    {
        AnswerStream { buffer: Vec::new(), assembled: String::new(), done: false }
    }

    /// The text so far.
    pub fn text(&self) -> (r: &str)
        ensures
            r@ == self.state().text,
    {
        self.assembled.as_str()
    }

    /// Whether the end mark has come.
    pub fn is_done(&self) -> (r: bool)
        ensures
            r == self.state().done,
    {
        self.done
    }

    /// Takes a chunk of the stream and gives the pieces of the answer that it completes.
    pub fn feed(&mut self, chunk: &Vec<u8>) -> (r: Result<Vec<String>, String>)
        ensures
            (final(self).state(), deltas_view(r)) == chunk_outcome(
                old(self).state(),
                chunk@,
                false,
            ),
    {
        let mut pieces: Vec<String> = Vec::new();
        match self.feed_into(chunk, &mut pieces) {
            Ok(_) => Ok(pieces),
            Err(m) => Err(m),
        }
    }

    /// Takes a chunk of the stream and hands out the pieces of the answer that it completes,
    /// also those that come before a line which breaks the stream.
    pub fn feed_into(&mut self, chunk: &Vec<u8>, pieces: &mut Vec<String>) -> (r: Result<
        (),
        String,
    >)
        ensures
            final(self).state() == chunk_outcome(old(self).state(), chunk@, false).0,
            texts(final(pieces)@) == texts(old(pieces)@) + chunk_pieces(
                old(self).state(),
                chunk@,
                false,
            ),
            error_text(r) == chunk_error(old(self).state(), chunk@, false),
    {
        self.take_bytes(chunk, false, pieces)
    }

    /// Takes what is left over at the end of the stream.
    pub fn finish(&mut self) -> (r: Result<Vec<String>, String>)
        ensures
            (final(self).state(), deltas_view(r)) == chunk_outcome(
                old(self).state(),
                Seq::empty(),
                true,
            ),
    {
        let mut pieces: Vec<String> = Vec::new();
        match self.finish_into(&mut pieces) {
            Ok(_) => Ok(pieces),
            Err(m) => Err(m),
        }
    }

    /// Takes what is left over at the end of the stream and hands out the pieces that it
    /// completes, also those that come before a line which breaks the stream.
    pub fn finish_into(&mut self, pieces: &mut Vec<String>) -> (r: Result<(), String>)
        ensures
            final(self).state() == chunk_outcome(old(self).state(), Seq::empty(), true).0,
            texts(final(pieces)@) == texts(old(pieces)@) + chunk_pieces(
                old(self).state(),
                Seq::empty(),
                true,
            ),
            error_text(r) == chunk_error(old(self).state(), Seq::empty(), true),
    {
        let nothing: Vec<u8> = Vec::new();
        self.take_bytes(&nothing, true, pieces)
    }

    fn take_bytes(&mut self, chunk: &Vec<u8>, flush: bool, pieces: &mut Vec<String>) -> (r: Result<
        (),
        String,
    >)
        ensures
            final(self).state() == chunk_outcome(old(self).state(), chunk@, flush).0,
            texts(final(pieces)@) == texts(old(pieces)@) + chunk_pieces(
                old(self).state(),
                chunk@,
                flush,
            ),
            error_text(r) == chunk_error(old(self).state(), chunk@, flush),
    {
        let ghost given = texts(pieces@);
        assert(given + Seq::<Seq<char>>::empty() =~= given);
        if self.done {
            return Ok(());
        }
        let ghost s0 = self.state();
        let mut i: usize = 0;
        while i < chunk.len()
            invariant
                i <= chunk@.len(),
                self.buffer@ == s0.rest + chunk@.take(i as int),
                self.assembled@ == s0.text,
                self.done == s0.done,
            decreases chunk@.len() - i,
        {
            self.buffer.push(chunk[i]);
            i = i + 1;
            assert(self.buffer@ =~= s0.rest + chunk@.take(i as int));
        }
        assert(chunk@.take(i as int) =~= chunk@);
        let lines = match drain_sse_lines(&mut self.buffer, flush) {
            Ok(lines) => lines,
            Err(e) => {
                return Err(e.message().to_owned());
            },
        };
        let ghost all = texts(lines@);
        let ghost rest = self.buffer@;
        let ghost mut read: Seq<Seq<char>> = Seq::empty();
        let mut k: usize = 0;
        while k < lines.len() && !self.done
            invariant
                k <= lines@.len(),
                all == texts(lines@),
                self.buffer@ == rest,
                lines_read(all, 0, reading_from(s0.text)) == lines_read(
                    all,
                    k as int,
                    LinesRead {
                        text: self.assembled@,
                        deltas: read,
                        done: self.done,
                        failed: None,
                    },
                ),
                texts(pieces@) == given + read,
                given == texts(old(pieces)@),
                rest == drain_result(s0.rest + chunk@, flush).rest,
                drain_result(s0.rest + chunk@, flush).lines == Some(all),
                s0 == old(self).state(),
                !s0.done,
            decreases lines@.len() - k,
        {
            let line = trimmed(lines[k].as_str());
            assert(line@ == trim(all[k as int]));
            match read_sse_line(line.as_str()) {
                Ok(SseStep::Skip) => {},
                Ok(SseStep::Done) => {
                    self.done = true;
                },
                Ok(SseStep::Delta { delta }) => {
                    let ghost before = texts(pieces@);
                    self.assembled.push_str(delta.as_str());
                    pieces.push(delta);
                    proof {
                        assert(texts(pieces@) =~= before.push(delta@));
                        assert(before.push(delta@) =~= given + read.push(delta@));
                        read = read.push(delta@);
                    }
                },
                Err(m) => {
                    return Err(m);
                },
            }
            k = k + 1;
        }
        Ok(())
    }
}

// ---- what the stream says

/// Whether a document is an event with a text in it: `choices[0].delta.content`.
pub open spec fn carries(event: JsonTree, text: Seq<char>) -> bool {
    member(event, "choices"@) matches Some(choices) && item(choices, 0) matches Some(first)
        && member(first, "delta"@) matches Some(delta) && member(delta, "content"@) == Some(
        JsonTree::Text(text),
    )
}

/// A text that an event carries is a piece of the answer as it stands, whatever its characters
/// are, white space alone included; only an empty one is none.
pub proof fn law_carried_text_is_a_piece(event: JsonTree, text: Seq<char>)
    requires
        carries(event, text),
    ensures
        text.len() > 0 ==> payload_meaning(Some(event)) == SseMeaning::Delta(text),
        text.len() == 0 ==> payload_meaning(Some(event)) is Skip,
{
}

/// An event that carries no text is skipped, and only what is no document is refused.
pub proof fn law_event_without_text_is_skipped(document: Option<JsonTree>)
    ensures
        payload_meaning(document) is NotJson <==> document is None,
        !(payload_meaning(document) is Done),
        payload_meaning(document) matches SseMeaning::Delta(text) ==> text.len() > 0 && carries(
            document->0,
            text,
        ),
{
}

/// A line says what its payload says: after `data:` and white space comes the end mark or a
/// document, and a line that does not begin so is skipped.
pub proof fn law_data_lines_are_read(blank: Seq<char>, payload: Seq<char>, line: Seq<char>)
    requires
        trim(blank + payload) == payload,
    ensures
        payload != "[DONE]"@ ==> line_meaning("data:"@ + blank + payload) == payload_meaning(
            json_document(payload),
        ),
        payload == "[DONE]"@ ==> line_meaning("data:"@ + blank + payload) is Done,
        line.len() < 5 || line.take(5) != "data:"@ ==> line_meaning(line) is Skip,
{
    reveal_strlit("data:");
    let whole = "data:"@ + blank + payload;
    assert(whole.take(5) =~= "data:"@);
    assert(whole.skip(5) =~= blank + payload);
}

/// All pieces one after the other.
pub open spec fn put_together(pieces: Seq<Seq<char>>) -> Seq<char>
    decreases pieces.len(),
{
    if pieces.len() == 0 {
        Seq::empty()
    } else {
        put_together(pieces.drop_last()) + pieces.last()
    }
}

/// What a line carries, if it carries a piece.
pub open spec fn line_piece(line: Seq<char>) -> Option<Seq<char>> {
    match line_meaning(trim(line)) {
        SseMeaning::Delta(text) => Some(text),
        _ => None,
    }
}

/// The pieces that lines carry, in their order.
pub open spec fn pieces_in(lines: Seq<Seq<char>>) -> Seq<Seq<char>>
    decreases lines.len(),
{
    if lines.len() == 0 {
        Seq::empty()
    } else if line_piece(lines.last()) is Some {
        pieces_in(lines.drop_last()).push(line_piece(lines.last())->0)
    } else {
        pieces_in(lines.drop_last())
    }
}

/// The text so far is always what was there before and all pieces after it.
pub proof fn law_answer_is_its_pieces(lines: Seq<Seq<char>>, from: int, now: LinesRead, t: Seq<char>)
    requires
        0 <= from,
        now.text == t + put_together(now.deltas),
    ensures
        lines_read(lines, from, now).text == t + put_together(
            lines_read(lines, from, now).deltas,
        ),
    decreases lines.len() - from,
{
    if from < lines.len() && !now.done && now.failed is None {
        match line_meaning(trim(lines[from])) {
            SseMeaning::Skip => {
                law_answer_is_its_pieces(lines, from + 1, now, t);
            },
            SseMeaning::Delta(d) => {
                let next = LinesRead { text: now.text + d, deltas: now.deltas.push(d), ..now };
                assert(now.deltas.push(d).drop_last() =~= now.deltas);
                assert(next.text =~= t + put_together(next.deltas));
                law_answer_is_its_pieces(lines, from + 1, next, t);
            },
            _ => {},
        }
    }
}

/// Reading is done line by line: where no line ends the stream or breaks it, the answer is the
/// text so far and the texts of all events, in their order and none left out.
pub proof fn law_every_event_counts(lines: Seq<Seq<char>>, from: int, now: LinesRead)
    requires
        0 <= from <= lines.len(),
        !now.done,
        now.failed is None,
        forall|i: int|
            from <= i < lines.len() ==> !(line_meaning(trim(#[trigger] lines[i])) is Done)
                && !(line_meaning(trim(lines[i])) is NotJson),
    ensures
        lines_read(lines, from, now).deltas == now.deltas + pieces_in(lines.skip(from)),
        !lines_read(lines, from, now).done,
        lines_read(lines, from, now).failed is None,
    decreases lines.len() - from,
{
    let rest = lines.skip(from);
    if from < lines.len() {
        assert(lines[from] == rest[0]);
        lemma_pieces_from_the_front(rest);
        assert(rest.skip(1) =~= lines.skip(from + 1));
        match line_meaning(trim(lines[from])) {
            SseMeaning::Skip => {
                law_every_event_counts(lines, from + 1, now);
            },
            SseMeaning::Delta(d) => {
                let next = LinesRead { text: now.text + d, deltas: now.deltas.push(d), ..now };
                law_every_event_counts(lines, from + 1, next);
                assert(now.deltas.push(d) + pieces_in(rest.skip(1)) =~= now.deltas + (seq![d]
                    + pieces_in(rest.skip(1))));
            },
            _ => {},
        }
    } else {
        assert(rest =~= Seq::empty());
        assert(now.deltas + Seq::<Seq<char>>::empty() =~= now.deltas);
    }
}

proof fn lemma_pieces_from_the_front(lines: Seq<Seq<char>>)
    requires
        lines.len() > 0,
    ensures
        pieces_in(lines) == (if line_piece(lines[0]) is Some {
            seq![line_piece(lines[0])->0]
        } else {
            Seq::empty()
        }) + pieces_in(lines.skip(1)),
    decreases lines.len(),
{
    let head: Seq<Seq<char>> = if line_piece(lines[0]) is Some {
        seq![line_piece(lines[0])->0]
    } else {
        Seq::empty()
    };
    let tail = lines.skip(1);
    if lines.len() == 1 {
        assert(lines.drop_last() =~= Seq::empty());
        assert(tail =~= Seq::empty());
        assert(pieces_in(lines) =~= head + pieces_in(tail));
    } else {
        lemma_pieces_from_the_front(lines.drop_last());
        assert(lines.drop_last().skip(1) =~= tail.drop_last());
        assert(lines.last() == tail.last());
        assert(pieces_in(lines) =~= head + pieces_in(tail));
    }
}

/// The end mark ends the answer: what comes after it is not read.
pub proof fn law_nothing_is_read_after_the_end_mark(
    lines: Seq<Seq<char>>,
    from: int,
    now: LinesRead,
    more: Seq<Seq<char>>,
)
    requires
        0 <= from <= lines.len(),
        lines_read(lines, from, now).done || lines_read(lines, from, now).failed is Some,
    ensures
        lines_read(lines + more, from, now) == lines_read(lines, from, now),
    decreases lines.len() - from,
{
    if from < lines.len() {
        assert((lines + more)[from] == lines[from]);
        if !now.done && now.failed is None {
            match line_meaning(trim(lines[from])) {
                SseMeaning::Skip => {
                    law_nothing_is_read_after_the_end_mark(lines, from + 1, now, more);
                },
                SseMeaning::Delta(d) => {
                    let next = LinesRead { text: now.text + d, deltas: now.deltas.push(d), ..now };
                    law_nothing_is_read_after_the_end_mark(lines, from + 1, next, more);
                },
                _ => {},
            }
        }
    }
}

/// A chunk adds its pieces to the text, and a chunk that comes after the end mark adds nothing.
pub proof fn law_chunk_adds_its_pieces(s: StreamState, chunk: Seq<u8>, flush: bool)
    ensures
        chunk_outcome(s, chunk, flush).0.text == s.text + put_together(
            chunk_pieces(s, chunk, flush),
        ),
        s.done ==> chunk_outcome(s, chunk, flush).0 == s && chunk_pieces(s, chunk, flush).len()
            == 0 && chunk_error(s, chunk, flush) is None,
        chunk_outcome(s, chunk, flush).1 matches Ok(pieces) ==> pieces == chunk_pieces(
            s,
            chunk,
            flush,
        ),
{
    assert(s.text + Seq::<char>::empty() =~= s.text);
    if !s.done {
        if let Some(lines) = drain_result(s.rest + chunk, flush).lines {
            law_answer_is_its_pieces(lines, 0, reading_from(s.text), s.text);
        }
    }
}

/// Bytes without a line feed stay in the buffer and complete no line; at a line feed the line
/// before it comes out, without its carriage return, and the rest is drained in the same way.
pub proof fn law_lines_end_at_line_feeds(line: Seq<u8>, rest: Seq<u8>)
    requires
        !line.contains(10),
    ensures
        drained(line, Seq::empty()).lines == Some(Seq::<Seq<char>>::empty()),
        drained(line, Seq::empty()).rest == line,
        line.len() > 0 && line.last() == 13 && valid_utf8(line.drop_last()) ==> drained(
            line.push(10) + rest,
            Seq::empty(),
        ) == drained(rest, seq![decode_utf8(line.drop_last())]),
        !(line.len() > 0 && line.last() == 13) && valid_utf8(line) ==> drained(
            line.push(10) + rest,
            Seq::empty(),
        ) == drained(rest, seq![decode_utf8(line)]),
{
    lemma_no_feed(line, 0);
    let all = line.push(10) + rest;
    let n = line.len() as int;
    lemma_feed_here(all, 0, n);
    assert(all.take(n) =~= line);
    assert(all.skip(n + 1) =~= rest);
    assert(Seq::<Seq<char>>::empty().push(decode_utf8(line)) =~= seq![decode_utf8(line)]);
    if line.len() > 0 {
        assert(Seq::<Seq<char>>::empty().push(decode_utf8(line.drop_last())) =~= seq![
            decode_utf8(line.drop_last()),
        ]);
    }
}

proof fn lemma_no_feed(bytes: Seq<u8>, from: int)
    requires
        0 <= from,
        !bytes.contains(10),
    ensures
        feed_at(bytes, from) is None,
    decreases bytes.len() - from,
{
    if from < bytes.len() {
        assert(bytes[from] != 10);
        lemma_no_feed(bytes, from + 1);
    }
}

proof fn lemma_feed_here(bytes: Seq<u8>, from: int, at: int)
    requires
        0 <= from <= at < bytes.len(),
        bytes[at] == 10,
        forall|i: int| from <= i < at ==> bytes[i] != 10,
    ensures
        feed_at(bytes, from) == Some(at),
    decreases at - from,
{
    if from < at {
        lemma_feed_here(bytes, from + 1, at);
    }
}

// ---- what is kept of an answer

proof fn lemma_tag_here(s: Seq<char>, tag: Seq<char>, from: int, at: int)
    requires
        0 <= from <= at,
        at + tag.len() <= s.len(),
        tag.len() > 0,
        tag[0] == '<',
        s.subrange(at, at + tag.len()) == tag,
        forall|i: int| from <= i < at ==> s[i] != '<',
    ensures
        first_at(s, tag, from) == Some(at),
    decreases at - from,
{
    if from < at {
        if stands_at(s, tag, from) {
            assert(s.subrange(from, from + tag.len())[0] == s[from]);
        }
        lemma_tag_here(s, tag, from + 1, at);
    }
}

proof fn lemma_no_tag(s: Seq<char>, tag: Seq<char>, from: int)
    requires
        0 <= from,
        tag.len() > 0,
        tag[0] == '<',
        forall|i: int| from <= i < s.len() ==> s[i] != '<',
    ensures
        first_at(s, tag, from) is None,
    decreases s.len() - from,
{
    if from + tag.len() <= s.len() {
        if stands_at(s, tag, from) {
            assert(s.subrange(from, from + tag.len())[0] == s[from]);
        }
        lemma_no_tag(s, tag, from + 1);
    }
}

/// A thinking block is cut out, and what stands around it is kept; a block that is not closed
/// takes the rest with it.
pub proof fn law_thinking_is_cut_out(before: Seq<char>, thought: Seq<char>, after: Seq<char>)
    requires
        !before.contains('<'),
        !thought.contains('<'),
        !after.contains('<'),
    ensures
        kept_answer(before + "<think>"@ + thought + "</think>"@ + after) == trim(before + after),
        kept_answer(before + "<think>"@ + thought) == trim(before),
        kept_answer(before) == trim(before),
{
    reveal_strlit("<think>");
    reveal_strlit("</think>");
    let open = before + "<think>"@ + thought;
    let all = open + "</think>"@ + after;
    let n = before.len() as int;
    let k = thought.len() as int;
    assert forall|i: int| 0 <= i < n implies before[i] != '<' by {
        assert(before.contains(before[i]));
    }
    assert forall|i: int| 0 <= i < k implies thought[i] != '<' by {
        assert(thought.contains(thought[i]));
    }
    assert forall|i: int| 0 <= i < after.len() implies after[i] != '<' by {
        assert(after.contains(after[i]));
    }
    lemma_no_tag(before, "<think>"@, 0);
    // The block that is not closed.
    assert(open.subrange(n, n + 7) =~= "<think>"@);
    lemma_tag_here(open, "<think>"@, 0, n);
    lemma_no_closing(open, n, k, before, thought);
    assert(open.take(n) =~= before);
    // The block that is closed.
    assert(all.subrange(n, n + 7) =~= "<think>"@);
    lemma_tag_here(all, "<think>"@, 0, n);
    assert(all[n] == '<' && all[n + 1] == 't');
    assert(all.subrange(n + 7 + k, n + 7 + k + 8) =~= "</think>"@);
    if stands_at(all, "</think>"@, n) {
        assert(all.subrange(n, n + 8)[1] == all[n + 1]);
    }
    assert forall|i: int| n + 1 <= i < n + 7 + k implies all[i] != '<' by {
        if i < n + 7 {
            assert(all[i] == "<think>"@[i - n]);
        } else {
            assert(all[i] == thought[i - n - 7]);
        }
    }
    lemma_tag_here(all, "</think>"@, n + 1, n + 7 + k);
    assert(first_at(all, "</think>"@, n) == Some(n + 7 + k));
    let rest = all.take(n) + all.skip(n + 7 + k + 8);
    assert(rest =~= before + after);
    lemma_no_tag(rest, "<think>"@, 0);
    assert(without_thinking(all) == without_thinking(rest));
}

proof fn lemma_no_closing(open: Seq<char>, n: int, k: int, before: Seq<char>, thought: Seq<char>)
    requires
        open == before + "<think>"@ + thought,
        n == before.len(),
        k == thought.len(),
        forall|i: int| 0 <= i < k ==> thought[i] != '<',
    ensures
        first_at(open, "</think>"@, n) is None,
{
    reveal_strlit("<think>");
    reveal_strlit("</think>");
    assert(open[n + 1] == 't');
    if stands_at(open, "</think>"@, n) {
        assert(open.subrange(n, n + 8)[1] == open[n + 1]);
    }
    assert forall|i: int| n + 1 <= i < open.len() implies open[i] != '<' by {
        if i < n + 7 {
            assert(open[i] == "<think>"@[i - n]);
        } else {
            assert(open[i] == thought[i - n - 7]);
        }
    }
    lemma_no_tag(open, "</think>"@, n + 1);
}

/// What is asked of the model is what the options say, but for a second and a token at least.
pub proof fn law_options_reach_the_model(c: LlmRuntimeConfig, o: LlmOptions)
    requires
        asks(c, o),
    ensures
        c.model@ == o.model@,
        c.system_prompt@ == o.system_prompt@,
        c.temperature == o.temperature,
        c.overlay_stream == o.overlay_stream,
        o.max_tokens >= 1 ==> c.max_tokens == o.max_tokens,
        c.max_tokens >= 1,
        1 <= o.timeout_seconds <= 1_000_000_000 ==> c.timeout_ms == o.timeout_seconds * 1000,
        c.timeout_ms >= 1000,
{
}

/// An address below a base keeps the base's path: the leaf is joined behind a slash, which is
/// added only where the path has none.
pub proof fn law_addresses_lie_below_the_base(base: Seq<char>, leaf: Seq<char>, failure: Seq<char>)
    ensures
        url_path_of(base) is None ==> below(base, leaf, failure) == Err::<Seq<char>, Seq<char>>(
            failure,
        ),
        url_path_of(base) matches Some(path) ==> {
            let open = if path.len() > 0 && path[path.len() - 1] == '/' {
                Some(base)
            } else {
                url_with_path(base, path.push('/'))
            };
            below(base, leaf, failure) == if open is Some && url_joined(open->0, leaf) is Ok {
                url_joined(open->0, leaf)
            } else {
                Err(failure)
            }
        },
{
    reveal_strlit("/");
    if let Some(path) = url_path_of(base) {
        assert(path.push('/') =~= path + "/"@);
    }
}

/// The news of pieces says them all, in their order, of their session.
pub proof fn law_news_tells_every_piece(
    session_id: SessionId,
    deltas: Seq<Seq<char>>,
    news: Seq<LlmProgress>,
    i: int,
)
    requires
        delta_news(session_id, deltas, news),
        0 <= i < deltas.len(),
    ensures
        news.len() == deltas.len(),
        news[i] matches LlmProgress::Delta { session_id: id, delta } && id == session_id && delta@
            == deltas[i],
{
}

// ---- what reading does

/// Reading an event gives its text as a piece, whatever the text is, as long as there is any; the
/// pieces of a stream are what its events carry.
pub proof fn law_reading_an_event_gives_its_text(payload: &str, event: JsonValue, text: Seq<char>)
    requires
        carries(event.tree(), text),
    ensures
        forall|r: Result<SseStep, String>| #[trigger]
            call_ensures(read_payload, (payload, Some(event)), r) ==> {
                &&& text.len() > 0 ==> (r matches Ok(SseStep::Delta { delta }) && delta@ == text)
                &&& text.len() == 0 ==> r == Ok::<SseStep, String>(SseStep::Skip)
            },
        forall|r: Result<SseStep, String>| #[trigger]
            call_ensures(read_payload, (payload, None::<JsonValue>), r) ==> r is Err,
{
    assert forall|r: Result<SseStep, String>| #[trigger]
        call_ensures(read_payload, (payload, None::<JsonValue>), r) implies r is Err by {
        if let Ok(step) = r {
            assert(payload_meaning(None) == step_meaning(step));
        }
    }
}

/// A chunk adds to the answer just the pieces that it hands out, whether or not it is refused;
/// nothing that was handed out before is touched.
pub proof fn law_fed_pieces_are_the_answer(chunk: &Vec<u8>)
    ensures
        forall|s: &mut AnswerStream, pieces: &mut Vec<String>, r: Result<(), String>| #[trigger]
            call_ensures(AnswerStream::feed_into, (s, chunk, pieces), r) ==> {
                &&& final(pieces)@.len() >= pieces@.len()
                &&& texts(final(pieces)@).take(pieces@.len() as int) == texts(pieces@)
                &&& final(s).state().text == s.state().text + put_together(
                    texts(final(pieces)@).skip(pieces@.len() as int),
                )
                &&& s.state().done ==> final(pieces)@.len() == pieces@.len() && r is Ok
            },
{
    assert forall|s: &mut AnswerStream, pieces: &mut Vec<String>, r: Result<(), String>| #[trigger]
        call_ensures(AnswerStream::feed_into, (s, chunk, pieces), r) implies {
        &&& final(pieces)@.len() >= pieces@.len()
        &&& texts(final(pieces)@).take(pieces@.len() as int) == texts(pieces@)
        &&& final(s).state().text == s.state().text + put_together(
            texts(final(pieces)@).skip(pieces@.len() as int),
        )
        &&& s.state().done ==> final(pieces)@.len() == pieces@.len() && r is Ok
    } by {
        let added = chunk_pieces(s.state(), chunk@, false);
        law_chunk_adds_its_pieces(s.state(), chunk@, false);
        assert(texts(final(pieces)@) == texts(pieces@) + added);
        assert(texts(final(pieces)@).len() == final(pieces)@.len());
        assert(texts(pieces@).len() == pieces@.len());
        assert((texts(pieces@) + added).take(pieces@.len() as int) =~= texts(pieces@));
        assert((texts(pieces@) + added).skip(pieces@.len() as int) =~= added);
    }
}

/// What is kept of an answer is what is left once its thinking is cut out.
pub proof fn law_sanitizing_cuts_out_thinking(raw: &str, before: Seq<char>, thought: Seq<char>, after: Seq<char>)
    requires
        raw@ == before + "<think>"@ + thought + "</think>"@ + after,
        !before.contains('<'),
        !thought.contains('<'),
        !after.contains('<'),
    ensures
        forall|r: String| #[trigger]
            call_ensures(sanitize_model_answer, (raw,), r) ==> r@ == trim(before + after),
{
    law_thinking_is_cut_out(before, thought, after);
}

/// Where answers are shown as they come, every piece is told; where they are not, none is.
pub proof fn law_pieces_are_told_where_wanted(c: &LlmRuntimeConfig, id: SessionId, deltas: Vec<String>)
    ensures
        forall|r: Vec<LlmProgress>| #[trigger]
            call_ensures(LlmRuntimeConfig::news_of, (c, id, deltas), r) ==> {
                &&& !c.overlay_stream ==> r@.len() == 0
                &&& c.overlay_stream ==> r@.len() == deltas@.len() && forall|i: int|
                    0 <= i < deltas@.len() ==> (#[trigger] r@[i] matches LlmProgress::Delta {
                        session_id,
                        delta,
                    } && session_id == id && delta@ == deltas@[i]@)
            },
{
    assert forall|r: Vec<LlmProgress>| #[trigger]
        call_ensures(LlmRuntimeConfig::news_of, (c, id, deltas), r)
            && c.overlay_stream implies r@.len() == deltas@.len() && forall|i: int|
        0 <= i < deltas@.len() ==> (#[trigger] r@[i] matches LlmProgress::Delta {
            session_id,
            delta,
        } && session_id == id && delta@ == deltas@[i]@) by {
        assert(texts(deltas@).len() == deltas@.len());
        assert forall|i: int| 0 <= i < deltas@.len() implies (#[trigger] r@[i]
            matches LlmProgress::Delta { session_id, delta } && session_id == id && delta@
            == deltas@[i]@) by {
            assert(texts(deltas@)[i] == deltas@[i]@);
        }
    }
}

} // verus!
