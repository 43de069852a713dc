//! Construction of the two JSON request bodies: the retrieval request and
//! the streaming chat-completion request. The JSON text is built directly,
//! with string contents escaped as JSON requires, so that the exact bytes
//! put on the wire are pinned down by the contracts.

use vstd::prelude::*;

verus! {

use vstd::string::StrSliceExecFns;
use vstd::string::StringExecFns;
use crate::trusted::push_char;

/// The lower-case hexadecimal digit for `n`.
pub open spec fn hex_digit(n: int) -> char
    recommends
        0 <= n < 16,
{
    if n == 0 { '0' } else if n == 1 { '1' } else if n == 2 { '2' } else if n == 3 { '3' }
    else if n == 4 { '4' } else if n == 5 { '5' } else if n == 6 { '6' } else if n == 7 { '7' }
    else if n == 8 { '8' } else if n == 9 { '9' } else if n == 10 { 'a' } else if n == 11 { 'b' }
    else if n == 12 { 'c' } else if n == 13 { 'd' } else if n == 14 { 'e' } else { 'f' }
}

/// How one character appears inside a JSON string literal: quotes and
/// backslashes get a two-character escape, control characters get their
/// short escape where JSON has one and a `\u00XX` escape otherwise, and
/// every other character stands for itself.
pub open spec fn escape_char(c: char) -> Seq<char> {
    if c == '"' { seq!['\\', '"'] }
    else if c == '\\' { seq!['\\', '\\'] }
    else if c == '\u{8}' { seq!['\\', 'b'] }
    else if c == '\t' { seq!['\\', 't'] }
    else if c == '\n' { seq!['\\', 'n'] }
    else if c == '\u{c}' { seq!['\\', 'f'] }
    else if c == '\r' { seq!['\\', 'r'] }
    else if (c as u32) < 0x20 {
        seq!['\\', 'u', '0', '0', hex_digit(c as u32 as int / 16), hex_digit(c as u32 as int % 16)]
    } else {
        seq![c]
    }
}

/// The JSON-escaped form of a whole string.
pub open spec fn spec_escape(s: Seq<char>) -> Seq<char>
    decreases s.len(),
{
    if s.len() == 0 {
        Seq::empty()
    } else {
        escape_char(s[0]) + spec_escape(s.drop_first())
    }
}

proof fn lemma_escape_push(s: Seq<char>, c: char)
    ensures
        spec_escape(s.push(c)) == spec_escape(s) + escape_char(c),
    decreases s.len(),
{
    if s.len() == 0 {
        assert(s.push(c) =~= seq![c]);
        assert(spec_escape(seq![c]) =~= escape_char(c)) by {
            reveal_with_fuel(spec_escape, 2);
            assert(seq![c].drop_first() =~= Seq::<char>::empty());
            assert(seq![c][0] == c);
        }
        assert(spec_escape(s) + escape_char(c) =~= escape_char(c));
    } else {
        lemma_escape_push(s.drop_first(), c);
        assert(s.push(c).drop_first() =~= s.drop_first().push(c));
        assert(s.push(c)[0] == s[0]);
        assert(spec_escape(s.push(c)) =~= spec_escape(s) + escape_char(c));
    }
}

/// The lower-case hexadecimal digit character for `n`.
fn hex_digit_char(n: u32) -> (c: char)
    requires
        n < 16,
    ensures
        c == hex_digit(n as int),
{
    if n == 0 { '0' } else if n == 1 { '1' } else if n == 2 { '2' } else if n == 3 { '3' }
    else if n == 4 { '4' } else if n == 5 { '5' } else if n == 6 { '6' } else if n == 7 { '7' }
    else if n == 8 { '8' } else if n == 9 { '9' } else if n == 10 { 'a' } else if n == 11 { 'b' }
    else if n == 12 { 'c' } else if n == 13 { 'd' } else if n == 14 { 'e' } else { 'f' }
}

/// Appends the JSON-escaped form of `c` to `out`.
fn append_escaped_char(out: &mut String, c: char)
    ensures
        final(out)@ == old(out)@ + escape_char(c),
{
    proof {
        reveal_strlit("\\\"");
        reveal_strlit("\\\\");
        reveal_strlit("\\b");
        reveal_strlit("\\t");
        reveal_strlit("\\n");
        reveal_strlit("\\f");
        reveal_strlit("\\r");
        reveal_strlit("\\u00");
    }
    if c == '"' {
        out.append("\\\"");
        assert(out@ =~= old(out)@ + escape_char(c));
    } else if c == '\\' {
        out.append("\\\\");
        assert(out@ =~= old(out)@ + escape_char(c));
    } else if c == '\u{8}' {
        out.append("\\b");
        assert(out@ =~= old(out)@ + escape_char(c));
    } else if c == '\t' {
        out.append("\\t");
        assert(out@ =~= old(out)@ + escape_char(c));
    } else if c == '\n' {
        out.append("\\n");
        assert(out@ =~= old(out)@ + escape_char(c));
    } else if c == '\u{c}' {
        out.append("\\f");
        assert(out@ =~= old(out)@ + escape_char(c));
    } else if c == '\r' {
        out.append("\\r");
        assert(out@ =~= old(out)@ + escape_char(c));
    } else if (c as u32) < 0x20 {
        out.append("\\u00");
        let n: u32 = c as u32;
        push_char(out, hex_digit_char(n / 16));
        push_char(out, hex_digit_char(n % 16));
        assert(out@ =~= old(out)@ + escape_char(c));
    } else {
        push_char(out, c);
        assert(out@ =~= old(out)@ + escape_char(c));
    }
}

/// Appends the JSON-escaped form of `s` to `out`.
fn append_escaped(out: &mut String, s: &str)
    ensures
        final(out)@ == old(out)@ + spec_escape(s@),
{
    let n: usize = s.unicode_len();
    let mut i: usize = 0;
    while i < n
        invariant
            0 <= i <= n,
            n == s@.len(),
            out@ == old(out)@ + spec_escape(s@.take(i as int)),
        decreases n - i,
    {
        let c = s.get_char(i);
        append_escaped_char(out, c);
        proof {
            lemma_escape_push(s@.take(i as int), s@[i as int]);
            assert(s@.take(i as int).push(s@[i as int]) =~= s@.take(i + 1 as int));
            assert(out@ =~= old(out)@ + spec_escape(s@.take(i + 1 as int)));
        }
        i = i + 1;
    }
    proof {
        assert(s@.take(n as int) =~= s@);
    }
}

/// The name of the single supported slash command.
pub open spec fn spec_command_name() -> Seq<char> {
    "rag"@
}

/// The fixed message shown when the joined query is empty.
pub open spec fn spec_prompt_text() -> Seq<char> {
    "Error: Query not provided. Please enter a prompt."@
}

/// The fixed retrieval endpoint.
pub open spec fn spec_retrieval_url() -> Seq<char> {
    "http://127.0.0.1:8000/v1/rags/search"@
}

/// The fixed completion endpoint.
pub open spec fn spec_completion_url() -> Seq<char> {
    "http://127.0.0.1:8000/v1/chat/completions"@
}

/// The retrieval endpoint as a `String`.
pub fn retrieval_url() -> (r: String)
    ensures
        r@ == spec_retrieval_url(),
{
    String::from_str("http://127.0.0.1:8000/v1/rags/search")
}

/// The completion endpoint as a `String`.
pub fn completion_url() -> (r: String)
    ensures
        r@ == spec_completion_url(),
{
    String::from_str("http://127.0.0.1:8000/v1/chat/completions")
}

/// The JSON body of the retrieval request: the fixed collection name and
/// the user query.
pub open spec fn spec_search_body(q: Seq<char>) -> Seq<char> {
    "{\"name\":\"deno2\",\"input\":\""@ + spec_escape(q) + "\"}"@
}

/// Builds the retrieval request body for `query`.
pub fn search_body(query: &str) -> (r: String)
    ensures
        r@ == spec_search_body(query@),
{
    let mut out = String::from_str("{\"name\":\"deno2\",\"input\":\"");
    append_escaped(&mut out, query);
    out.append("\"}");
    out
}

/// The system-message text: with retrieved context, a fixed instructional
/// preamble followed by the context; without, a fixed generic preamble.
pub open spec fn spec_system_content(ctx: Option<Seq<char>>) -> Seq<char> {
    match ctx {
        Some(c) =>
            "You are a helpful assistant, expert in Deno, Fresh, and TypeScript. Use the following context to answer:\n\n"@
            + c,
        None => "You are a helpful assistant, expert in Deno, Fresh, and TypeScript."@,
    }
}

/// Builds the system-message text for an optionally retrieved context.
pub fn system_content(ctx: &Option<String>) -> (r: String)
    ensures
        match ctx {
            Some(c) => r@ == spec_system_content(Some(c@)),
            None => r@ == spec_system_content(None),
        },
{
    match ctx {
        Some(c) => {
            let mut s = String::from_str(
                "You are a helpful assistant, expert in Deno, Fresh, and TypeScript. Use the following context to answer:\n\n",
            );
            s.append(c.as_str());
            s
        },
        None => String::from_str(
            "You are a helpful assistant, expert in Deno, Fresh, and TypeScript.",
        ),
    }
}

/// The JSON body of the completion request: the fixed model identifier,
/// one system message followed by one user message, and the fixed
/// sampling temperature.
pub open spec fn spec_completion_body(q: Seq<char>, ctx: Option<Seq<char>>) -> Seq<char> {
    "{\"model\":\"openai:gpt-4o\",\"messages\":[{\"role\":\"system\",\"content\":\""@
        + spec_escape(spec_system_content(ctx))
        + "\"},{\"role\":\"user\",\"content\":\""@
        + spec_escape(q)
        + "\"}],\"temperature\":0.1}"@
}

/// Builds the completion request body for `query` and an optionally
/// retrieved context.
pub fn completion_body(query: &str, ctx: &Option<String>) -> (r: String)
    ensures
        match ctx {
            Some(c) => r@ == spec_completion_body(query@, Some(c@)),
            None => r@ == spec_completion_body(query@, None),
        },
{
    let sys = system_content(ctx);
    let mut out = String::from_str(
        "{\"model\":\"openai:gpt-4o\",\"messages\":[{\"role\":\"system\",\"content\":\"",
    );
    append_escaped(&mut out, sys.as_str());
    out.append("\"},{\"role\":\"user\",\"content\":\"");
    append_escaped(&mut out, query);
    out.append("\"}],\"temperature\":0.1}");
    out
}

} // verus!
