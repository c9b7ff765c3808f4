//! The control surface's HTTP request head: reading it chunk by chunk up to
//! the blank line that ends the headers, within a size limit, and taking the
//! method and path from its request line.
use vstd::prelude::*;
use vstd::string::*;
use vstd::utf8::*;

use crate::text::{owned, utf8};

verus! {

broadcast use {vstd::string::group_string_axioms, vstd::slice::group_slice_axioms};

/// How many header bytes a request may send without ending its headers.
pub const REQUEST_HEADER_LIMIT: usize = 8192;

/// The text of a byte string as `String::from_utf8_lossy` decodes it: every
/// maximal ill-formed UTF-8 sequence stands as U+FFFD.
pub uninterp spec fn utf8_lossy(bytes: Seq<u8>) -> Seq<char>;

/// Decodes bytes through `String::from_utf8_lossy`. Its result depends on the
/// bytes alone; well-formed UTF-8 decodes to the text it encodes.
#[verifier::external_body]
fn lossy_text(bytes: &[u8]) -> (r: String)
    ensures
        r@ == utf8_lossy(bytes@),
        valid_utf8(bytes@) ==> utf8(r@) == bytes@,
{
    String::from_utf8_lossy(bytes).into_owned()
}

/// The characters with the Unicode `White_Space` property, which
/// `char::is_whitespace` and so `str::split_whitespace` go by.
pub open spec fn is_white_space(c: char) -> bool {
    let v = c as u32;
    ||| 9 <= v <= 13
    ||| v == 32
    ||| v == 0x85
    ||| v == 0xA0
    ||| v == 0x1680
    ||| 0x2000 <= v <= 0x200A
    ||| v == 0x2028
    ||| v == 0x2029
    ||| v == 0x202F
    ||| v == 0x205F
    ||| v == 0x3000
}

/// Whether `c` is white space.
pub fn is_white_space_char(c: char) -> (r: bool)
    ensures
        r == is_white_space(c),
{
    let v = c as u32;
    (9 <= v && v <= 13) || v == 32 || v == 0x85 || v == 0xA0 || v == 0x1680 || (0x2000 <= v && v
        <= 0x200A) || v == 0x2028 || v == 0x2029 || v == 0x202F || v == 0x205F || v == 0x3000
}

fn chars_of(text: &str) -> (r: Vec<char>)
    ensures
        r@ == text@,
{
    let mut out: Vec<char> = Vec::new();
    for c in it: text.chars()
        invariant
            out@ == it.seq().take(it.index() as int),
    {
        out.push(c);
    }
    out
}


/// The first index at or after `from` whose character is white space
/// (`white`) or is not (`!white`); the length when there is none.
pub open spec fn next_index(s: Seq<char>, from: int, white: bool) -> int
    decreases s.len() - from,
{
    if from < 0 || from >= s.len() {
        s.len() as int
    } else if is_white_space(s[from]) == white {
        from
    } else {
        next_index(s, from + 1, white)
    }
}

proof fn lemma_next_index(s: Seq<char>, from: int, white: bool)
    requires
        0 <= from <= s.len(),
    ensures
        from <= next_index(s, from, white) <= s.len(),
        next_index(s, from, white) < s.len() ==> is_white_space(s[next_index(s, from, white)])
            == white,
        forall|j: int| from <= j < next_index(s, from, white) ==> is_white_space(#[trigger] s[j])
            != white,
    decreases s.len() - from,
{
    if from < s.len() && is_white_space(s[from]) != white {
        lemma_next_index(s, from + 1, white);
    }
}

fn scan(s: &Vec<char>, from: usize, white: bool) -> (r: usize)
    requires
        from <= s@.len(),
    ensures
        r == next_index(s@, from as int, white),
{
    let mut i = from;
    while i < s.len()
        invariant
            from <= i <= s@.len(),
            next_index(s@, from as int, white) == next_index(s@, i as int, white),
        decreases s@.len() - i,
    {
        if is_white_space_char(s[i]) == white {
            return i;
        }
        i = i + 1;
    }
    i
}

/// The index of the first line feed in `s`, or its length when there is none.
pub open spec fn line_end(s: Seq<char>) -> int
    decreases s.len(),
{
    if s.len() == 0 {
        0
    } else if s[0] == '\n' {
        0
    } else {
        1 + line_end(s.drop_first())
    }
}

fn scan_line_end(s: &Vec<char>) -> (r: usize)
    ensures
        r == line_end(s@),
        r <= s@.len(),
{
    let mut i: usize = 0;
    assert(s@.skip(0) =~= s@);
    while i < s.len()
        invariant
            i <= s@.len(),
            line_end(s@) == i + line_end(s@.skip(i as int)),
        decreases s@.len() - i,
    {
        assert(s@.skip(i as int)[0] == s@[i as int]);
        if s[i] == '\n' {
            return i;
        }
        assert(s@.skip(i as int).drop_first() =~= s@.skip(i + 1));
        i = i + 1;
    }
    assert(s@.skip(i as int) =~= Seq::<char>::empty());
    i
}

/// Why a request head is refused.
#[derive(Clone, Copy, Debug, PartialEq, Eq, Structural)]
pub enum HttpRequestError {
    HeadersTooLarge,
    MissingRequestLine,
    MissingMethod,
    MissingPath,
}

/// The message a refused request head is answered with.
pub open spec fn request_error_text(e: HttpRequestError) -> Seq<char> {
    match e {
        HttpRequestError::HeadersTooLarge => "request headers exceed 8192 bytes"@,
        HttpRequestError::MissingRequestLine => "missing request line"@,
        HttpRequestError::MissingMethod => "missing request method"@,
        HttpRequestError::MissingPath => "missing request path"@,
    }
}

impl HttpRequestError {
    /// The message this refusal is answered with.
    pub fn message(&self) -> (r: String)
        ensures
            r@ == request_error_text(*self),
    {
        match self {
            HttpRequestError::HeadersTooLarge => owned("request headers exceed 8192 bytes"),
            HttpRequestError::MissingRequestLine => owned("missing request line"),
            HttpRequestError::MissingMethod => owned("missing request method"),
            HttpRequestError::MissingPath => owned("missing request path"),
        }
    }
}

/// The method and path of a request.
#[derive(Clone, Debug)]
pub struct HttpRequest {
    pub method: String,
    pub path: String,
}

/// The method and path of a request head's text: its first line split at
/// white space, the method first and the path second; a line feed ends the
/// line (a carriage return before it is white space).
pub open spec fn request_from_text_view(t: Seq<char>) -> Result<(Seq<char>, Seq<char>), HttpRequestError> {
    let line = t.take(line_end(t));
    let a = next_index(line, 0, false);
    let b = next_index(line, a, true);
    let c = next_index(line, b, false);
    let d = next_index(line, c, true);
    if t.len() == 0 {
        Err(HttpRequestError::MissingRequestLine)
    } else if a >= line.len() {
        Err(HttpRequestError::MissingMethod)
    } else if c >= line.len() {
        Err(HttpRequestError::MissingPath)
    } else {
        Ok((line.subrange(a, b), line.subrange(c, d)))
    }
}

/// Takes the method and path from the text of a request head.
pub fn request_from_text(text: &str) -> (r: Result<HttpRequest, HttpRequestError>)
    ensures
        match r {
            Ok(req) => request_from_text_view(text@) == Ok::<(Seq<char>, Seq<char>), HttpRequestError>(
                (req.method@, req.path@),
            ),
            Err(e) => request_from_text_view(text@) == Err::<(Seq<char>, Seq<char>), HttpRequestError>(e),
        },
{
    let chars = chars_of(text);
    if chars.len() == 0 {
        return Err(HttpRequestError::MissingRequestLine);
    }
    let end = scan_line_end(&chars);
    let mut line: Vec<char> = Vec::new();
    let mut i: usize = 0;
    while i < end
        invariant
            end <= chars@.len(),
            i <= end,
            line@ == chars@.subrange(0, i as int),
        decreases end - i,
    {
        line.push(chars[i]);
        assert(line@ =~= chars@.subrange(0, i + 1));
        i = i + 1;
    }
    assert(line@ =~= text@.take(line_end(text@)));
    let a = scan(&line, 0, false);
    if a >= line.len() {
        return Err(HttpRequestError::MissingMethod);
    }
    let b = scan(&line, a, true);
    proof {
        lemma_next_index(line@, 0, false);
        lemma_next_index(line@, a as int, true);
    }
    let c = scan(&line, b, false);
    if c >= line.len() {
        return Err(HttpRequestError::MissingPath);
    }
    let d = scan(&line, c, true);
    proof {
        lemma_next_index(line@, b as int, false);
        lemma_next_index(line@, c as int, true);
    }
    let method = text.substring_char(a, b);
    let path = text.substring_char(c, d);
    proof {
        assert(method@ =~= line@.subrange(a as int, b as int));
        assert(path@ =~= line@.subrange(c as int, d as int));
    }
    Ok(HttpRequest { method: owned(method), path: owned(path) })
}

/// The method and path of a request head, read from its bytes as
/// `String::from_utf8_lossy` decodes them.
pub fn parse_http_request(buffer: &[u8]) -> (r: Result<HttpRequest, HttpRequestError>)
    ensures
        match r {
            Ok(req) => request_from_text_view(utf8_lossy(buffer@)) == Ok::<
                (Seq<char>, Seq<char>),
                HttpRequestError,
            >((req.method@, req.path@)),
            Err(e) => request_from_text_view(utf8_lossy(buffer@)) == Err::<
                (Seq<char>, Seq<char>),
                HttpRequestError,
            >(e),
        },
{
    let text = lossy_text(buffer);
    request_from_text(text.as_str())
}


/// The four bytes from `i` on are the carriage return, line feed, carriage
/// return, line feed that end the headers.
pub open spec fn header_end_at(bytes: Seq<u8>, i: int) -> bool {
    &&& 0 <= i
    &&& i + 4 <= bytes.len()
    &&& bytes[i] == 13u8
    &&& bytes[i + 1] == 10u8
    &&& bytes[i + 2] == 13u8
    &&& bytes[i + 3] == 10u8
}

/// The headers have ended somewhere in `bytes`.
pub open spec fn has_header_end(bytes: Seq<u8>) -> bool {
    exists|i: int| #[trigger] header_end_at(bytes, i)
}

/// Whether the headers have ended in `bytes`.
pub fn contains_header_end(bytes: &Vec<u8>) -> (r: bool)
    ensures
        r == has_header_end(bytes@),
{
    let mut i: usize = 0;
    while bytes.len() >= 4 && i <= bytes.len() - 4
        invariant
            i <= bytes@.len(),
            forall|j: int| 0 <= j < i ==> !#[trigger] header_end_at(bytes@, j),
        decreases bytes@.len() - i,
    {
        if bytes[i] == 13 && bytes[i + 1] == 10 && bytes[i + 2] == 13 && bytes[i + 3] == 10 {
            assert(header_end_at(bytes@, i as int));
            return true;
        }
        i = i + 1;
    }
    assert forall|j: int| !#[trigger] header_end_at(bytes@, j) by {
        if j >= i as int {
            assert(j + 4 > bytes@.len());
        }
    }
    false
}

/// Where reading a request head stands after a chunk.
#[derive(Clone, Copy, Debug, PartialEq, Eq, Structural)]
pub enum ReadProgress {
    /// The peer sent nothing more: the head is what came so far.
    Ended,
    /// The headers have ended.
    HeadersComplete,
    /// The headers have not ended within the limit.
    TooLarge,
    /// The headers have not ended yet.
    NeedMore,
}

/// Takes in the next chunk that the peer sent (an empty one when it sent
/// nothing more) and says whether to read on.
pub fn absorb_chunk(buffer: &mut Vec<u8>, chunk: &[u8]) -> (r: ReadProgress)
    ensures
        chunk@.len() == 0 ==> final(buffer)@ == old(buffer)@ && r == ReadProgress::Ended,
        chunk@.len() > 0 ==> final(buffer)@ == old(buffer)@ + chunk@ && r == (if has_header_end(
            final(buffer)@,
        ) {
            ReadProgress::HeadersComplete
        } else if final(buffer)@.len() > REQUEST_HEADER_LIMIT {
            ReadProgress::TooLarge
        } else {
            ReadProgress::NeedMore
        }),
{
    if chunk.len() == 0 {
        return ReadProgress::Ended;
    }
    let ghost start = buffer@;
    let mut i: usize = 0;
    while i < chunk.len()
        invariant
            i <= chunk@.len(),
            buffer@ == start + chunk@.subrange(0, i as int),
        decreases chunk@.len() - i,
    {
        buffer.push(chunk[i]);
        assert(buffer@ =~= start + chunk@.subrange(0, i + 1));
        i = i + 1;
    }
    assert(chunk@.subrange(0, i as int) =~= chunk@);
    if contains_header_end(buffer) {
        ReadProgress::HeadersComplete
    } else if buffer.len() > REQUEST_HEADER_LIMIT {
        ReadProgress::TooLarge
    } else {
        ReadProgress::NeedMore
    }
}


/// `next_index` is pinned down by "none before, and the end or a hit".
pub proof fn lemma_next_index_at(s: Seq<char>, from: int, white: bool, k: int)
    requires
        0 <= from <= k <= s.len(),
        forall|j: int| from <= j < k ==> is_white_space(#[trigger] s[j]) != white,
        k == s.len() || is_white_space(s[k]) == white,
    ensures
        next_index(s, from, white) == k,
    decreases k - from,
{
    if from < k {
        lemma_next_index_at(s, from + 1, white, k);
    }
}

/// A text without a line feed in its first `k` characters has its first line
/// at least that long.
pub proof fn lemma_line_end_at_least(t: Seq<char>, k: int)
    requires
        0 <= k <= t.len(),
        forall|j: int| 0 <= j < k ==> #[trigger] t[j] != '\n',
    ensures
        k <= line_end(t) <= t.len(),
    decreases t.len(),
{
    if t.len() > 0 {
        if k > 0 {
            assert forall|j: int| 0 <= j < k - 1 implies #[trigger] t.drop_first()[j] != '\n' by {
                assert(t.drop_first()[j] == t[j + 1]);
            }
            lemma_line_end_at_least(t.drop_first(), k - 1);
        } else {
            lemma_line_end_at_least(t.drop_first(), 0);
        }
    }
}

} // verus!
