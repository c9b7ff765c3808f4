//! Parsing of the control listener's request targets: the split between path
//! and query, query parameters, numeric limits and percent-decoded path
//! components.
use vstd::prelude::*;
use vstd::utf8::*;

use crate::text::{
    bytes_equal, find_byte, first_index_of, lemma_first_index_of_bounds, split_around_ascii,
    str_equal, utf8,
};

verus! {

broadcast use {vstd::utf8::group_utf8_lib, vstd::slice::group_slice_axioms};

/// `?`
pub const QUESTION_MARK: u8 = 63;

/// `&`
pub const AMPERSAND: u8 = 38;

/// `=`
pub const EQUALS_SIGN: u8 = 61;

/// `%`
pub const PERCENT_SIGN: u8 = 37;

/// `+`
pub const PLUS_SIGN: u8 = 43;

/// The history limit used by sandbox replay when the query gives none.
pub const DEFAULT_REPLAY_LIMIT: usize = 100;

/// The path part of a request target: everything before the first `?`.
pub open spec fn target_path(target: Seq<u8>) -> Seq<u8> {
    target.subrange(0, first_index_of(target, QUESTION_MARK) as int)
}

/// The query part of a request target: everything after the first `?`, if there is one.
pub open spec fn target_query(target: Seq<u8>) -> Option<Seq<u8>> {
    let i = first_index_of(target, QUESTION_MARK);
    if i < target.len() {
        Some(target.subrange(i as int + 1, target.len() as int))
    } else {
        None
    }
}

/// Splits a request target into its path and its query.
pub fn split_query(path: &str) -> (r: (&str, Option<&str>))
    ensures
        utf8(r.0@) == target_path(utf8(path@)),
        match r.1 {
            Some(q) => target_query(utf8(path@)) == Some(utf8(q@)),
            None => target_query(utf8(path@)) is None,
        },
{
    let bytes = path.as_bytes();
    let i = find_byte(bytes, QUESTION_MARK);
    proof {
        lemma_first_index_of_bounds(bytes@, QUESTION_MARK);
    }
    if i < bytes.len() {
        let (head, tail) = split_around_ascii(path, i);
        (head, Some(tail))
    } else {
        assert(utf8(path@).subrange(0, i as int) =~= utf8(path@));
        (path, None)
    }
}

/// The value of the first `key=value` pair of a query whose key is `key`.
/// Pairs are separated by `&`; a pair without `=` is skipped.
pub open spec fn query_value(query: Seq<u8>, key: Seq<u8>) -> Option<Seq<u8>>
    decreases query.len(),
{
    let end = first_index_of(query, AMPERSAND);
    let pair = query.subrange(0, end as int);
    let eq = first_index_of(pair, EQUALS_SIGN);
    if end <= query.len() && eq < pair.len() && pair.subrange(0, eq as int) == key {
        Some(pair.subrange(eq as int + 1, pair.len() as int))
    } else if end < query.len() {
        query_value(query.subrange(end as int + 1, query.len() as int), key)
    } else {
        None
    }
}

/// The value of parameter `key`, as `query_value` gives it, when there is a query.
pub open spec fn parameter_value(query: Option<Seq<u8>>, key: Seq<u8>) -> Option<Seq<u8>> {
    match query {
        Some(q) => query_value(q, key),
        None => None,
    }
}

/// The bytes of an optional text.
pub open spec fn opt_utf8(s: Option<&str>) -> Option<Seq<u8>> {
    match s {
        Some(t) => Some(utf8(t@)),
        None => None,
    }
}

/// Looks up `key` among the `&`-separated `key=value` pairs of a query.
pub fn query_parameter<'a>(query: Option<&'a str>, key: &str) -> (r: Option<&'a str>)
    ensures
        opt_utf8(r) == parameter_value(opt_utf8(query), utf8(key@)),
{
    let q = match query {
        Some(q) => q,
        None => {
            return None;
        },
    };
    let ghost kb = utf8(key@);
    let ghost whole = utf8(q@);
    let mut rest: &'a str = q;
    loop
        invariant
            query == Some(q),
            kb == utf8(key@),
            whole == utf8(q@),
            query_value(whole, kb) == query_value(utf8(rest@), kb),
        decreases utf8(rest@).len(),
    {
        let rb = rest.as_bytes();
        let end = find_byte(rb, AMPERSAND);
        proof {
            lemma_first_index_of_bounds(rb@, AMPERSAND);
        }
        let (pair, tail, more) = if end < rb.len() {
            let (p, t) = split_around_ascii(rest, end);
            (p, t, true)
        } else {
            assert(rb@.subrange(0, end as int) =~= rb@);
            (rest, rest, false)
        };
        let pb = pair.as_bytes();
        let eq = find_byte(pb, EQUALS_SIGN);
        proof {
            lemma_first_index_of_bounds(pb@, EQUALS_SIGN);
        }
        assert(pb@ == utf8(rest@).subrange(0, end as int));
        if eq < pb.len() {
            let (k, v) = split_around_ascii(pair, eq);
            if bytes_equal(k.as_bytes(), key.as_bytes()) {
                return Some(v);
            }
            assert(pb@.subrange(0, eq as int) != kb);
        }
        if !more {
            assert(query_value(utf8(rest@), kb) is None);
            return None;
        }
        rest = tail;
    }
}

/// ASCII digits `0`–`9`.
pub open spec fn is_digit(b: u8) -> bool {
    48 <= b <= 57
}

/// The number written by a run of decimal digits.
pub open spec fn digits_value(d: Seq<u8>) -> nat
    decreases d.len(),
{
    if d.len() == 0 {
        0
    } else {
        digits_value(d.drop_last()) * 10 + (d.last() - 48) as nat
    }
}

/// The text after an optional leading `+`.
pub open spec fn unsigned_digits(text: Seq<u8>) -> Seq<u8> {
    if text.len() > 0 && text[0] == PLUS_SIGN {
        text.drop_first()
    } else {
        text
    }
}

/// What `usize::from_str` accepts: an optional `+`, then one or more decimal
/// digits, naming a value that fits in `usize`.
pub open spec fn parsed_usize(text: Seq<u8>) -> Option<nat> {
    let digits = unsigned_digits(text);
    if digits.len() > 0 && (forall|i: int| 0 <= i < digits.len() ==> is_digit(#[trigger] digits[i]))
        && digits_value(digits) <= usize::MAX {
        Some(digits_value(digits))
    } else {
        None
    }
}

proof fn lemma_digits_value_monotone(d: Seq<u8>, i: int)
    requires
        0 <= i <= d.len(),
        forall|k: int| 0 <= k < d.len() ==> is_digit(#[trigger] d[k]),
    ensures
        digits_value(d.subrange(0, i)) <= digits_value(d),
    decreases d.len() - i,
{
    if i < d.len() {
        lemma_digits_value_monotone(d, i + 1);
        let a = d.subrange(0, i + 1);
        assert(a.drop_last() =~= d.subrange(0, i));
    } else {
        assert(d.subrange(0, i) =~= d);
    }
}

/// Parses a decimal `usize` the way `usize::from_str` does.
pub fn parse_usize(text: &str) -> (r: Option<usize>)
    ensures
        match r {
            Some(n) => parsed_usize(utf8(text@)) == Some(n as nat),
            None => parsed_usize(utf8(text@)) is None,
        },
{
    let bytes = text.as_bytes();
    let ghost tb = bytes@;
    let start: usize = if bytes.len() > 0 && bytes[0] == PLUS_SIGN {
        1
    } else {
        0
    };
    let ghost digits = unsigned_digits(tb);
    assert(digits =~= tb.subrange(start as int, tb.len() as int));
    if start >= bytes.len() {
        return None;
    }
    let mut value: usize = 0;
    let mut i: usize = start;
    while i < bytes.len()
        invariant
            tb == bytes@,
            tb == utf8(text@),
            start <= 1,
            start == 1 <==> (tb.len() > 0 && tb[0] == PLUS_SIGN),
            digits == unsigned_digits(tb),
            digits =~= tb.subrange(start as int, tb.len() as int),
            start <= i <= tb.len(),
            forall|k: int| start <= k < i ==> is_digit(#[trigger] tb[k]),
            value as nat == digits_value(tb.subrange(start as int, i as int)),
        decreases tb.len() - i,
    {
        let b = bytes[i];
        if b < 48 || b > 57 {
            assert(digits[i - start] == b);
            assert(!is_digit(digits[i - start]));
            return None;
        }
        let d = (b - 48) as usize;
        assert(tb.subrange(start as int, i + 1).drop_last() =~= tb.subrange(start as int, i as int));
        if value > (usize::MAX - d) / 10 {
            return overflow_or_invalid(text, start, i + 1, value, d);
        }
        value = value * 10 + d;
        i = i + 1;
    }
    assert(tb.subrange(start as int, i as int) =~= digits);
    Some(value)
}

/// Finishes a parse whose prefix `[start, upto)` is all digits and already too
/// large for `usize`: the text is rejected whether or not the rest are digits.
fn overflow_or_invalid(text: &str, start: usize, upto: usize, value: usize, d: usize) -> (r: Option<
    usize,
>)
    requires
        start <= 1,
        start < upto <= utf8(text@).len(),
        start == 1 <==> (utf8(text@).len() > 0 && utf8(text@)[0] == PLUS_SIGN),
        forall|k: int| start <= k < upto ==> is_digit(#[trigger] utf8(text@)[k]),
        value as nat * 10 + d as nat == digits_value(utf8(text@).subrange(start as int, upto as int)),
        value > (usize::MAX - d) / 10,
        d < 10,
    ensures
        r is None,
        parsed_usize(utf8(text@)) is None,
{
    let ghost tb = utf8(text@);
    let ghost digits = tb.subrange(start as int, tb.len() as int);
    proof {
        assert(unsigned_digits(tb) =~= digits);
        assert(value as nat * 10 + d as nat > usize::MAX) by (nonlinear_arith)
            requires
                value > (usize::MAX - d) / 10,
                d < 10,
        ;
        if forall|k: int| 0 <= k < digits.len() ==> is_digit(#[trigger] digits[k]) {
            lemma_digits_value_monotone(digits, upto - start);
            assert(digits.subrange(0, upto - start) =~= tb.subrange(start as int, upto as int));
            assert(digits_value(digits) > usize::MAX);
        }
        if tb.len() > 0 && tb[0] == PLUS_SIGN {
            assert(tb.drop_first() =~= digits);
        } else {
            assert(tb =~= digits);
        }
    }
    None
}

/// The limit a sandbox replay asks for: 100 without a `limit` parameter,
/// otherwise the parameter read as a positive `usize`.
pub open spec fn replay_limit_value(query: Option<Seq<u8>>) -> Option<nat> {
    match parameter_value(query, utf8("limit"@)) {
        None => Some(DEFAULT_REPLAY_LIMIT as nat),
        Some(v) => match parsed_usize(v) {
            Some(n) => if n > 0 {
                Some(n)
            } else {
                None
            },
            None => None,
        },
    }
}

/// Reads the `limit` of a sandbox replay request; `Err` for a malformed or zero limit.
pub fn replay_limit(query: Option<&str>) -> (r: Result<usize, ()>)
    ensures
        match r {
            Ok(n) => replay_limit_value(opt_utf8(query)) == Some(n as nat),
            Err(_) => replay_limit_value(opt_utf8(query)) is None,
        },
{
    let value = match query_parameter(query, "limit") {
        None => {
            return Ok(DEFAULT_REPLAY_LIMIT);
        },
        Some(v) => v,
    };
    match parse_usize(value) {
        Some(limit) => if limit == 0 {
            Err(())
        } else {
            Ok(limit)
        },
        None => Err(()),
    }
}

/// The history limit a view asks for: none without a `limit` parameter,
/// otherwise the parameter read as a positive `usize`.
pub open spec fn history_limit_value(query: Option<Seq<u8>>) -> Option<Option<nat>> {
    match parameter_value(query, utf8("limit"@)) {
        None => Some(None),
        Some(v) => match parsed_usize(v) {
            Some(n) => if n > 0 {
                Some(Some(n))
            } else {
                None
            },
            None => None,
        },
    }
}

/// The optional `limit` as a natural number.
pub open spec fn opt_nat(limit: Option<usize>) -> Option<nat> {
    match limit {
        Some(n) => Some(n as nat),
        None => None,
    }
}

/// Reads the optional history `limit`; `Err` for a malformed or zero limit.
pub fn history_limit(query: Option<&str>) -> (r: Result<Option<usize>, ()>)
    ensures
        match r {
            Ok(limit) => history_limit_value(opt_utf8(query)) == Some(opt_nat(limit)),
            Err(_) => history_limit_value(opt_utf8(query)) is None,
        },
{
    let value = match query_parameter(query, "limit") {
        None => {
            return Ok(None);
        },
        Some(v) => v,
    };
    match parse_usize(value) {
        Some(limit) => if limit == 0 {
            Err(())
        } else {
            Ok(Some(limit))
        },
        None => Err(()),
    }
}

/// What `allow_degraded` asks for: `true`/`1` allow, `false`/`0` or absence do
/// not, anything else is malformed.
pub open spec fn allow_degraded_value(query: Option<Seq<u8>>) -> Option<bool> {
    match parameter_value(query, utf8("allow_degraded"@)) {
        None => Some(false),
        Some(v) => if v == utf8("true"@) || v == utf8("1"@) {
            Some(true)
        } else if v == utf8("false"@) || v == utf8("0"@) {
            Some(false)
        } else {
            None
        },
    }
}

/// Reads the `allow_degraded` flag of a readiness probe.
pub fn allow_degraded(query: Option<&str>) -> (r: Result<bool, ()>)
    ensures
        match r {
            Ok(b) => allow_degraded_value(opt_utf8(query)) == Some(b),
            Err(_) => allow_degraded_value(opt_utf8(query)) is None,
        },
{
    match query_parameter(query, "allow_degraded") {
        None => Ok(false),
        Some(v) => {
            let vb = v.as_bytes();
            if bytes_equal(vb, "true".as_bytes()) || bytes_equal(vb, "1".as_bytes()) {
                Ok(true)
            } else if bytes_equal(vb, "false".as_bytes()) || bytes_equal(vb, "0".as_bytes()) {
                Ok(false)
            } else {
                Err(())
            }
        },
    }
}

/// The value of an ASCII hexadecimal digit.
pub open spec fn hex_value(b: u8) -> Option<u8> {
    if 48 <= b <= 57 {
        Some((b - 48) as u8)
    } else if 97 <= b <= 102 {
        Some((b - 87) as u8)
    } else if 65 <= b <= 70 {
        Some((b - 55) as u8)
    } else {
        None
    }
}

/// Decodes one hexadecimal digit.
pub fn decode_hex_nibble(byte: u8) -> (r: Option<u8>)
    ensures
        r == hex_value(byte),
{
    if 48 <= byte && byte <= 57 {
        Some(byte - 48)
    } else if 97 <= byte && byte <= 102 {
        Some(byte - 97 + 10)
    } else if 65 <= byte && byte <= 70 {
        Some(byte - 65 + 10)
    } else {
        None
    }
}

/// Percent-decoding of a byte string: `%XY` with two hexadecimal digits stands
/// for the byte `0xXY`, every other byte for itself; a `%` without two digits
/// after it makes the whole input malformed.
pub open spec fn percent_decode(bytes: Seq<u8>) -> Option<Seq<u8>>
    decreases bytes.len(),
{
    if bytes.len() == 0 {
        Some(Seq::empty())
    } else if bytes[0] == PERCENT_SIGN {
        if bytes.len() < 3 {
            None
        } else {
            match (hex_value(bytes[1]), hex_value(bytes[2])) {
                (Some(high), Some(low)) => match percent_decode(bytes.subrange(3, bytes.len() as int)) {
                    Some(rest) => Some(seq![(high * 16 + low) as u8] + rest),
                    None => None,
                },
                _ => None,
            }
        }
    } else {
        match percent_decode(bytes.subrange(1, bytes.len() as int)) {
            Some(rest) => Some(seq![bytes[0]] + rest),
            None => None,
        }
    }
}

/// Percent-decodes a byte string.
pub fn percent_decode_bytes(bytes: &[u8]) -> (r: Option<Vec<u8>>)
    ensures
        match r {
            Some(v) => percent_decode(bytes@) == Some(v@),
            None => percent_decode(bytes@) is None,
        },
{
    let mut decoded: Vec<u8> = Vec::new();
    let mut index: usize = 0;
    let ghost bs = bytes@;
    proof {
        assert(bs.subrange(0, bs.len() as int) =~= bs);
        if let Some(rest) = percent_decode(bs) {
            assert(decoded@ + rest =~= rest);
        }
    }
    while index < bytes.len()
        invariant
            bs == bytes@,
            index <= bs.len(),
            percent_decode(bs) == match percent_decode(bs.subrange(index as int, bs.len() as int)) {
                Some(rest) => Some(decoded@ + rest),
                None => None,
            },
        decreases bs.len() - index,
    {
        let ghost tail = bs.subrange(index as int, bs.len() as int);
        if bytes[index] == PERCENT_SIGN {
            if bytes.len() - index < 3 {
                return None;
            }
            let high = match decode_hex_nibble(bytes[index + 1]) {
                Some(h) => h,
                None => {
                    return None;
                },
            };
            let low = match decode_hex_nibble(bytes[index + 2]) {
                Some(l) => l,
                None => {
                    return None;
                },
            };
            assert(tail.subrange(3, tail.len() as int) =~= bs.subrange(index + 3, bs.len() as int));
            let ghost before = decoded@;
            decoded.push(high * 16 + low);
            proof {
                match percent_decode(bs.subrange(index + 3, bs.len() as int)) {
                    Some(rest) => {
                        assert(decoded@ + rest =~= before + (seq![(high * 16 + low) as u8] + rest));
                    },
                    None => {},
                }
            }
            index = index + 3;
        } else {
            assert(tail.subrange(1, tail.len() as int) =~= bs.subrange(index + 1, bs.len() as int));
            let ghost before = decoded@;
            decoded.push(bytes[index]);
            proof {
                match percent_decode(bs.subrange(index + 1, bs.len() as int)) {
                    Some(rest) => {
                        assert(decoded@ + rest =~= before + (seq![bs[index as int]] + rest));
                    },
                    None => {},
                }
            }
            index = index + 1;
        }
    }
    assert(bs.subrange(index as int, bs.len() as int) =~= Seq::<u8>::empty());
    assert(decoded@ + Seq::<u8>::empty() =~= decoded@);
    Some(decoded)
}

/// Builds a `String` through `String::from_utf8`, which accepts exactly the
/// well-formed UTF-8 byte strings and keeps their bytes as the string's encoding.
#[verifier::external_body]
fn string_from_utf8(bytes: Vec<u8>) -> (r: Option<String>)
    ensures
        r is Some <==> valid_utf8(bytes@),
        r matches Some(s) ==> utf8(s@) == bytes@,
{
    String::from_utf8(bytes).ok()
}

/// The text a percent-encoded path component stands for, as its UTF-8 bytes:
/// defined when the component decodes and the decoded bytes are well-formed UTF-8.
pub open spec fn decoded_component(component: Seq<u8>) -> Option<Seq<u8>> {
    match percent_decode(component) {
        Some(d) => if valid_utf8(d) {
            Some(d)
        } else {
            None
        },
        None => None,
    }
}

/// Percent-decodes a path component of raw bytes into text.
pub fn decode_component_bytes(component: &[u8]) -> (r: Result<String, ()>)
    ensures
        match r {
            Ok(s) => decoded_component(component@) == Some(utf8(s@)),
            Err(_) => decoded_component(component@) is None,
        },
{
    match percent_decode_bytes(component) {
        Some(d) => match string_from_utf8(d) {
            Some(s) => Ok(s),
            None => Err(()),
        },
        None => Err(()),
    }
}

/// Percent-decodes a path component into text.
pub fn decode_uri_component(component: &str) -> (r: Result<String, ()>)
    ensures
        match r {
            Ok(s) => decoded_component(utf8(component@)) == Some(utf8(s@)),
            Err(_) => decoded_component(utf8(component@)) is None,
        },
{
    decode_component_bytes(component.as_bytes())
}

} // verus!
