//! Byte-level views of text and the small string operations the control
//! surface and the operator views are built from.
use vstd::prelude::*;
use vstd::string::*;
use vstd::utf8::*;

verus! {

broadcast use {vstd::utf8::group_utf8_lib, vstd::slice::group_slice_axioms};

/// The UTF-8 bytes of a piece of text.
pub open spec fn utf8(s: Seq<char>) -> Seq<u8> {
    encode_utf8(s)
}

/// Texts are equal exactly when their encodings are.
pub proof fn lemma_utf8_injective(a: Seq<char>, b: Seq<char>)
    ensures
        (utf8(a) == utf8(b)) <==> (a == b),
{
    if utf8(a) == utf8(b) {
        assert(decode_utf8(encode_utf8(a)) == a);
        assert(decode_utf8(encode_utf8(b)) == b);
    }
}

/// Index of the first occurrence of `b` in `bytes`, or `bytes.len()` when absent.
pub open spec fn first_index_of(bytes: Seq<u8>, b: u8) -> nat
    decreases bytes.len(),
{
    if bytes.len() == 0 {
        0
    } else if bytes[0] == b {
        0
    } else {
        1 + first_index_of(bytes.drop_first(), b)
    }
}

/// `first_index_of` is pinned down by "no earlier occurrence, and either the end or a hit".
pub proof fn lemma_first_index_of(bytes: Seq<u8>, b: u8, i: int)
    requires
        0 <= i <= bytes.len(),
        forall|j: int| 0 <= j < i ==> bytes[j] != b,
        i == bytes.len() || bytes[i] == b,
    ensures
        first_index_of(bytes, b) == i,
    decreases bytes.len(),
{
    if bytes.len() > 0 && i > 0 {
        let rest = bytes.drop_first();
        assert forall|j: int| 0 <= j < i - 1 implies rest[j] != b by {
            assert(rest[j] == bytes[j + 1]);
        }
        if i < bytes.len() {
            assert(rest[i - 1] == bytes[i]);
        }
        lemma_first_index_of(rest, b, i - 1);
    }
}

/// `first_index_of` never points past the end, and points at `b` when it is inside.
pub proof fn lemma_first_index_of_bounds(bytes: Seq<u8>, b: u8)
    ensures
        first_index_of(bytes, b) <= bytes.len(),
        first_index_of(bytes, b) < bytes.len() ==> bytes[first_index_of(bytes, b) as int] == b,
        forall|j: int| 0 <= j < first_index_of(bytes, b) ==> bytes[j] != b,
    decreases bytes.len(),
{
    if bytes.len() > 0 && bytes[0] != b {
        let rest = bytes.drop_first();
        lemma_first_index_of_bounds(rest, b);
        assert forall|j: int| 0 <= j < first_index_of(bytes, b) implies bytes[j] != b by {
            if j > 0 {
                assert(bytes[j] == rest[j - 1]);
            }
        }
    }
}

/// Position of the first `b` in `bytes` at or after `start`, or `bytes.len()`.
pub fn find_byte(bytes: &[u8], b: u8) -> (i: usize)
    ensures
        i as nat == first_index_of(bytes@, b),
{
    let mut i: usize = 0;
    while i < bytes.len()
        invariant
            i <= bytes@.len(),
            forall|j: int| 0 <= j < i ==> bytes@[j] != b,
        decreases bytes@.len() - i,
    {
        if bytes[i] == b {
            proof {
                lemma_first_index_of(bytes@, b, i as int);
            }
            return i;
        }
        i = i + 1;
    }
    proof {
        lemma_first_index_of(bytes@, b, i as int);
    }
    i
}

/// Compares two byte strings for equality.
pub fn bytes_equal(a: &[u8], b: &[u8]) -> (r: bool)
    ensures
        r == (a@ == b@),
{
    if a.len() != b.len() {
        return false;
    }
    let mut i: usize = 0;
    while i < a.len()
        invariant
            a@.len() == b@.len(),
            i <= a@.len(),
            forall|j: int| 0 <= j < i ==> a@[j] == b@[j],
        decreases a@.len() - i,
    {
        if a[i] != b[i] {
            return false;
        }
        i = i + 1;
    }
    assert(a@ =~= b@);
    true
}

/// Compares two texts for equality.
pub fn str_equal(a: &str, b: &str) -> (r: bool)
    ensures
        r == (a@ == b@),
{
    let r = bytes_equal(a.as_bytes(), b.as_bytes());
    proof {
        if utf8(a@) == utf8(b@) {
            assert(decode_utf8(encode_utf8(a@)) == a@);
            assert(decode_utf8(encode_utf8(b@)) == b@);
        }
    }
    r
}

/// An ASCII byte inside well-formed UTF-8 starts a character, and so does the byte after it.
proof fn lemma_ascii_boundaries(bytes: Seq<u8>, i: int)
    requires
        valid_utf8(bytes),
        0 <= i < bytes.len(),
        bytes[i] < 128,
    ensures
        is_char_boundary(bytes, i),
        valid_utf8(bytes.subrange(i, bytes.len() as int)),
        is_char_boundary(bytes.subrange(i, bytes.len() as int), 1),
{
    is_char_boundary_iff_not_is_continuation_byte(bytes, i);
    valid_utf8_split(bytes, i);
    let rest = bytes.subrange(i, bytes.len() as int);
    assert(rest[0] == bytes[i]);
    reveal_with_fuel(valid_utf8, 2);
    reveal_with_fuel(is_char_boundary, 2);
    assert(length_of_first_scalar(rest) == 1);
    assert(valid_utf8(pop_first_scalar(rest)));
    is_char_boundary_start_end_of_seq(pop_first_scalar(rest));
}

/// Splits a text around the ASCII byte at `i`, dropping that byte.
pub fn split_around_ascii<'a>(s: &'a str, i: usize) -> (r: (&'a str, &'a str))
    requires
        i < utf8(s@).len(),
        utf8(s@)[i as int] < 128,
    ensures
        utf8(r.0@) == utf8(s@).subrange(0, i as int),
        utf8(r.1@) == utf8(s@).subrange(i + 1, utf8(s@).len() as int),
{
    let ghost bytes = utf8(s@);
    proof {
        lemma_ascii_boundaries(bytes, i as int);
    }
    let (head, rest) = s.split_at(i);
    assert(rest.spec_bytes() =~= bytes.subrange(i as int, bytes.len() as int));
    let (_sep, tail) = rest.split_at(1);
    assert(tail.spec_bytes() =~= bytes.subrange(i + 1, bytes.len() as int));
    (head, tail)
}

/// Builds an owned string from a text.
pub fn owned(s: &str) -> (r: String)
    ensures
        r@ == s@,
{
    s.to_owned()
}

/// Appends `suffix` to `prefix`.
pub fn join2(prefix: &str, suffix: &str) -> (r: String)
    ensures
        r@ == prefix@ + suffix@,
{
    String::from_str(prefix).concat(suffix)
}

/// Joins three texts.
pub fn join3(a: &str, b: &str, c: &str) -> (r: String)
    ensures
        r@ == a@ + b@ + c@,
{
    String::from_str(a).concat(b).concat(c)
}

/// The ASCII digit for `d < 10`.
pub open spec fn digit_char(d: nat) -> char {
    (48 + d) as char
}

/// Decimal representation of a natural number, most significant digit first.
pub open spec fn decimal(n: nat) -> Seq<char>
    decreases n,
{
    if n < 10 {
        seq![digit_char(n)]
    } else {
        decimal(n / 10).push(digit_char(n % 10))
    }
}

/// Formats an unsigned integer in decimal through `u64::to_string` (`Display` for
/// integers writes the plain base-10 digits, with no sign, padding or separator).
#[verifier::external_body]
pub fn decimal_string(n: u64) -> (r: String)
    ensures
        r@ == decimal(n as nat),
{
    n.to_string()
}

/// Formats a count in decimal.
pub fn count_string(n: usize) -> (r: String)
    ensures
        r@ == decimal(n as nat),
{
    decimal_string(n as u64)
}

/// `"true"` or `"false"`, as `Display` for `bool` writes them.
pub open spec fn bool_text(b: bool) -> Seq<char> {
    if b {
        "true"@
    } else {
        "false"@
    }
}

/// Formats a flag as `bool_text` does.
pub fn bool_string(b: bool) -> (r: String)
    ensures
        r@ == bool_text(b),
{
    if b {
        owned("true")
    } else {
        owned("false")
    }
}

/// Appends `label` and the decimal form of a count.
pub fn append_count(line: &mut String, label: &str, n: usize)
    ensures
        final(line)@ == old(line)@ + label@ + decimal(n as nat),
{
    line.append(label);
    let d = count_string(n);
    line.append(d.as_str());
}

/// Appends `label` and the decimal form of a total.
pub fn append_total(line: &mut String, label: &str, n: u64)
    ensures
        final(line)@ == old(line)@ + label@ + decimal(n as nat),
{
    line.append(label);
    let d = decimal_string(n);
    line.append(d.as_str());
}

/// Appends `label` and a flag as `bool_text` writes it.
pub fn append_flag(line: &mut String, label: &str, b: bool)
    ensures
        final(line)@ == old(line)@ + label@ + bool_text(b),
{
    line.append(label);
    let d = bool_string(b);
    line.append(d.as_str());
}

/// Appends `label` and a text.
pub fn append_text(line: &mut String, label: &str, t: &str)
    ensures
        final(line)@ == old(line)@ + label@ + t@,
{
    line.append(label);
    line.append(t);
}

/// Each text with `prefix` put before it.
pub open spec fn prefixed(prefix: Seq<char>, texts: Seq<Seq<char>>) -> Seq<Seq<char>> {
    texts.map_values(|t: Seq<char>| prefix + t)
}

/// Appends each text with `prefix` put before it.
pub fn push_prefixed(lines: &mut Vec<String>, prefix: &str, texts: &Vec<String>)
    ensures
        final(lines).deep_view() == old(lines).deep_view() + prefixed(prefix@, texts.deep_view()),
{
    let ghost base = lines.deep_view();
    let ghost s = texts.deep_view();
    let mut i: usize = 0;
    assert(base + prefixed(prefix@, s.subrange(0, 0)) =~= base);
    while i < texts.len()
        invariant
            i <= texts@.len(),
            s == texts.deep_view(),
            base == old(lines).deep_view(),
            lines.deep_view() == base + prefixed(prefix@, s.subrange(0, i as int)),
        decreases texts@.len() - i,
    {
        let line = join2(prefix, texts[i].as_str());
        crate::values::push_value(lines, line);
        assert(s[i as int] == texts@[i as int]@);
        assert(lines.deep_view() =~= base + prefixed(prefix@, s.subrange(0, i + 1)));
        i = i + 1;
    }
    assert(s.subrange(0, i as int) =~= s);
}

/// True when `pattern` occurs as a contiguous run of bytes in `text` at `i`.
pub open spec fn occurs_at(text: Seq<u8>, pattern: Seq<u8>, i: int) -> bool {
    &&& 0 <= i
    &&& i + pattern.len() <= text.len()
    &&& text.subrange(i, i + pattern.len()) == pattern
}

/// Substring containment, as `str::contains` with a text pattern decides it.
pub open spec fn text_contains(text: Seq<char>, pattern: Seq<char>) -> bool {
    exists|i: int| occurs_at(utf8(text), utf8(pattern), i)
}

/// Decides `text_contains`.
pub fn contains_text(text: &str, pattern: &str) -> (r: bool)
    ensures
        r == text_contains(text@, pattern@),
{
    let t = text.as_bytes();
    let p = pattern.as_bytes();
    let ghost tb = utf8(text@);
    let ghost pb = utf8(pattern@);
    if p.len() > t.len() {
        assert forall|i: int| !occurs_at(tb, pb, i) by {}
        return false;
    }
    let last = t.len() - p.len();
    let mut i: usize = 0;
    loop
        invariant
            t@ == tb,
            p@ == pb,
            tb == utf8(text@),
            pb == utf8(pattern@),
            tb.len() == t.len(),
            pb.len() <= tb.len(),
            last == tb.len() - pb.len(),
            i <= last,
            forall|k: int| 0 <= k < i ==> !occurs_at(tb, pb, k),
        ensures
            forall|k: int| 0 <= k <= last ==> !occurs_at(tb, pb, k),
        decreases last - i,
    {
        let mut j: usize = 0;
        let mut matched = true;
        while j < p.len()
            invariant
                t@ == tb,
                p@ == pb,
                tb.len() == t.len(),
                i <= last,
                pb.len() <= tb.len(),
                last == tb.len() - pb.len(),
                j <= pb.len(),
                matched ==> forall|m: int| 0 <= m < j ==> tb[i + m] == pb[m],
                !matched ==> !occurs_at(tb, pb, i as int),
            decreases pb.len() - j,
        {
            if t[i + j] != p[j] {
                matched = false;
                assert(tb.subrange(i as int, i + pb.len())[j as int] == tb[i + j]);
            }
            j = j + 1;
        }
        if matched {
            assert(tb.subrange(i as int, i + pb.len()) =~= pb);
            assert(occurs_at(utf8(text@), utf8(pattern@), i as int));
            assert(text_contains(text@, pattern@));
            return true;
        }
        if i == last {
            break;
        }
        i = i + 1;
    }
    assert forall|k: int| !occurs_at(tb, pb, k) by {}
    false
}

/// Whether `needle` is among `values`, compared as text.
pub fn contains_string(values: &Vec<String>, needle: &String) -> (r: bool)
    ensures
        r == values.deep_view().contains(needle@),
{
    let mut i: usize = 0;
    while i < values.len()
        invariant
            i <= values@.len(),
            forall|j: int| 0 <= j < i ==> values@[j]@ != needle@,
        decreases values@.len() - i,
    {
        if str_equal(values[i].as_str(), needle.as_str()) {
            assert(values.deep_view()[i as int] == needle@);
            return true;
        }
        i = i + 1;
    }
    assert forall|j: int| 0 <= j < values.deep_view().len() implies values.deep_view()[j] != needle@ by {
        assert(values.deep_view()[j] == values@[j]@);
    }
    false
}

/// Appends `value` unless an equal text is already present.
pub fn push_unique(target: &mut Vec<String>, value: String)
    ensures
        final(target).deep_view() == (if old(target).deep_view().contains(value@) {
            old(target).deep_view()
        } else {
            old(target).deep_view().push(value@)
        }),
{
    if !contains_string(target, &value) {
        target.push(value);
        assert(target.deep_view() =~= old(target).deep_view().push(value@));
    }
}

} // verus!
