//! Byte buffers as a platform hands them over: NUL-terminated or NUL-padded
//! text that may or may not be UTF-8.

use vstd::prelude::*;
use vstd::utf8::{decode_utf8, encode_utf8, encode_utf8_decode_utf8, valid_utf8};

verus! {

/// Position of the first NUL byte at or after `from`, or the length of
/// `bytes` where there is none.
pub open spec fn nul_from(bytes: Seq<u8>, from: int) -> int
    decreases bytes.len() - from,
{
    if from < 0 || from >= bytes.len() {
        bytes.len() as int
    } else if bytes[from] == 0 {
        from
    } else {
        nul_from(bytes, from + 1)
    }
}

/// The bytes before the first NUL byte; all of them where there is none.
pub open spec fn until_nul(bytes: Seq<u8>) -> Seq<u8> {
    bytes.take(nul_from(bytes, 0))
}

/// The bytes without the NUL bytes that end them.
pub open spec fn without_trailing_nuls(bytes: Seq<u8>) -> Seq<u8>
    decreases bytes.len(),
{
    if bytes.len() > 0 && bytes.last() == 0 {
        without_trailing_nuls(bytes.drop_last())
    } else {
        bytes
    }
}

/// The text that a byte sequence encodes, if it is UTF-8.
pub open spec fn text_of(bytes: Seq<u8>) -> Option<Seq<char>> {
    if valid_utf8(bytes) {
        Some(decode_utf8(bytes))
    } else {
        None
    }
}

/// Whether `a` comes before `b` in the order of byte strings, looking only
/// at the bytes at and after `from`: the first byte that differs decides,
/// and a string comes before every string that it begins.
pub open spec fn less_from(a: Seq<u8>, b: Seq<u8>, from: int) -> bool
    decreases a.len() - from,
{
    if from < 0 || from >= b.len() {
        false
    } else if from >= a.len() {
        true
    } else if a[from] != b[from] {
        a[from] < b[from]
    } else {
        less_from(a, b, from + 1)
    }
}

/// Whether `a` comes before `b` in the order of byte strings.
pub open spec fn bytes_less(a: Seq<u8>, b: Seq<u8>) -> bool {
    less_from(a, b, 0)
}

/// Whether the text `a` comes before the text `b`: the order of their
/// UTF-8 encodings as byte strings, which is the order of `str`.
pub open spec fn text_less(a: Seq<char>, b: Seq<char>) -> bool {
    bytes_less(encode_utf8(a), encode_utf8(b))
}

/// Whether `bytes` ends with `suffix`.
pub open spec fn ends_with(bytes: Seq<u8>, suffix: Seq<u8>) -> bool {
    suffix.len() <= bytes.len() && bytes.subrange(bytes.len() - suffix.len(), bytes.len() as int)
        == suffix
}

/// No byte string comes before itself.
pub proof fn lemma_less_irreflexive(a: Seq<u8>, from: int)
    requires
        0 <= from,
    ensures
        !less_from(a, a, from),
    decreases a.len() - from,
{
    if from < a.len() {
        lemma_less_irreflexive(a, from + 1);
    }
}

/// The order of byte strings is transitive.
pub proof fn lemma_less_transitive(a: Seq<u8>, b: Seq<u8>, c: Seq<u8>, from: int)
    requires
        0 <= from,
        less_from(a, b, from),
        less_from(b, c, from),
    ensures
        less_from(a, c, from),
    decreases a.len() - from,
{
    if from < a.len() && from < b.len() && from < c.len() && a[from] == b[from] && b[from]
        == c[from] {
        lemma_less_transitive(a, b, c, from + 1);
    }
}

/// Two byte strings of which neither comes before the other are equal from
/// `from` on.
pub proof fn lemma_less_total(a: Seq<u8>, b: Seq<u8>, from: int)
    requires
        0 <= from <= a.len(),
        from <= b.len(),
        !less_from(a, b, from),
        !less_from(b, a, from),
    ensures
        a.len() == b.len(),
        forall|j: int| from <= j < a.len() ==> a[j] == b[j],
    decreases a.len() - from,
{
    if from < a.len() && from < b.len() {
        lemma_less_total(a, b, from + 1);
    }
}

/// Two texts of which neither comes before the other are the same text.
pub proof fn lemma_text_order_total(a: Seq<char>, b: Seq<char>)
    requires
        !text_less(a, b),
        !text_less(b, a),
    ensures
        a == b,
{
    lemma_less_total(encode_utf8(a), encode_utf8(b), 0);
    assert(encode_utf8(a) =~= encode_utf8(b));
    encode_utf8_decode_utf8(a);
    encode_utf8_decode_utf8(b);
}

/// No text comes before itself, and the order of texts is transitive.
pub proof fn lemma_text_order_strict(a: Seq<char>, b: Seq<char>, c: Seq<char>)
    ensures
        !text_less(a, a),
        text_less(a, b) && text_less(b, c) ==> text_less(a, c),
{
    lemma_less_irreflexive(encode_utf8(a), 0);
    if text_less(a, b) && text_less(b, c) {
        lemma_less_transitive(encode_utf8(a), encode_utf8(b), encode_utf8(c), 0);
    }
}

/// Whether `a` comes before `b` in the order of byte strings.
pub fn bytes_before(a: &[u8], b: &[u8]) -> (r: bool)
    ensures
        r == bytes_less(a@, b@),
{
    let n: usize = if a.len() <= b.len() {
        a.len()
    } else {
        b.len()
    };
    let mut i: usize = 0;
    while i < n
        invariant
            n <= a@.len(),
            n <= b@.len(),
            n == a@.len() || n == b@.len(),
            i <= n,
            bytes_less(a@, b@) == less_from(a@, b@, i as int),
        decreases n - i,
    {
        if a[i] != b[i] {
            return a[i] < b[i];
        }
        i = i + 1;
    }
    a.len() < b.len()
}

/// Whether the text `a` comes before the text `b`.
pub fn text_before(a: &str, b: &str) -> (r: bool)
    ensures
        r == text_less(a@, b@),
{
    bytes_before(a.as_bytes(), b.as_bytes())
}

/// Whether `bytes` ends with `suffix`.
pub fn bytes_end_with(bytes: &[u8], suffix: &[u8]) -> (r: bool)
    ensures
        r == ends_with(bytes@, suffix@),
{
    let n: usize = bytes.len();
    let m: usize = suffix.len();
    if m > n {
        return false;
    }
    let start: usize = n - m;
    let ghost tail = bytes@.subrange(start as int, n as int);
    let mut i: usize = 0;
    while i < m
        invariant
            n == bytes@.len(),
            m == suffix@.len(),
            start == n - m,
            tail == bytes@.subrange(start as int, n as int),
            i <= m,
            forall|j: int| 0 <= j < i ==> tail[j] == suffix@[j],
        decreases m - i,
    {
        if bytes[start + i] != suffix[i] {
            assert(tail[i as int] != suffix@[i as int]);
            return false;
        }
        i = i + 1;
    }
    assert(tail =~= suffix@);
    true
}

/// `String::from_utf8` of std: succeeds exactly on well-formed UTF-8, and
/// the string then holds the text that the bytes encode.
#[verifier::external_body]
pub(crate) fn string_from_utf8(bytes: Vec<u8>) -> (r: Option<String>)
    ensures
        match r {
            Some(s) => text_of(bytes@) == Some(s@),
            None => text_of(bytes@).is_none(),
        },
{
    String::from_utf8(bytes).ok()
}

/// `String::push` of std: appends one character to the string.
#[verifier::external_body]
pub(crate) fn push_char(s: &mut String, c: char)
    ensures
        final(s)@ == old(s)@.push(c),
{
    s.push(c)
}

/// The text that bytes give where each byte but NUL stands for the
/// character with its number.
pub open spec fn text_without_nuls(bytes: Seq<u8>) -> Seq<char>
    decreases bytes.len(),
{
    if bytes.len() == 0 {
        Seq::empty()
    } else if bytes.last() == 0 {
        text_without_nuls(bytes.drop_last())
    } else {
        text_without_nuls(bytes.drop_last()).push(bytes.last() as char)
    }
}

/// The text of a buffer of single-byte characters, NUL bytes left out.
pub fn string_without_nuls(bytes: &[u8]) -> (r: String)
    ensures
        r@ == text_without_nuls(bytes@),
{
    let mut out = String::new();
    let n: usize = bytes.len();
    let mut i: usize = 0;
    while i < n
        invariant
            n == bytes@.len(),
            i <= n,
            out@ == text_without_nuls(bytes@.take(i as int)),
        decreases n - i,
    {
        proof {
            assert(bytes@.take(i + 1).drop_last() =~= bytes@.take(i as int));
            assert(bytes@.take(i + 1).last() == bytes@[i as int]);
        }
        let b: u8 = bytes[i];
        if b != 0 {
            push_char(&mut out, b as char);
        }
        i = i + 1;
    }
    proof {
        assert(bytes@.take(n as int) =~= bytes@);
    }
    out
}

/// A copy of the bytes before the first NUL byte.
pub fn copy_until_nul(bytes: &[u8]) -> (r: Vec<u8>)
    ensures
        r@ == until_nul(bytes@),
{
    let mut out: Vec<u8> = Vec::new();
    let n: usize = bytes.len();
    let mut i: usize = 0;
    while i < n && bytes[i] != 0
        invariant
            n == bytes@.len(),
            i <= n,
            nul_from(bytes@, 0) == nul_from(bytes@, i as int),
            out@ == bytes@.take(i as int),
        decreases n - i,
    {
        out.push(bytes[i]);
        proof {
            assert(out@ =~= bytes@.take(i + 1));
        }
        i = i + 1;
    }
    out
}

/// Cuts a buffer off at its first NUL byte.
pub fn truncate_at_nul(bytes: &mut Vec<u8>)
    ensures
        final(bytes)@ == until_nul(old(bytes)@),
{
    let n: usize = bytes.len();
    let mut i: usize = 0;
    while i < n && bytes[i] != 0
        invariant
            n == bytes@.len(),
            i <= n,
            nul_from(bytes@, 0) == nul_from(bytes@, i as int),
        decreases n - i,
    {
        i = i + 1;
    }
    bytes.truncate(i);
}

/// Removes the NUL bytes that end a buffer.
pub fn trim_trailing_nuls(bytes: &mut Vec<u8>)
    ensures
        final(bytes)@ == without_trailing_nuls(old(bytes)@),
{
    let mut n: usize = bytes.len();
    proof {
        assert(bytes@.take(n as int) =~= bytes@);
    }
    while n > 0 && bytes[n - 1] == 0
        invariant
            n <= bytes@.len(),
            bytes@ == old(bytes)@,
            without_trailing_nuls(bytes@) == without_trailing_nuls(bytes@.take(n as int)),
        decreases n,
    {
        proof {
            assert(bytes@.take(n as int).drop_last() =~= bytes@.take(n - 1));
        }
        n = n - 1;
    }
    bytes.truncate(n);
}

/// The text of a NUL-terminated buffer: what stands before its first NUL
/// byte, if that is UTF-8.
pub fn sysctl_str(buf: Vec<u8>) -> (r: Option<String>)
    ensures
        match r {
            Some(s) => text_of(until_nul(buf@)) == Some(s@),
            None => text_of(until_nul(buf@)).is_none(),
        },
{
    let mut buf = buf;
    truncate_at_nul(&mut buf);
    string_from_utf8(buf)
}

/// The text that stands before the first NUL byte of a buffer, or the
/// empty text where that is not UTF-8.
pub open spec fn text_or_empty(bytes: Seq<u8>) -> Seq<char> {
    match text_of(until_nul(bytes)) {
        Some(text) => text,
        None => Seq::empty(),
    }
}

/// The text that stands before the first NUL byte of a buffer, or the
/// empty string where that is not UTF-8.
pub fn text_until_nul(bytes: &[u8]) -> (r: String)
    ensures
        r@ == text_or_empty(bytes@),
{
    match string_from_utf8(copy_until_nul(bytes)) {
        Some(s) => s,
        None => String::new(),
    }
}

/// The text of a NUL-padded buffer: the buffer without the NUL bytes that
/// end it, or the empty string where that is not UTF-8.
pub fn get_sysctl_str(buf: Vec<u8>) -> (r: String)
    ensures
        r@ == match text_of(without_trailing_nuls(buf@)) {
            Some(text) => text,
            None => Seq::<char>::empty(),
        },
{
    let mut buf = buf;
    trim_trailing_nuls(&mut buf);
    match string_from_utf8(buf) {
        Some(s) => s,
        None => String::new(),
    }
}

} // verus!
