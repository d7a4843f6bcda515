//! Identifiers and identity-header values.
//!
//! The backend identifies tenants, users and configurations by 128-bit ids.
//! The library holds such an id as its 16 raw bytes and renders it in the
//! canonical hyphenated lower-case hexadecimal form when it becomes a header
//! value.  Rendered ids always pass the header-value check below; the check
//! still runs defensively wherever a header is built.

use vstd::prelude::*;

use crate::text::{byte_hex, hex_char, hex_digit, hex_of, push_char};

verus! {

/// A 128-bit identifier, held as its 16 raw bytes.
#[derive(Clone, Copy)]
pub struct Id {
    pub bytes: [u8; 16],
}

impl View for Id {
    type V = Seq<u8>;

    open spec fn view(&self) -> Seq<u8> {
        self.bytes@
    }
}

/// The canonical textual form of a 16-byte identifier: lower-case
/// hexadecimal in groups of 8, 4, 4, 4 and 12 digits, separated by hyphens.
pub open spec fn id_text(b: Seq<u8>) -> Seq<char> {
    hex_of(b.subrange(0, 4)) + seq!['-'] + hex_of(b.subrange(4, 6)) + seq!['-'] + hex_of(
        b.subrange(6, 8),
    ) + seq!['-'] + hex_of(b.subrange(8, 10)) + seq!['-'] + hex_of(b.subrange(10, 16))
}

/// Appends the lower-case hexadecimal form of `bytes[from..to]`.
fn append_hex(out: &mut String, bytes: &[u8; 16], from: usize, to: usize)
    requires
        from <= to <= 16,
    ensures
        final(out)@ == old(out)@ + hex_of(bytes@.subrange(from as int, to as int)),
{
    let mut i: usize = from;
    while i < to
        invariant
            from <= i <= to <= 16,
            out@ == old(out)@ + hex_of(bytes@.subrange(from as int, i as int)),
        decreases to - i,
    {
        let b = bytes[i];
        push_char(out, hex_char(b / 16));
        push_char(out, hex_char(b % 16));
        proof {
            let sub = bytes@.subrange(from as int, i + 1 as int);
            assert(sub.drop_last() =~= bytes@.subrange(from as int, i as int));
            assert(sub.last() == bytes@[i as int]);
            assert(out@ =~= old(out)@ + hex_of(sub));
        }
        i = i + 1;
    }
}

impl Id {
    /// An identifier from its 16 raw bytes.
    pub fn new(bytes: [u8; 16]) -> (r: Id)
        ensures
            r@ == bytes@,
    {
        Id { bytes }
    }

    /// The canonical hyphenated lower-case hexadecimal rendering.
    pub fn to_hyphenated(&self) -> (r: String)
        ensures
            r@ == id_text(self@),
    {
        let mut out = String::new();
        append_hex(&mut out, &self.bytes, 0, 4);
        push_char(&mut out, '-');
        append_hex(&mut out, &self.bytes, 4, 6);
        push_char(&mut out, '-');
        append_hex(&mut out, &self.bytes, 6, 8);
        push_char(&mut out, '-');
        append_hex(&mut out, &self.bytes, 8, 10);
        push_char(&mut out, '-');
        append_hex(&mut out, &self.bytes, 10, 16);
        proof {
            assert(out@ =~= id_text(self@));
        }
        out
    }
}

/// Whether a character may stand in an HTTP header value: horizontal tab or
/// any character that is neither a control character nor delete.
pub open spec fn valid_header_char(c: char) -> bool {
    c == '\t' || (32 <= c as u32 && c as u32 != 127)
}

/// Whether every character of the sequence may stand in an HTTP header value.
pub open spec fn valid_header_value(s: Seq<char>) -> bool {
    forall|i: int| 0 <= i < s.len() ==> valid_header_char(#[trigger] s[i])
}

/// Checks that `s` can stand as an HTTP header value.
pub fn header_value_ok(s: &str) -> (r: bool)
    ensures
        r == valid_header_value(s@),
{
    let n = s.unicode_len();
    let mut i: usize = 0;
    while i < n
        invariant
            n == s@.len(),
            i <= n,
            forall|j: int| 0 <= j < i ==> valid_header_char(#[trigger] s@[j]),
        decreases n - i,
    {
        let c = s.get_char(i);
        let ok = c == '\t' || (32 <= c as u32 && c as u32 != 127);
        if !ok {
            return false;
        }
        i = i + 1;
    }
    true
}

/// Concatenation keeps header-value validity.
proof fn lemma_valid_concat(a: Seq<char>, b: Seq<char>)
    requires
        valid_header_value(a),
        valid_header_value(b),
    ensures
        valid_header_value(a + b),
{
    assert forall|i: int| 0 <= i < (a + b).len() implies valid_header_char(#[trigger] (a + b)[i]) by {
        if i < a.len() {
            assert((a + b)[i] == a[i]);
        } else {
            assert((a + b)[i] == b[i - a.len()]);
        }
    }
}

/// Every hexadecimal digit may stand in a header value.
proof fn lemma_hex_digit_valid(n: u8)
    ensures
        valid_header_char(hex_digit(n)),
{
}

/// The hexadecimal rendering of any byte sequence may stand in a header value.
proof fn lemma_hex_of_valid(b: Seq<u8>)
    ensures
        valid_header_value(hex_of(b)),
    decreases b.len(),
{
    if b.len() == 0 {
    } else {
        lemma_hex_of_valid(b.drop_last());
        lemma_hex_digit_valid(b.last() / 16);
        lemma_hex_digit_valid(b.last() % 16);
        assert(valid_header_value(byte_hex(b.last())));
        lemma_valid_concat(hex_of(b.drop_last()), byte_hex(b.last()));
    }
}

/// The canonical rendering of an identifier is always a valid header value.
pub proof fn lemma_id_text_valid(b: Seq<u8>)
    ensures
        valid_header_value(id_text(b)),
{
    let h = seq!['-'];
    assert(valid_header_value(h));
    lemma_hex_of_valid(b.subrange(0, 4));
    lemma_hex_of_valid(b.subrange(4, 6));
    lemma_hex_of_valid(b.subrange(6, 8));
    lemma_hex_of_valid(b.subrange(8, 10));
    lemma_hex_of_valid(b.subrange(10, 16));
    lemma_valid_concat(hex_of(b.subrange(0, 4)), h);
    lemma_valid_concat(hex_of(b.subrange(0, 4)) + h, hex_of(b.subrange(4, 6)));
    lemma_valid_concat(hex_of(b.subrange(0, 4)) + h + hex_of(b.subrange(4, 6)), h);
    lemma_valid_concat(
        hex_of(b.subrange(0, 4)) + h + hex_of(b.subrange(4, 6)) + h,
        hex_of(b.subrange(6, 8)),
    );
    lemma_valid_concat(
        hex_of(b.subrange(0, 4)) + h + hex_of(b.subrange(4, 6)) + h + hex_of(b.subrange(6, 8)),
        h,
    );
    lemma_valid_concat(
        hex_of(b.subrange(0, 4)) + h + hex_of(b.subrange(4, 6)) + h + hex_of(b.subrange(6, 8)) + h,
        hex_of(b.subrange(8, 10)),
    );
    lemma_valid_concat(
        hex_of(b.subrange(0, 4)) + h + hex_of(b.subrange(4, 6)) + h + hex_of(b.subrange(6, 8)) + h
            + hex_of(b.subrange(8, 10)),
        h,
    );
    lemma_valid_concat(
        hex_of(b.subrange(0, 4)) + h + hex_of(b.subrange(4, 6)) + h + hex_of(b.subrange(6, 8)) + h
            + hex_of(b.subrange(8, 10)) + h,
        hex_of(b.subrange(10, 16)),
    );
}

} // verus!
