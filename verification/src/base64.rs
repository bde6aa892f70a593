//! Standard base64 (RFC 4648 alphabet, `=` padding), and how an object's bytes
//! are handed to a client: as text where they are UTF-8, else in base64.
use vstd::prelude::*;
use vstd::utf8::{encode_utf8, valid_utf8};
use crate::text::push_char;

verus! {

/// The base64 symbol for a 6-bit value.
pub open spec fn symbol(v: int) -> char {
    if v < 26 {
        (65 + v) as char
    } else if v < 52 {
        (97 + v - 26) as char
    } else if v < 62 {
        (48 + v - 52) as char
    } else if v == 62 {
        '+'
    } else {
        '/'
    }
}

/// The four symbols for a group of one to three bytes; a missing byte counts
/// as zero, and a symbol made only of missing bits is written `=`.
pub open spec fn encode_group(g: Seq<u8>) -> Seq<char> {
    let b0 = g[0] as int;
    let b1 = if g.len() > 1 { g[1] as int } else { 0 };
    let b2 = if g.len() > 2 { g[2] as int } else { 0 };
    seq![
        symbol(b0 / 4),
        symbol((b0 % 4) * 16 + b1 / 16),
        if g.len() > 1 { symbol((b1 % 16) * 4 + b2 / 64) } else { '=' },
        if g.len() > 2 { symbol(b2 % 64) } else { '=' },
    ]
}

/// The base64 encoding of `b`: its groups of three bytes, the last possibly
/// shorter, encoded in order.
pub open spec fn base64(b: Seq<u8>) -> Seq<char>
    decreases b.len(),
{
    if b.len() == 0 {
        seq![]
    } else if b.len() <= 3 {
        encode_group(b)
    } else {
        encode_group(b.take(3)) + base64(b.skip(3))
    }
}

/// Whether `c` is one of the 64 symbols.
pub open spec fn is_symbol(c: char) -> bool {
    exists|v: int| 0 <= v < 64 && symbol(v) == c
}

fn symbol_of(v: u8) -> (c: char)
    requires
        v < 64,
    ensures
        c == symbol(v as int),
{
    if v < 26 {
        (65 + v) as char
    } else if v < 52 {
        (97 + v - 26) as char
    } else if v < 62 {
        (48 + v - 52) as char
    } else if v == 62 {
        '+'
    } else {
        '/'
    }
}

proof fn lemma_group_bits(b0: u8, b1: u8, b2: u8)
    ensures
        b0 >> 2u8 == b0 / 4,
        ((b0 & 3u8) << 4u8) | (b1 >> 4u8) == (b0 % 4) * 16 + b1 / 16,
        ((b1 & 0xfu8) << 2u8) | (b2 >> 6u8) == (b1 % 16) * 4 + b2 / 64,
        b2 & 0x3fu8 == b2 % 64,
{
    assert(b0 >> 2u8 == b0 / 4) by (bit_vector);
    assert(((b0 & 3u8) << 4u8) | (b1 >> 4u8) == (b0 % 4) * 16 + b1 / 16) by (bit_vector);
    assert(((b1 & 0xfu8) << 2u8) | (b2 >> 6u8) == (b1 % 16) * 4 + b2 / 64) by (bit_vector);
    assert(b2 & 0x3fu8 == b2 % 64) by (bit_vector);
}

/// The base64 encoding of `bytes`.
pub fn base64_encode(bytes: &[u8]) -> (s: String)
    ensures
        s@ == base64(bytes@),
{
    let n = bytes.len();
    let mut out = String::new();
    let mut i: usize = 0;
    assert(bytes@.skip(0) =~= bytes@);
    while i < n
        invariant
            n == bytes@.len(),
            i <= n,
            base64(bytes@) == out@ + base64(bytes@.skip(i as int)),
        decreases n - i,
    {
        let rest = n - i;
        let b0 = bytes[i];
        let b1 = if rest > 1 { bytes[i + 1] } else { 0 };
        let b2 = if rest > 2 { bytes[i + 2] } else { 0 };
        proof {
            lemma_group_bits(b0, b1, b2);
        }
        let ghost tail = bytes@.skip(i as int);
        let ghost g = if rest <= 3 { tail } else { tail.take(3) };
        let ghost before = out@;
        push_char(&mut out, symbol_of(b0 >> 2));
        push_char(&mut out, symbol_of(((b0 & 3) << 4) | (b1 >> 4)));
        if rest > 1 {
            push_char(&mut out, symbol_of(((b1 & 0xf) << 2) | (b2 >> 6)));
        } else {
            push_char(&mut out, '=');
        }
        if rest > 2 {
            push_char(&mut out, symbol_of(b2 & 0x3f));
        } else {
            push_char(&mut out, '=');
        }
        assert(out@ =~= before + encode_group(g));
        if rest <= 3 {
            assert(base64(tail) == encode_group(g));
            i = n;
            assert(bytes@.skip(i as int) =~= seq![]);
        } else {
            assert(tail.skip(3) =~= bytes@.skip(i + 3));
            i = i + 3;
        }
    }
    out
}

/// An encoding has four symbols for every group of three bytes, the last
/// group possibly shorter.
pub proof fn lemma_base64_length(b: Seq<u8>)
    ensures
        base64(b).len() == 4 * ((b.len() + 2) / 3),
    decreases b.len(),
{
    if b.len() > 3 {
        lemma_base64_length(b.skip(3));
    }
}

/// Encoding bytes that fill whole groups, followed by more bytes, gives the
/// two encodings one after the other.
pub proof fn lemma_base64_concat(a: Seq<u8>, b: Seq<u8>)
    requires
        a.len() % 3 == 0,
    ensures
        base64(a + b) == base64(a) + base64(b),
    decreases a.len(),
{
    if a.len() == 0 {
        assert(a + b =~= b);
        assert(base64(a) =~= seq![]);
        assert(base64(a) + base64(b) =~= base64(b));
    } else if a.len() == 3 && b.len() == 0 {
        assert(a + b =~= a);
        assert(base64(a) + base64(b) =~= base64(a));
    } else {
        lemma_base64_concat(a.skip(3), b);
        assert((a + b).take(3) =~= a.take(3));
        assert((a + b).skip(3) =~= a.skip(3) + b);
        if a.len() == 3 {
            assert(a.take(3) =~= a);
            assert(a.skip(3) + b =~= b);
            assert(base64(a.skip(3)) =~= seq![]);
            assert(base64(a.skip(3)) + base64(b) =~= base64(b));
        } else {
            assert(base64(a) + base64(b) =~= encode_group(a.take(3)) + (base64(a.skip(3))
                + base64(b)));
        }
    }
}

/// Every character of an encoding is one of the 64 symbols or the pad `=`.
pub proof fn lemma_base64_alphabet(b: Seq<u8>)
    ensures
        forall|i: int|
            0 <= i < base64(b).len() ==> is_symbol(#[trigger] base64(b)[i]) || base64(b)[i]
                == '=',
    decreases b.len(),
{
    if b.len() == 0 {
    } else {
        let g = if b.len() <= 3 { b } else { b.take(3) };
        let b0 = g[0] as int;
        let b1 = if g.len() > 1 { g[1] as int } else { 0 };
        let b2 = if g.len() > 2 { g[2] as int } else { 0 };
        assert(is_symbol(symbol(b0 / 4)));
        assert(is_symbol(symbol((b0 % 4) * 16 + b1 / 16)));
        assert(is_symbol(symbol((b1 % 16) * 4 + b2 / 64)));
        assert(is_symbol(symbol(b2 % 64)));
        if b.len() > 3 {
            lemma_base64_alphabet(b.skip(3));
            let e = base64(b);
            assert forall|i: int| 0 <= i < e.len() implies is_symbol(#[trigger] e[i]) || e[i]
                == '=' by {
                if i >= 4 {
                    assert(e[i] == base64(b.skip(3))[i - 4]);
                }
            }
        }
    }
}

/// How an object's content is written out.
pub enum ContentEncoding {
    Utf8,
    Base64,
}

impl ContentEncoding {
    /// The encoding's name as clients see it.
    pub fn name(&self) -> (s: &'static str)
        ensures
            s@ == match self {
                ContentEncoding::Utf8 => "utf8"@,
                ContentEncoding::Base64 => "base64"@,
            },
    {
        match self {
            ContentEncoding::Utf8 => "utf8",
            ContentEncoding::Base64 => "base64",
        }
    }
}

/// An object's content as text, with how it was written.
pub struct ObjectContent {
    pub content: String,
    pub encoding: ContentEncoding,
}

/// The text of `bytes` where they are valid UTF-8 (`std::str::from_utf8`).
/// The contract claims what std documents: a result exactly for valid UTF-8,
/// and that the string's UTF-8 bytes are the input.
#[verifier::external_body]
fn utf8_text(bytes: &[u8]) -> (r: Option<String>)
    ensures
        r is Some <==> valid_utf8(bytes@),
        r matches Some(s) ==> encode_utf8(s@) == bytes@,
{
    std::str::from_utf8(bytes).ok().map(String::from)
}

/// An object's bytes for a client: the text itself where the bytes are UTF-8,
/// else their base64 encoding.
pub fn object_content(bytes: &[u8]) -> (c: ObjectContent)
    ensures
        valid_utf8(bytes@) ==> c.encoding is Utf8 && encode_utf8(c.content@) == bytes@,
        !valid_utf8(bytes@) ==> c.encoding is Base64 && c.content@ == base64(bytes@),
{
    match utf8_text(bytes) {
        Some(s) => ObjectContent { content: s, encoding: ContentEncoding::Utf8 },
        None => ObjectContent { content: base64_encode(bytes), encoding: ContentEncoding::Base64 },
    }
}

/// The text of a byte payload where it is UTF-8, else the empty text.
pub fn payload_text(bytes: &[u8]) -> (s: String)
    ensures
        valid_utf8(bytes@) ==> encode_utf8(s@) == bytes@,
        !valid_utf8(bytes@) ==> s@.len() == 0,
{
    match utf8_text(bytes) {
        Some(s) => s,
        None => String::new(),
    }
}

} // verus!
