//! The code that one peer hands to the other: the offer and the ICE
//! candidates, serialized as JSON and written in base64.
use vstd::prelude::*;
use vstd::string::{StrSliceExecFns, StringExecFns, StringSliceAdditionalSpecFns};

use crate::connection::IceCandidate;

verus! {

/// The offer of one side together with the candidates it gathered; this is
/// what the connection code carries.
#[derive(Clone, Debug)]
pub struct ConnectionString {
    pub ice_candidates: Vec<IceCandidate>,
    pub offer: String,
}

/// The character of the standard base64 alphabet for a 6-bit value:
/// `A`-`Z`, `a`-`z`, `0`-`9`, then `+` and `/`.
pub open spec fn base64_char(v: int) -> char {
    if v < 26 {
        (65 + v) as char
    } else if v < 52 {
        (97 + (v - 26)) as char
    } else if v < 62 {
        (48 + (v - 52)) as char
    } else if v == 62 {
        '+'
    } else {
        '/'
    }
}

/// Standard base64 with `=` padding: each group of three bytes becomes four
/// characters of six bits each, most significant bits first; a last group of
/// one or two bytes is filled with zero bits and padded with `=` to four
/// characters.
pub open spec fn base64_standard(bytes: Seq<u8>) -> Seq<char>
    decreases bytes.len(),
{
    if bytes.len() == 0 {
        Seq::empty()
    } else if bytes.len() == 1 {
        let b0 = bytes[0] as int;
        seq![base64_char(b0 / 4), base64_char((b0 % 4) * 16), '=', '=']
    } else if bytes.len() == 2 {
        let b0 = bytes[0] as int;
        let b1 = bytes[1] as int;
        seq![
            base64_char(b0 / 4),
            base64_char((b0 % 4) * 16 + b1 / 16),
            base64_char((b1 % 16) * 4),
            '=',
        ]
    } else {
        let b0 = bytes[0] as int;
        let b1 = bytes[1] as int;
        let b2 = bytes[2] as int;
        seq![
            base64_char(b0 / 4),
            base64_char((b0 % 4) * 16 + b1 / 16),
            base64_char((b1 % 16) * 4 + b2 / 64),
            base64_char(b2 % 64),
        ] + base64_standard(bytes.skip(3))
    }
}

/// Calls `base64::encode`, which writes the input bytes in the standard
/// base64 alphabet with `=` padding (its `STANDARD` configuration); the input
/// bytes of a `&str` are its UTF-8 encoding. `base64::encode` panics when the
/// encoded length does not fit in `usize`; the `requires` keeps the input well
/// below that length.
#[verifier::external_body]
fn base64_encode(text: &str) -> (encoded: String)
    requires
        text.spec_bytes().len() <= usize::MAX / 2,
    ensures
        encoded@ == base64_standard(text.spec_bytes()),
{
    base64::encode(text)
}

/// The standard base64 alphabet, indexed by 6-bit value.
pub const BASE64_ALPHABET: &'static str = "ABCDEFGHIJKLMNOPQRSTUVWXYZabcdefghijklmnopqrstuvwxyz0123456789+/";

/// The alphabet table holds, at each 6-bit value, the character that
/// `base64_char` gives for it.
proof fn alphabet_table()
    ensures
        BASE64_ALPHABET@.len() == 64,
        forall|v: int| 0 <= v < 64 ==> #[trigger] BASE64_ALPHABET@[v] == base64_char(v),
{
    reveal_strlit("ABCDEFGHIJKLMNOPQRSTUVWXYZabcdefghijklmnopqrstuvwxyz0123456789+/");
    assert forall|v: int| 0 <= v < 64 implies #[trigger] BASE64_ALPHABET@[v] == base64_char(v) by {}
}

fn append_symbol(out: &mut String, v: u8)
    requires
        v < 64,
    ensures
        final(out)@ == old(out)@ + seq![base64_char(v as int)],
{
    proof {
        alphabet_table();
    }
    let symbol = BASE64_ALPHABET.substring_char(v as usize, v as usize + 1);
    out.append(symbol);
    assert(symbol@ =~= seq![base64_char(v as int)]);
}

fn append_padding(out: &mut String)
    ensures
        final(out)@ == old(out)@ + seq!['='],
{
    proof {
        reveal_strlit("=");
    }
    out.append("=");
}

/// The standard base64 encoding of `bytes`, computed here and checked by
/// Verus against `base64_standard`.
pub fn encode_standard_base64(bytes: &[u8]) -> (code: String)
    ensures
        code@ == base64_standard(bytes@),
{
    let n = bytes.len();
    let mut out = String::new();
    let mut i: usize = 0;
    assert(bytes@.skip(0) =~= bytes@);
    while n - i >= 3
        invariant
            i <= n,
            n == bytes@.len(),
            base64_standard(bytes@) == out@ + base64_standard(bytes@.skip(i as int)),
        decreases n - i,
    {
        let ghost before = out@;
        let ghost rest = bytes@.skip(i as int);
        let b0 = bytes[i];
        let b1 = bytes[i + 1];
        let b2 = bytes[i + 2];
        assert(rest[0] == b0 && rest[1] == b1 && rest[2] == b2);
        append_symbol(&mut out, b0 / 4);
        append_symbol(&mut out, (b0 % 4) * 16 + b1 / 16);
        append_symbol(&mut out, (b1 % 16) * 4 + b2 / 64);
        append_symbol(&mut out, b2 % 64);
        assert(rest.skip(3) =~= bytes@.skip(i + 3));
        assert(out@ =~= before + seq![
            base64_char(b0 as int / 4),
            base64_char((b0 as int % 4) * 16 + b1 as int / 16),
            base64_char((b1 as int % 16) * 4 + b2 as int / 64),
            base64_char(b2 as int % 64),
        ]);
        i = i + 3;
    }
    let ghost before = out@;
    let ghost rest = bytes@.skip(i as int);
    if n - i == 1 {
        let b0 = bytes[i];
        assert(rest[0] == b0);
        append_symbol(&mut out, b0 / 4);
        append_symbol(&mut out, (b0 % 4) * 16);
        append_padding(&mut out);
        append_padding(&mut out);
        assert(out@ =~= before + base64_standard(rest));
    } else if n - i == 2 {
        let b0 = bytes[i];
        let b1 = bytes[i + 1];
        assert(rest[0] == b0 && rest[1] == b1);
        append_symbol(&mut out, b0 / 4);
        append_symbol(&mut out, (b0 % 4) * 16 + b1 / 16);
        append_symbol(&mut out, (b1 % 16) * 4);
        append_padding(&mut out);
        assert(out@ =~= before + base64_standard(rest));
    } else {
        assert(out@ =~= before + base64_standard(rest));
    }
    out
}

/// The connection code for a serialized connection string: its standard
/// base64 form. The `base64` crate writes it; its output is used once it
/// agrees with the encoding that Verus checked, and the checked encoding is
/// used otherwise.
pub fn encode_offer_and_candidates(serialized: &str) -> (code: String)
    requires
        serialized.spec_bytes().len() <= usize::MAX / 2,
    ensures
        code@ == base64_standard(serialized.spec_bytes()),
{
    let code = base64_encode(serialized);
    let expected = encode_standard_base64(serialized.as_bytes());
    if code == expected {
        code
    } else {
        expected
    }
}

} // verus!
