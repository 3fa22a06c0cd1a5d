use vstd::prelude::*;

use base64::Engine;

use crate::error::{AppError, AppErrorV, rv};
use crate::text::concat2;
use crate::youtrack::YouTrack;

verus! {

/// The character of the standard base64 alphabet (RFC 4648) for `v` in `0..64`.
pub open spec fn b64_char(v: int) -> char {
    if v < 26 {
        (65 + v) as char
    } else if v < 52 {
        (97 + (v - 26)) as char
    } else if v < 62 {
        (48 + (v - 52)) as char
    } else if v == 62 {
        '+'
    } else {
        '/'
    }
}

/// Standard base64 with `=` padding (RFC 4648, section 4), three bytes to
/// four characters.
pub open spec fn b64_encode_spec(b: Seq<u8>) -> Seq<char>
    decreases b.len(),
{
    if b.len() == 0 {
        Seq::empty()
    } else if b.len() == 1 {
        seq![b64_char((b[0] as int) / 4), b64_char(((b[0] as int) % 4) * 16), '=', '=']
    } else if b.len() == 2 {
        seq![
            b64_char((b[0] as int) / 4),
            b64_char(((b[0] as int) % 4) * 16 + (b[1] as int) / 16),
            b64_char(((b[1] as int) % 16) * 4),
            '=',
        ]
    } else {
        seq![
            b64_char((b[0] as int) / 4),
            b64_char(((b[0] as int) % 4) * 16 + (b[1] as int) / 16),
            b64_char(((b[1] as int) % 16) * 4 + (b[2] as int) / 64),
            b64_char((b[2] as int) % 64),
        ] + b64_encode_spec(b.skip(3))
    }
}

/// The message of the error `STANDARD.decode` reports for `s`.
pub uninterp spec fn b64_decode_error(s: Seq<char>) -> Seq<char>;

/// `base64::engine::general_purpose::STANDARD.encode`. Claimed: the result
/// is the padded standard encoding of `b`. Inputs longer than half the
/// address space are left out (the engine panics computing the output size).
#[verifier::external_body]
fn standard_encode(b: &[u8]) -> (r: String)
    requires
        b@.len() <= usize::MAX / 2,
    ensures
        r@ == b64_encode_spec(b@),
{
    base64::engine::general_purpose::STANDARD.encode(b)
}

/// `base64::engine::general_purpose::STANDARD.decode`, its error rendered
/// with `Display`. Claimed: that engine requires canonical padding and no
/// trailing bits, so it accepts exactly the strings that are the encoding of
/// some bytes, and gives back those bytes; the error message is the named
/// text of `s`.
#[verifier::external_body]
fn standard_decode(s: &str) -> (r: Result<Vec<u8>, String>)
    ensures
        (exists|v: Seq<u8>| b64_encode_spec(v) == s@) ==> r is Ok,
        r matches Ok(v) ==> b64_encode_spec(v@) == s@,
        r matches Err(m) ==> m@ == b64_decode_error(s@),
{
    match base64::engine::general_purpose::STANDARD.decode(s) {
        Ok(v) => Ok(v),
        Err(e) => Err(e.to_string()),
    }
}

/// The code point of the alphabet character for `v`.
pub open spec fn b64_code(v: int) -> int {
    if v < 26 {
        65 + v
    } else if v < 52 {
        71 + v
    } else if v < 62 {
        v - 4
    } else if v == 62 {
        43
    } else {
        47
    }
}

proof fn lemma_b64_char(v: int)
    requires
        0 <= v < 64,
    ensures
        b64_char(v) as int == b64_code(v),
        b64_char(v) != '=',
{
    assert('=' as int == 61);
    assert('+' as int == 43);
    assert('/' as int == 47);
}

proof fn lemma_b64_char_injective(x: int, y: int)
    requires
        0 <= x < 64,
        0 <= y < 64,
        b64_char(x) == b64_char(y),
    ensures
        x == y,
{
    lemma_b64_char(x);
    lemma_b64_char(y);
}

proof fn lemma_b64_len(b: Seq<u8>)
    ensures
        b.len() == 0 ==> b64_encode_spec(b).len() == 0,
        b.len() > 0 ==> b64_encode_spec(b).len() >= 4,
        b.len() == 1 ==> b64_encode_spec(b)[2] == '=' && b64_encode_spec(b)[3] == '=',
        b.len() == 2 ==> b64_encode_spec(b)[2] != '=' && b64_encode_spec(b)[3] == '=',
        b.len() >= 3 ==> b64_encode_spec(b)[2] != '=' && b64_encode_spec(b)[3] != '=',
        b.len() > 0 ==> b64_encode_spec(b)[0] == b64_char((b[0] as int) / 4),
        b.len() == 1 ==> b64_encode_spec(b)[1] == b64_char(((b[0] as int) % 4) * 16),
        b.len() >= 2 ==> b64_encode_spec(b)[1] == b64_char(
            ((b[0] as int) % 4) * 16 + (b[1] as int) / 16,
        ),
        b.len() == 2 ==> b64_encode_spec(b)[2] == b64_char(((b[1] as int) % 16) * 4),
        b.len() >= 3 ==> b64_encode_spec(b)[2] == b64_char(
            ((b[1] as int) % 16) * 4 + (b[2] as int) / 64,
        ) && b64_encode_spec(b)[3] == b64_char((b[2] as int) % 64),
{
    if b.len() == 2 {
        lemma_b64_char(((b[1] as int) % 16) * 4);
    }
    if b.len() >= 3 {
        lemma_b64_char(((b[1] as int) % 16) * 4 + (b[2] as int) / 64);
        lemma_b64_char((b[2] as int) % 64);
    }
}

/// Different bytes have different encodings.
pub proof fn lemma_b64_encode_injective(a: Seq<u8>, b: Seq<u8>)
    requires
        b64_encode_spec(a) == b64_encode_spec(b),
    ensures
        a == b,
    decreases a.len(),
{
    let ea = b64_encode_spec(a);
    let eb = b64_encode_spec(b);
    lemma_b64_len(a);
    lemma_b64_len(b);
    if a.len() == 0 {
        assert(b.len() == 0);
        assert(a =~= b);
        return;
    }
    assert(b.len() > 0);
    let a0 = a[0] as int;
    let b0 = b[0] as int;
    assert(ea[0] == eb[0]);
    lemma_b64_char_injective(a0 / 4, b0 / 4);
    if a.len() == 1 {
        assert(b.len() == 1);
        assert(ea[1] == eb[1]);
        lemma_b64_char_injective((a0 % 4) * 16, (b0 % 4) * 16);
        assert(a =~= b);
        return;
    }
    assert(b.len() >= 2);
    let a1 = a[1] as int;
    let b1 = b[1] as int;
    assert(ea[1] == eb[1]);
    lemma_b64_char_injective((a0 % 4) * 16 + a1 / 16, (b0 % 4) * 16 + b1 / 16);
    if a.len() == 2 {
        assert(b.len() == 2);
        assert(ea[2] == eb[2]);
        lemma_b64_char_injective((a1 % 16) * 4, (b1 % 16) * 4);
        assert(a =~= b);
        return;
    }
    assert(b.len() >= 3);
    let a2 = a[2] as int;
    let b2 = b[2] as int;
    assert(ea[2] == eb[2] && ea[3] == eb[3]);
    lemma_b64_char_injective((a1 % 16) * 4 + a2 / 64, (b1 % 16) * 4 + b2 / 64);
    lemma_b64_char_injective(a2 % 64, b2 % 64);
    let ra = b64_encode_spec(a.skip(3));
    let rb = b64_encode_spec(b.skip(3));
    assert(ea.skip(4) =~= ra);
    assert(eb.skip(4) =~= rb);
    lemma_b64_encode_injective(a.skip(3), b.skip(3));
    assert(a =~= b) by {
        assert forall|i: int| 0 <= i < a.len() implies a[i] == b[i] by {
            if i >= 3 {
                assert(a[i] == a.skip(3)[i - 3]);
                assert(b[i] == b.skip(3)[i - 3]);
            }
        }
    }
}

impl YouTrack {
    /// Decodes standard padded base64.
    pub fn b64_decode(s: &str) -> (r: Result<Vec<u8>, AppError>)
        ensures
            r matches Ok(v) ==> b64_encode_spec(v@) == s@,
            forall|v: Seq<u8>| b64_encode_spec(v) == s@ ==> (r matches Ok(x) && x@ == v),
            (forall|v: Seq<u8>| b64_encode_spec(v) != s@) ==> (r matches Err(e) && e@
                == AppErrorV::Bad("bad base64: "@ + b64_decode_error(s@))),
    {
        match standard_decode(s) {
            Ok(v) => {
                proof {
                    assert forall|w: Seq<u8>| b64_encode_spec(w) == s@ implies v@ == w by {
                        lemma_b64_encode_injective(v@, w);
                    }
                }
                Ok(v)
            },
            Err(m) => Err(AppError::Bad(concat2("bad base64: ", m.as_str()))),
        }
    }

    /// Encodes bytes as standard padded base64.
    pub fn b64_encode(b: &[u8]) -> (r: String)
        requires
            b@.len() <= usize::MAX / 2,
        ensures
            r@ == b64_encode_spec(b@),
    {
        standard_encode(b)
    }
}

} // verus!
