//! Base64 text of encoded images, and the capture timestamp.

use vstd::prelude::*;

verus! {

/// The character of the standard Base64 alphabet for a 6-bit value.
pub open spec fn base64_char(v: nat) -> char {
    if v < 26 {
        ((v + 65) as u32) as char
    } else if v < 52 {
        ((v - 26 + 97) as u32) as char
    } else if v < 62 {
        ((v - 52 + 48) as u32) as char
    } else if v == 62 {
        '+'
    } else {
        '/'
    }
}

/// Standard Base64 (RFC 4648 alphabet, `=` padding) of `b`.
pub open spec fn base64_encode(b: Seq<u8>) -> Seq<char>
    decreases b.len(),
{
    if b.len() == 0 {
        Seq::empty()
    } else if b.len() == 1 {
        seq![base64_char(b[0] as nat / 4), base64_char((b[0] as nat % 4) * 16), '=', '=']
    } else if b.len() == 2 {
        seq![
            base64_char(b[0] as nat / 4),
            base64_char((b[0] as nat % 4) * 16 + b[1] as nat / 16),
            base64_char((b[1] as nat % 16) * 4),
            '=',
        ]
    } else {
        seq![
            base64_char(b[0] as nat / 4),
            base64_char((b[0] as nat % 4) * 16 + b[1] as nat / 16),
            base64_char((b[1] as nat % 16) * 4 + b[2] as nat / 64),
            base64_char(b[2] as nat % 64),
        ] + base64_encode(b.skip(3))
    }
}

/// Encodes bytes as standard padded Base64
/// (`base64::engine::general_purpose::STANDARD.encode`).
#[verifier::external_body]
pub(crate) fn base64_standard(bytes: &[u8]) -> (r: String)
    ensures
        r@ == base64_encode(bytes@),
{
    base64::Engine::encode(&base64::engine::general_purpose::STANDARD, bytes)
}

/// The current local time in RFC 3339 form (`chrono::Local::now().to_rfc3339()`).
/// Nothing is stated of the text: it depends on the clock and the time zone.
#[verifier::external_body]
pub(crate) fn local_timestamp_rfc3339() -> (r: String) {
    chrono::Local::now().to_rfc3339()
}

/// No Base64 digit is the padding character `=`, and distinct 6-bit values
/// have distinct digits.
proof fn lemma_base64_char(u: nat, v: nat)
    requires
        u < 64,
        v < 64,
    ensures
        base64_char(u) != '=',
        base64_char(u) == base64_char(v) ==> u == v,
{
}

/// The first group of an encoding of at least three bytes holds no padding.
proof fn lemma_full_group(b: Seq<u8>)
    requires
        b.len() >= 3,
    ensures
        base64_encode(b).len() >= 4,
        base64_encode(b)[2] != '=',
        base64_encode(b)[3] != '=',
        base64_encode(b).subrange(0, 4) == seq![
            base64_char(b[0] as nat / 4),
            base64_char((b[0] as nat % 4) * 16 + b[1] as nat / 16),
            base64_char((b[1] as nat % 16) * 4 + b[2] as nat / 64),
            base64_char(b[2] as nat % 64),
        ],
        base64_encode(b).skip(4) == base64_encode(b.skip(3)),
{
    lemma_base64_char((b[1] as nat % 16) * 4 + b[2] as nat / 64, 0);
    lemma_base64_char(b[2] as nat % 64, 0);
    let e = base64_encode(b);
    let head = seq![
        base64_char(b[0] as nat / 4),
        base64_char((b[0] as nat % 4) * 16 + b[1] as nat / 16),
        base64_char((b[1] as nat % 16) * 4 + b[2] as nat / 64),
        base64_char(b[2] as nat % 64),
    ];
    assert(e == head + base64_encode(b.skip(3)));
    assert(e.subrange(0, 4) =~= head);
    assert(e.skip(4) =~= base64_encode(b.skip(3)));
}

/// Distinct byte strings have distinct Base64 encodings.
pub proof fn lemma_base64_injective(a: Seq<u8>, b: Seq<u8>)
    requires
        base64_encode(a) == base64_encode(b),
    ensures
        a == b,
    decreases a.len(),
{
    let e = base64_encode(a);
    if a.len() >= 3 && b.len() >= 3 {
        lemma_full_group(a);
        lemma_full_group(b);
        let (a0, a1, a2) = (a[0] as nat, a[1] as nat, a[2] as nat);
        let (b0, b1, b2) = (b[0] as nat, b[1] as nat, b[2] as nat);
        assert(e.subrange(0, 4)[0] == base64_char(a0 / 4));
        assert(e.subrange(0, 4)[0] == base64_char(b0 / 4));
        lemma_base64_char(a0 / 4, b0 / 4);
        lemma_base64_char((a0 % 4) * 16 + a1 / 16, (b0 % 4) * 16 + b1 / 16);
        lemma_base64_char((a1 % 16) * 4 + a2 / 64, (b1 % 16) * 4 + b2 / 64);
        lemma_base64_char(a2 % 64, b2 % 64);
        assert(e.subrange(0, 4)[1] == base64_char((a0 % 4) * 16 + a1 / 16));
        assert(e.subrange(0, 4)[1] == base64_char((b0 % 4) * 16 + b1 / 16));
        assert(e.subrange(0, 4)[2] == base64_char((a1 % 16) * 4 + a2 / 64));
        assert(e.subrange(0, 4)[2] == base64_char((b1 % 16) * 4 + b2 / 64));
        assert(e.subrange(0, 4)[3] == base64_char(a2 % 64));
        assert(e.subrange(0, 4)[3] == base64_char(b2 % 64));
        assert(a0 == b0 && a1 == b1 && a2 == b2);
        lemma_base64_injective(a.skip(3), b.skip(3));
        assert(a =~= a.take(3) + a.skip(3));
        assert(b =~= b.take(3) + b.skip(3));
        assert(a.take(3) =~= b.take(3));
    } else if a.len() >= 3 {
        lemma_full_group(a);
        if b.len() == 1 {
            assert(base64_encode(b)[3] == '=');
        } else if b.len() == 2 {
            assert(base64_encode(b)[3] == '=');
        }
    } else if b.len() >= 3 {
        lemma_full_group(b);
        if a.len() == 1 {
            assert(e[3] == '=');
        } else if a.len() == 2 {
            assert(e[3] == '=');
        }
    } else {
        if a.len() == 1 && b.len() == 1 {
            lemma_base64_char(a[0] as nat / 4, b[0] as nat / 4);
            lemma_base64_char((a[0] as nat % 4) * 16, (b[0] as nat % 4) * 16);
            assert(e[0] == base64_char(a[0] as nat / 4));
            assert(e[1] == base64_char((a[0] as nat % 4) * 16));
            assert(a =~= b);
        } else if a.len() == 2 && b.len() == 2 {
            let (a0, a1, b0, b1) = (a[0] as nat, a[1] as nat, b[0] as nat, b[1] as nat);
            lemma_base64_char(a0 / 4, b0 / 4);
            lemma_base64_char((a0 % 4) * 16 + a1 / 16, (b0 % 4) * 16 + b1 / 16);
            lemma_base64_char((a1 % 16) * 4, (b1 % 16) * 4);
            assert(e[0] == base64_char(a0 / 4));
            assert(e[1] == base64_char((a0 % 4) * 16 + a1 / 16));
            assert(e[2] == base64_char((a1 % 16) * 4));
            assert(a =~= b);
        } else if a.len() == 1 && b.len() == 2 {
            lemma_base64_char((b[1] as nat % 16) * 4, 0);
            assert(base64_encode(b)[2] != '=');
        } else if a.len() == 2 && b.len() == 1 {
            lemma_base64_char((a[1] as nat % 16) * 4, 0);
            assert(e[2] != '=');
        } else {
            assert(a.len() == 0 || b.len() == 0);
        }
    }
}

} // verus!
