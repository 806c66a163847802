//! Digests, random bytes, and the encodings that carry them.

use base64::Engine;
use rand::RngCore;
use sha2::Digest;
use vstd::prelude::*;

verus! {

/// The groups of six bits that bytes fall into, in order; what the last group lacks is zero.
pub open spec fn sextets(b: Seq<u8>) -> Seq<int>
    decreases b.len(),
{
    if b.len() == 0 {
        seq![]
    } else if b.len() == 1 {
        seq![b[0] as int / 4, b[0] as int % 4 * 16]
    } else if b.len() == 2 {
        seq![b[0] as int / 4, b[0] as int % 4 * 16 + b[1] as int / 16, b[1] as int % 16 * 4]
    } else {
        seq![
            b[0] as int / 4,
            b[0] as int % 4 * 16 + b[1] as int / 16,
            b[1] as int % 16 * 4 + b[2] as int / 64,
            b[2] as int % 64,
        ] + sextets(b.skip(3))
    }
}

/// A letter or digit of a base64 alphabet; the last two of its 64 characters are given.
pub open spec fn base64_digit(d: int, last: (char, char)) -> char {
    if d < 26 {
        (65 + d) as char
    } else if d < 52 {
        (71 + d) as char
    } else if d < 62 {
        (d - 4) as char
    } else if d == 62 {
        last.0
    } else {
        last.1
    }
}

/// Bytes in the URL-safe base64 alphabet, without padding.
pub open spec fn base64url(b: Seq<u8>) -> Seq<char> {
    sextets(b).map_values(|d: int| base64_digit(d, ('-', '_')))
}

/// Bytes in the standard base64 alphabet, padded with `=` to a multiple of four characters.
pub open spec fn base64(b: Seq<u8>) -> Seq<char> {
    sextets(b).map_values(|d: int| base64_digit(d, ('+', '/'))) + (if b.len() % 3 == 1 {
        seq!['=', '=']
    } else if b.len() % 3 == 2 {
        seq!['=']
    } else {
        seq![]
    })
}

/// `base64`'s `Engine::encode` with the engine `URL_SAFE_NO_PAD`: the bytes in the URL-safe
/// alphabet, without padding.
#[verifier::external_body]
pub(crate) fn encode_base64url(bytes: &[u8]) -> (r: String)
    ensures
        r@ == base64url(bytes@),
{
    base64::engine::general_purpose::URL_SAFE_NO_PAD.encode(bytes)
}

/// The bytes that a text writes in padded base64 of the standard alphabet; none where it writes
/// none.
pub open spec fn base64_bytes(text: Seq<char>) -> Option<Seq<u8>> {
    if exists|b: Seq<u8>| #[trigger] base64(b) == text {
        Some(choose|b: Seq<u8>| #[trigger] base64(b) == text)
    } else {
        None
    }
}

/// Bytes, where there are some.
pub open spec fn bytes_opt(b: Option<Vec<u8>>) -> Option<Seq<u8>> {
    match b {
        Some(v) => Some(v@),
        None => None,
    }
}

/// `base64`'s `Engine::decode` with the engine `STANDARD`: the bytes whose padded base64 the text
/// is. There are none where the text holds another character, lacks padding or has too much of it,
/// or sets bits of the last group that belong to no byte.
#[verifier::external_body]
fn decode_standard(text: &str) -> (r: Option<Vec<u8>>)
    ensures
        match r {
            Some(b) => base64(b@) == text@,
            None => forall|b: Seq<u8>| #[trigger] base64(b) != text@,
        },
{
    base64::engine::general_purpose::STANDARD.decode(text).ok()
}

/// The bytes that a text writes in padded base64 of the standard alphabet.
pub(crate) fn decode_base64(text: &str) -> (r: Option<Vec<u8>>)
    ensures
        bytes_opt(r) == base64_bytes(text@),
{
    let r = decode_standard(text);
    proof {
        if r is Some {
            law_base64_is_injective(r->0@, base64_bytes(text@)->0);
        }
    }
    r
}

/// The SHA-256 digest of a message.
pub uninterp spec fn sha256(message: Seq<u8>) -> Seq<u8>;

/// `sha2::Sha256::digest`: 32 bytes.
#[verifier::external_body]
pub(crate) fn digest(message: &[u8]) -> (r: Vec<u8>)
    ensures
        r@ == sha256(message@),
        r.len() == 32,
{
    sha2::Sha256::digest(message).to_vec()
}

/// `rand`'s `RngCore::fill_bytes` on the thread's generator: as many bytes as asked for. Which
/// ones, is left to chance.
#[verifier::external_body]
pub(crate) fn random_bytes(count: usize) -> (r: Vec<u8>)
    ensures
        r.len() == count,
{
    let mut bytes = vec![0u8; count];
    rand::thread_rng().fill_bytes(&mut bytes);
    bytes
}

proof fn lemma_sextets(b: Seq<u8>)
    ensures
        sextets(b).len() == (b.len() * 4 + 2) / 3,
        forall|i: int| 0 <= i < sextets(b).len() ==> 0 <= #[trigger] sextets(b)[i] < 64,
    decreases b.len(),
{
    if b.len() >= 3 {
        let rest = sextets(b.skip(3));
        lemma_sextets(b.skip(3));
        assert forall|i: int| 0 <= i < sextets(b).len() implies 0 <= #[trigger] sextets(b)[i] < 64 by {
            if i >= 4 {
                assert(sextets(b)[i] == rest[i - 4]);
            }
        }
    }
}

/// Different bytes fall into different groups.
proof fn lemma_sextets_differ(a: Seq<u8>, b: Seq<u8>)
    requires
        sextets(a) == sextets(b),
    ensures
        a == b,
    decreases a.len(),
{
    lemma_sextets(a);
    lemma_sextets(b);
    assert(a.len() == b.len());
    let x = sextets(a);
    let y = sextets(b);
    if a.len() >= 3 {
        assert(x[0] == y[0] && x[1] == y[1] && x[2] == y[2] && x[3] == y[3]);
        assert(sextets(a.skip(3)) =~= x.skip(4));
        assert(sextets(b.skip(3)) =~= y.skip(4));
        lemma_sextets_differ(a.skip(3), b.skip(3));
        assert(a[0] == b[0] && a[1] == b[1] && a[2] == b[2]);
        assert forall|i: int| 0 <= i < a.len() implies a[i] == b[i] by {
            if i >= 3 {
                assert(a.skip(3)[i - 3] == b.skip(3)[i - 3]);
            }
        }
        assert(a =~= b);
    } else if a.len() == 2 {
        assert(x[0] == y[0] && x[1] == y[1] && x[2] == y[2]);
        assert(a =~= b);
    } else if a.len() == 1 {
        assert(x[0] == y[0] && x[1] == y[1]);
        assert(a =~= b);
    } else {
        assert(a =~= b);
    }
}

/// Different groups are written differently, and none as `=`.
proof fn lemma_digits(d: int, e: int, last: (char, char))
    requires
        0 <= d < 64,
        0 <= e < 64,
        last == ('-', '_') || last == ('+', '/'),
    ensures
        base64_digit(d, last) == base64_digit(e, last) ==> d == e,
        base64_digit(d, last) != '=',
{
}

/// `n` bytes make `n * 4 / 3` digits, rounded up.
pub proof fn law_base64url_length(b: Seq<u8>)
    ensures
        base64url(b).len() == (b.len() * 4 + 2) / 3,
{
    lemma_sextets(b);
}

/// A character that a URL holds as it is.
pub open spec fn is_url_safe(c: char) -> bool {
    ('A' <= c && c <= 'Z') || ('a' <= c && c <= 'z') || ('0' <= c && c <= '9') || c == '-' || c == '_'
}

/// Every digit can stand in a URL as it is.
pub proof fn law_base64url_is_url_safe(b: Seq<u8>)
    ensures
        forall|i: int| 0 <= i < base64url(b).len() ==> is_url_safe(#[trigger] base64url(b)[i]),
{
    lemma_sextets(b);
    assert forall|i: int| 0 <= i < base64url(b).len() implies is_url_safe(#[trigger] base64url(b)[i]) by {
        assert(0 <= sextets(b)[i] < 64);
    }
}

/// Different bytes are written differently in the URL-safe alphabet.
pub proof fn law_base64url_is_injective(a: Seq<u8>, b: Seq<u8>)
    requires
        base64url(a) == base64url(b),
    ensures
        a == b,
{
    lemma_sextets(a);
    lemma_sextets(b);
    assert(base64url(a).len() == sextets(a).len() && base64url(b).len() == sextets(b).len());
    assert forall|i: int| 0 <= i < sextets(a).len() implies sextets(a)[i] == sextets(b)[i] by {
        assert(base64url(a)[i] == base64_digit(sextets(a)[i], ('-', '_')));
        assert(base64url(b)[i] == base64_digit(sextets(b)[i], ('-', '_')));
        lemma_digits(sextets(a)[i], sextets(b)[i], ('-', '_'));
    }
    assert(sextets(a) =~= sextets(b));
    lemma_sextets_differ(a, b);
}

/// Different bytes are written differently in the standard alphabet.
pub proof fn law_base64_is_injective(a: Seq<u8>, b: Seq<u8>)
    requires
        base64(a) == base64(b),
    ensures
        a == b,
{
    lemma_sextets(a);
    lemma_sextets(b);
    let m = sextets(a).len() as int;
    let n = sextets(b).len() as int;
    assert(base64(a).len() == base64(b).len());
    if m < n {
        assert(base64(a)[m] == '=');
        lemma_digits(sextets(b)[m], sextets(b)[m], ('+', '/'));
        assert(base64(b)[m] == base64_digit(sextets(b)[m], ('+', '/')));
    } else if n < m {
        assert(base64(b)[n] == '=');
        lemma_digits(sextets(a)[n], sextets(a)[n], ('+', '/'));
        assert(base64(a)[n] == base64_digit(sextets(a)[n], ('+', '/')));
    }
    assert forall|i: int| 0 <= i < m implies sextets(a)[i] == sextets(b)[i] by {
        assert(base64(a)[i] == base64(b)[i]);
        assert(base64(a)[i] == base64_digit(sextets(a)[i], ('+', '/')));
        assert(base64(b)[i] == base64_digit(sextets(b)[i], ('+', '/')));
        lemma_digits(sextets(a)[i], sextets(b)[i], ('+', '/'));
    }
    assert(sextets(a) =~= sextets(b));
    lemma_sextets_differ(a, b);
}

/// The digits of base64 are the capital letters, the small ones, the figures and the two last, in this
/// order.
pub proof fn law_digits_stand_in_order(d: int, last: (char, char))
    ensures
        0 <= d < 26 ==> base64_digit(d, last) as int == 'A' as int + d,
        26 <= d < 52 ==> base64_digit(d, last) as int == 'a' as int + (d - 26),
        52 <= d < 62 ==> base64_digit(d, last) as int == '0' as int + (d - 52),
        base64_digit(62, last) == last.0,
        base64_digit(63, last) == last.1,
{
}

/// Three bytes are four digits, whose numbers in base 64 are the bytes' in base 256.
pub proof fn law_three_bytes_are_four_digits(b: Seq<u8>)
    requires
        b.len() == 3,
    ensures
        sextets(b).len() == 4,
        ((sextets(b)[0] * 64 + sextets(b)[1]) * 64 + sextets(b)[2]) * 64 + sextets(b)[3] == (b[0] * 256 + b[1]) * 256
            + b[2],
        base64url(b).len() == 4,
        base64(b).len() == 4,
{
    assert(sextets(b.skip(3)) =~= seq![]);
}

} // verus!
