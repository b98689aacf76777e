use vstd::prelude::*;

use vstd::string::StringExecFns;

verus! {

/// The MD5 digest of `data`, the 16 bytes that `md5::compute` returns for it.
pub uninterp spec fn md5_digest(data: Seq<u8>) -> Seq<u8>;

/// `md5::compute` of the md5 crate: the MD5 digest of `data`, which the crate
/// returns as `Digest([u8; 16])`. Claimed: the 16 bytes are `md5_digest(data)`,
/// a function of `data` alone.
#[verifier::external_body]
fn md5_compute(data: &[u8]) -> (digest: [u8; 16])
    ensures
        digest@ == md5_digest(data@),
{
    md5::compute(data).0
}

/// The lower-case hexadecimal digit for a value below 16.
pub open spec fn hex_digit(n: u8) -> char
    recommends
        n < 16,
{
    if n < 10 {
        ((48 + n) as u8) as char
    } else {
        ((87 + n) as u8) as char
    }
}

/// Whether `c` is a lower-case hexadecimal digit.
pub open spec fn is_lower_hex_char(c: char) -> bool {
    ('0' <= c && c <= '9') || ('a' <= c && c <= 'f')
}

/// `bytes` written in lower-case hexadecimal, two digits per byte, high half
/// first; what `format!("{:x}", digest)` writes for an md5 `Digest`.
pub open spec fn lower_hex(bytes: Seq<u8>) -> Seq<char>
    decreases bytes.len(),
{
    if bytes.len() == 0 {
        Seq::empty()
    } else {
        lower_hex(bytes.drop_last()) + seq![
            hex_digit(bytes.last() / 16),
            hex_digit(bytes.last() % 16),
        ]
    }
}

/// The one-digit text for a value below 16.
fn hex_digit_str(n: u8) -> (res: &'static str)
    requires
        n < 16,
    ensures
        res@ == seq![hex_digit(n)],
{
    proof {
        reveal_strlit("0");
        reveal_strlit("1");
        reveal_strlit("2");
        reveal_strlit("3");
        reveal_strlit("4");
        reveal_strlit("5");
        reveal_strlit("6");
        reveal_strlit("7");
        reveal_strlit("8");
        reveal_strlit("9");
        reveal_strlit("a");
        reveal_strlit("b");
        reveal_strlit("c");
        reveal_strlit("d");
        reveal_strlit("e");
        reveal_strlit("f");
    }
    let res = if n == 0 {
        "0"
    } else if n == 1 {
        "1"
    } else if n == 2 {
        "2"
    } else if n == 3 {
        "3"
    } else if n == 4 {
        "4"
    } else if n == 5 {
        "5"
    } else if n == 6 {
        "6"
    } else if n == 7 {
        "7"
    } else if n == 8 {
        "8"
    } else if n == 9 {
        "9"
    } else if n == 10 {
        "a"
    } else if n == 11 {
        "b"
    } else if n == 12 {
        "c"
    } else if n == 13 {
        "d"
    } else if n == 14 {
        "e"
    } else {
        "f"
    };
    assert(res@ =~= seq![hex_digit(n)]);
    res
}

/// `bytes` written in lower-case hexadecimal.
pub fn to_lower_hex(bytes: &[u8]) -> (res: String)
    ensures
        res@ == lower_hex(bytes@),
{
    let mut res = String::new();
    let n = bytes.len();
    assert(bytes@.take(0) =~= Seq::<u8>::empty());
    for i in 0..n
        invariant
            n == bytes@.len(),
            res@ == lower_hex(bytes@.take(i as int)),
    {
        let b = bytes[i];
        res.append(hex_digit_str(b / 16));
        res.append(hex_digit_str(b % 16));
        assert(bytes@.take(i + 1).drop_last() =~= bytes@.take(i as int));
        assert(res@ =~= lower_hex(bytes@.take(i + 1)));
    }
    assert(bytes@.take(n as int) =~= bytes@);
    res
}

/// The text `lower_hex(bytes)` is twice as long as `bytes` and made of lower-case
/// hexadecimal digits only.
pub proof fn lemma_lower_hex_shape(bytes: Seq<u8>)
    ensures
        lower_hex(bytes).len() == 2 * bytes.len(),
        forall|i: int| 0 <= i < lower_hex(bytes).len() ==> is_lower_hex_char(
            #[trigger] lower_hex(bytes)[i],
        ),
    decreases bytes.len(),
{
    if bytes.len() > 0 {
        lemma_lower_hex_shape(bytes.drop_last());
        let prev = lower_hex(bytes.drop_last());
        let last = bytes.last();
        assert(is_lower_hex_char(hex_digit(last / 16)));
        assert(is_lower_hex_char(hex_digit(last % 16)));
        assert forall|i: int| 0 <= i < lower_hex(bytes).len() implies is_lower_hex_char(
            #[trigger] lower_hex(bytes)[i],
        ) by {
            if i < prev.len() {
                assert(lower_hex(bytes)[i] == prev[i]);
            }
        }
    }
}

/// The answer to an authentication challenge: the MD5 of the password, in
/// lower-case hex, followed by the challenge; of that text, the MD5 in lower-case
/// hex.
pub open spec fn auth_hash(password: Seq<char>, challenge: Seq<char>) -> Seq<char> {
    let password_hash = lower_hex(md5_digest(vstd::utf8::encode_utf8(password)));
    lower_hex(md5_digest(vstd::utf8::encode_utf8(password_hash + challenge)))
}

/// Computes the answer that the Mist server expects to its authentication
/// challenge: `md5hex(md5hex(password) + challenge)`.
pub fn compute_auth_hash(password: &str, challenge: &str) -> (res: String)
    ensures
        res@ == auth_hash(password@, challenge@),
        res@.len() == 32,
        forall|i: int| 0 <= i < res@.len() ==> is_lower_hex_char(#[trigger] res@[i]),
{
    let password_digest = md5_compute(password.as_bytes());
    let password_hash = to_lower_hex(&password_digest);
    let combined = password_hash.concat(challenge);
    let digest = md5_compute(combined.as_str().as_bytes());
    let res = to_lower_hex(&digest);
    proof {
        lemma_lower_hex_shape(digest@);
    }
    res
}

} // verus!
