use vstd::prelude::*;

verus! {

/// The 64 keypair bytes (secret half, then public half) that
/// `solana_sdk::signature::read_keypair` recovers from the contents of a
/// keypair file, or `None` where it fails.
pub uninterp spec fn keypair_file_bytes(contents: Seq<u8>) -> Option<Seq<u8>>;

/// Whether `solana_sdk::signer::keypair::Keypair::from_bytes` accepts the bytes.
pub uninterp spec fn keypair_accepted(keypair: Seq<u8>) -> bool;

/// The Ed25519 signature that the keypair makes over the message.
pub uninterp spec fn ed25519_signature(keypair: Seq<u8>, message: Seq<u8>) -> Seq<u8>;

/// A character of the Bitcoin base58 alphabet.
pub open spec fn is_base58_char(c: char) -> bool {
    ||| '1' <= c <= '9'
    ||| 'A' <= c <= 'H'
    ||| 'J' <= c <= 'N'
    ||| 'P' <= c <= 'Z'
    ||| 'a' <= c <= 'k'
    ||| 'm' <= c <= 'z'
}

/// Text made of base58 characters only.
pub open spec fn is_base58_text(text: Seq<char>) -> bool {
    forall|i: int| 0 <= i < text.len() ==> is_base58_char(#[trigger] text[i])
}

/// The base58 digit `d` (`0 <= d < 58`) in the Bitcoin alphabet
/// `123456789ABCDEFGHJKLMNPQRSTUVWXYZabcdefghijkmnopqrstuvwxyz`.
pub open spec fn base58_digit(d: int) -> char {
    if d < 9 {
        (49 + d) as char
    } else if d < 17 {
        (65 + (d - 9)) as char
    } else if d < 22 {
        (74 + (d - 17)) as char
    } else if d < 33 {
        (80 + (d - 22)) as char
    } else if d < 44 {
        (97 + (d - 33)) as char
    } else {
        (109 + (d - 44)) as char
    }
}

/// The number that the bytes spell in big-endian order.
pub open spec fn big_endian_value(bytes: Seq<u8>) -> nat
    decreases bytes.len(),
{
    if bytes.len() == 0 {
        0
    } else {
        big_endian_value(bytes.drop_last()) * 256 + bytes.last() as nat
    }
}

/// The base58 digits of `n`, most significant first, none for zero.
pub open spec fn base58_digits(n: nat) -> Seq<char>
    decreases n,
{
    if n == 0 {
        seq![]
    } else {
        base58_digits(n / 58) + seq![base58_digit((n % 58) as int)]
    }
}

/// How many zero bytes the sequence starts with.
pub open spec fn leading_zero_bytes(bytes: Seq<u8>) -> nat
    decreases bytes.len(),
{
    if bytes.len() > 0 && bytes[0] == 0 {
        1 + leading_zero_bytes(bytes.drop_first())
    } else {
        0
    }
}

/// The base58 text of bytes: a `1` for each leading zero byte, then the
/// base58 digits of the bytes' big-endian value.
pub open spec fn base58_text(bytes: Seq<u8>) -> Seq<char> {
    Seq::new(leading_zero_bytes(bytes), |i: int| '1') + base58_digits(big_endian_value(bytes))
}

proof fn lemma_base58_digit_char(d: int)
    requires
        0 <= d < 58,
    ensures
        is_base58_char(base58_digit(d)),
{
}

proof fn lemma_base58_digits_chars(n: nat)
    ensures
        is_base58_text(base58_digits(n)),
    decreases n,
{
    if n != 0 {
        lemma_base58_digits_chars(n / 58);
        lemma_base58_digit_char((n % 58) as int);
        let digits = base58_digits(n);
        assert forall|i: int| 0 <= i < digits.len() implies is_base58_char(#[trigger] digits[i]) by {
            if i < base58_digits(n / 58).len() {
                assert(digits[i] == base58_digits(n / 58)[i]);
            }
        }
    }
}

/// Base58 text is made of base58 characters.
pub proof fn lemma_base58_text_chars(bytes: Seq<u8>)
    ensures
        is_base58_text(base58_text(bytes)),
{
    lemma_base58_digits_chars(big_endian_value(bytes));
    let ones = Seq::new(leading_zero_bytes(bytes), |i: int| '1');
    let text = base58_text(bytes);
    assert forall|i: int| 0 <= i < text.len() implies is_base58_char(#[trigger] text[i]) by {
        if i >= ones.len() {
            assert(text[i] == base58_digits(big_endian_value(bytes))[i - ones.len()]);
        }
    }
}

proof fn lemma_base58_digits_len(n: nat, d: nat)
    requires
        n < vstd::arithmetic::power::pow(58, d),
    ensures
        base58_digits(n).len() <= d,
    decreases d,
{
    if n != 0 {
        reveal(vstd::arithmetic::power::pow);
        if d == 0 {
            assert(vstd::arithmetic::power::pow(58, 0) == 1);
        } else {
            let p = vstd::arithmetic::power::pow(58, (d - 1) as nat);
            assert(vstd::arithmetic::power::pow(58, d) == 58 * p);
            assert(n / 58 < p) by (nonlinear_arith)
                requires
                    n < 58 * p,
            ;
            lemma_base58_digits_len(n / 58, (d - 1) as nat);
        }
    }
}

proof fn lemma_big_endian_value_bound(bytes: Seq<u8>)
    ensures
        big_endian_value(bytes) < vstd::arithmetic::power::pow(256, bytes.len()),
    decreases bytes.len(),
{
    reveal(vstd::arithmetic::power::pow);
    if bytes.len() > 0 {
        let rest = bytes.drop_last();
        lemma_big_endian_value_bound(rest);
        let p = vstd::arithmetic::power::pow(256, rest.len());
        let v = big_endian_value(rest);
        let last = bytes.last() as nat;
        assert(v * 256 + last < 256 * p) by (nonlinear_arith)
            requires
                v < p,
                last < 256,
        ;
    }
}

proof fn lemma_big_endian_value_leading_zero(rest: Seq<u8>)
    ensures
        big_endian_value(seq![0u8] + rest) == big_endian_value(rest),
    decreases rest.len(),
{
    let bytes = seq![0u8] + rest;
    if rest.len() == 0 {
        assert(bytes.drop_last() =~= Seq::<u8>::empty());
        assert(bytes.last() == 0);
        assert(big_endian_value(bytes) == big_endian_value(bytes.drop_last()) * 256 + bytes.last() as nat);
    } else {
        assert(bytes.drop_last() =~= seq![0u8] + rest.drop_last());
        assert(bytes.last() == rest.last());
        lemma_big_endian_value_leading_zero(rest.drop_last());
        assert(big_endian_value(bytes) == big_endian_value(bytes.drop_last()) * 256 + bytes.last() as nat);
        assert(big_endian_value(rest) == big_endian_value(rest.drop_last()) * 256 + rest.last() as nat);
    }
}

proof fn lemma_leading_zeros_value(bytes: Seq<u8>)
    ensures
        leading_zero_bytes(bytes) <= bytes.len(),
        big_endian_value(bytes) == big_endian_value(bytes.skip(leading_zero_bytes(bytes) as int)),
    decreases bytes.len(),
{
    if bytes.len() > 0 && bytes[0] == 0 {
        let rest = bytes.drop_first();
        lemma_leading_zeros_value(rest);
        assert(bytes =~= seq![0u8] + rest);
        lemma_big_endian_value_leading_zero(rest);
        assert(bytes.skip(leading_zero_bytes(bytes) as int) =~= rest.skip(
            leading_zero_bytes(rest) as int,
        ));
    } else {
        assert(bytes.skip(0) =~= bytes);
    }
}

proof fn lemma_pow_base_monotonic(x: nat, y: nat, e: nat)
    requires
        x <= y,
    ensures
        0 <= vstd::arithmetic::power::pow(x as int, e),
        vstd::arithmetic::power::pow(x as int, e) <= vstd::arithmetic::power::pow(y as int, e),
    decreases e,
{
    reveal(vstd::arithmetic::power::pow);
    if e > 0 {
        lemma_pow_base_monotonic(x, y, (e - 1) as nat);
        let px = vstd::arithmetic::power::pow(x as int, (e - 1) as nat);
        let py = vstd::arithmetic::power::pow(y as int, (e - 1) as nat);
        assert(0 <= x * px <= y * py) by (nonlinear_arith)
            requires
                x <= y,
                0 <= px <= py,
        ;
    }
}

/// `256^64 <= 58^88`, from `256^8 = 2^64 <= 58^11`.
proof fn lemma_power_gap_64()
    ensures
        vstd::arithmetic::power::pow(256, 64) <= vstd::arithmetic::power::pow(58, 88),
{
    let a = vstd::arithmetic::power::pow(256, 8);
    let b = vstd::arithmetic::power::pow(58, 11);
    assert(a == 18446744073709551616) by {
        reveal_with_fuel(vstd::arithmetic::power::pow, 9);
    }
    assert(b == 24986644000165537792) by {
        reveal_with_fuel(vstd::arithmetic::power::pow, 12);
    }
    lemma_pow_base_monotonic(a as nat, b as nat, 8);
    vstd::arithmetic::power::lemma_pow_multiplies(256, 8, 8);
    vstd::arithmetic::power::lemma_pow_multiplies(58, 11, 8);
}

proof fn lemma_power_gap(z: nat)
    requires
        z <= 64,
    ensures
        vstd::arithmetic::power::pow(256, (64 - z) as nat) <= vstd::arithmetic::power::pow(
            58,
            (88 - z) as nat,
        ),
    decreases z,
{
    reveal(vstd::arithmetic::power::pow);
    if z == 0 {
        lemma_power_gap_64();
    } else {
        lemma_power_gap((z - 1) as nat);
        let a = vstd::arithmetic::power::pow(256, (64 - z) as nat);
        let b = vstd::arithmetic::power::pow(58, (88 - z) as nat);
        assert(vstd::arithmetic::power::pow(256, (64 - (z - 1)) as nat) == 256 * a);
        assert(vstd::arithmetic::power::pow(58, (88 - (z - 1)) as nat) == 58 * b);
        vstd::arithmetic::power::lemma_pow_positive(58, (88 - z) as nat);
        assert(a <= b) by (nonlinear_arith)
            requires
                256 * a <= 58 * b,
                b > 0,
        ;
    }
}

/// The base58 text of 64 bytes is at most 88 characters long.
pub proof fn lemma_base58_text_len_64(bytes: Seq<u8>)
    requires
        bytes.len() == 64,
    ensures
        base58_text(bytes).len() <= 88,
{
    let z = leading_zero_bytes(bytes);
    lemma_leading_zeros_value(bytes);
    let rest = bytes.skip(z as int);
    lemma_big_endian_value_bound(rest);
    lemma_power_gap(z);
    lemma_base58_digits_len(big_endian_value(bytes), (88 - z) as nat);
}

/// Parses the contents of a keypair file with
/// `solana_sdk::signature::read_keypair` and returns the keypair's bytes.
///
/// Trusted: `read_keypair` reads a JSON array of bytes and hands it to
/// `Keypair::from_bytes`, so the keypair it returns is one that
/// `from_bytes` accepts, and `Keypair::to_bytes` gives 64 bytes. The text of
/// the error is left unsaid.
#[verifier::external_body]
pub(crate) fn read_keypair_bytes(contents: &[u8]) -> (keypair: Result<Vec<u8>, String>)
    ensures
        keypair is Ok <==> keypair_file_bytes(contents@) is Some,
        keypair matches Ok(bytes) ==> {
            &&& keypair_file_bytes(contents@) == Some(bytes@)
            &&& bytes@.len() == 64
            &&& keypair_accepted(bytes@)
        },
{
    let mut reader: &[u8] = contents;
    match solana_sdk::signature::read_keypair(&mut reader) {
        Ok(keypair) => Ok(keypair.to_bytes().to_vec()),
        Err(err) => Err(err.to_string()),
    }
}

/// Signs a message with `Keypair::try_sign_message`, the keypair given by its
/// bytes.
///
/// Trusted: `Keypair::from_bytes` fails only on bytes it does not accept, and
/// needs exactly 64 of them; `try_sign_message` of a `Keypair` always
/// succeeds and gives the 64-byte Ed25519 signature. The text of the error is
/// left unsaid.
#[verifier::external_body]
pub(crate) fn sign_message(keypair: &[u8], message: &[u8]) -> (signature: Result<Vec<u8>, String>)
    ensures
        signature is Ok <==> keypair_accepted(keypair@),
        signature is Ok ==> keypair@.len() == 64,
        signature matches Ok(bytes) ==> {
            &&& bytes@ == ed25519_signature(keypair@, message@)
            &&& bytes@.len() == 64
        },
{
    match solana_sdk::signer::keypair::Keypair::from_bytes(keypair) {
        Ok(signer) => match solana_sdk::signer::Signer::try_sign_message(&signer, message) {
            Ok(signature) => Ok(signature.as_ref().to_vec()),
            Err(err) => Err(err.to_string()),
        },
        Err(err) => Err(err.to_string()),
    }
}

/// The text of a 64-byte signature, `Signature::to_string`.
///
/// Trusted: `Signature` is built from any 64 bytes and displays as
/// `bs58::encode(bytes).into_string()`: a `1` for each leading zero byte,
/// then the base58 digits of the big-endian value (Bitcoin alphabet).
#[verifier::external_body]
pub(crate) fn signature_text(signature: &[u8]) -> (text: String)
    requires
        signature@.len() == 64,
    ensures
        text@ == base58_text(signature@),
{
    match solana_sdk::signature::Signature::try_from(signature) {
        Ok(parsed) => parsed.to_string(),
        Err(_) => String::new(),
    }
}

/// The text of the keypair's public key, `keypair.pubkey().to_string()`.
///
/// Trusted: `Keypair::pubkey` gives the public half that `from_bytes` read,
/// the last 32 of the 64 bytes, and a `Pubkey` displays as
/// `bs58::encode(bytes).into_string()`.
#[verifier::external_body]
pub(crate) fn keypair_pubkey_text(keypair: &[u8]) -> (text: String)
    requires
        keypair_accepted(keypair@),
    ensures
        text@ == base58_text(keypair@.subrange(32, 64)),
{
    match solana_sdk::signer::keypair::Keypair::from_bytes(keypair) {
        Ok(signer) => solana_sdk::signer::Signer::pubkey(&signer).to_string(),
        Err(_) => String::new(),
    }
}

} // verus!
