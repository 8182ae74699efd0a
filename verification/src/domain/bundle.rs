//! Bundle identity: the hex block number a client sends, and the hash the
//! lab assigns to a bundle.
use std::collections::hash_map::DefaultHasher;
use std::hash::{Hash, Hasher};
use std::num::ParseIntError;
use vstd::prelude::*;
use vstd::std_specs::hash::DefaultHasherAdditionalSpecFns;
use vstd::string::StrSliceExecFns;

use crate::text::{
    digit_value, digits_value, hex_char_in_case, hex_digits_in_case, lower_hex_digits,
    parses_within, push_lower_hex, unsigned_text_value,
};

verus! {

/// The text that is read as hex digits: `s` without a leading `0x`.
pub open spec fn hex_body(s: Seq<char>) -> Seq<char> {
    if s.len() >= 2 && s[0] == '0' && s[1] == 'x' {
        s.skip(2)
    } else {
        s
    }
}

/// `n` (below 2^64) read back as the `i64` with the same 64 bits.
pub open spec fn as_i64_bits(n: nat) -> int {
    if n <= i64::MAX {
        n as int
    } else {
        n - 0x1_0000_0000_0000_0000
    }
}

/// Parses a block number written in hex, with or without a `0x` prefix.
/// Values from 2^63 on come back negative, with their bits kept.
pub fn parse_hex_u64(hex: &str) -> (res: Result<i64, ParseIntError>)
    ensures
        res is Ok <==> parses_within(hex_body(hex@), 16, u64::MAX as nat),
        res matches Ok(v) ==> v == as_i64_bits(unsigned_text_value(hex_body(hex@), 16)->0),
{
    let len: usize = hex.unicode_len();
    let body = if len >= 2 && hex.get_char(0) == '0' && hex.get_char(1) == 'x' {
        hex.substring_char(2, len)
    } else {
        hex.substring_char(0, len)
    };
    assert(body@ == hex_body(hex@));
    match u64::from_str_radix(body, 16) {
        Ok(n) => {
            let v: i64 = n as i64;
            assert(v == as_i64_bits(n as nat)) by (bit_vector)
                requires
                    v == n as i64,
            ;
            Ok(v)
        },
        Err(e) => Err(e),
    }
}

/// The sequence of writes that hashing a slice of strings feeds a hasher:
/// `<[String] as Hash>::hash` on the target the crate is built for.
pub uninterp spec fn string_slice_hash_writes(txs: Seq<Seq<char>>) -> Seq<Seq<u8>>;

/// The contents of a slice of strings, as character sequences.
pub open spec fn texts_of(txs: Seq<String>) -> Seq<Seq<char>> {
    txs.map_values(|s: String| s@)
}

/// `<[String] as Hash>::hash`: feeds the hasher the writes that std's slice
/// and string hashing make. Those writes depend on the strings alone (and on
/// the byte order of the target, which is fixed for a build); which bytes
/// they are is left unsaid.
#[verifier::external_body]
fn hash_strings_into(txs: &[String], state: &mut DefaultHasher)
    ensures
        final(state)@ == old(state)@ + string_slice_hash_writes(texts_of(txs@)),
{
    txs.hash(state)
}

/// The digest std's default hasher gives a slice of strings.
pub open spec fn strings_digest(txs: Seq<String>) -> u64 {
    DefaultHasher::spec_finish(string_slice_hash_writes(texts_of(txs)))
}

/// The text of a bundle hash: `0x` and 16 lower-case hex digits.
pub open spec fn bundle_hash_text(digest: u64) -> Seq<char> {
    seq!['0', 'x'] + lower_hex_digits(digest as nat, 16)
}

/// The lab's identifier of a bundle: its transactions hashed with std's
/// default hasher, printed as `0x` and 16 lower-case hex digits.
pub fn lab_bundle_hash(txs: &[String]) -> (res: String)
    ensures
        res@ == bundle_hash_text(strings_digest(txs@)),
        res@ == seq!['0', 'x'] + lower_hex_digits(
            DefaultHasher::spec_finish(
                string_slice_hash_writes(txs@.map_values(|s: String| s@)),
            ) as nat,
            16,
        ),
{
    let mut h = DefaultHasher::new();
    hash_strings_into(txs, &mut h);
    let digest: u64 = h.finish();
    let mut out = String::new();
    out.push('0');
    out.push('x');
    push_lower_hex(&mut out, digest, 16);
    assert(h@ == string_slice_hash_writes(texts_of(txs@)));
    proof {
        lemma_bundle_digest_covers_every_transaction(txs@);
    }
    out
}

/// The digest behind a bundle hash is taken over the whole list of
/// transactions, every one of them in order: it is std's default hasher
/// finished on the writes that hashing the full sequence of their texts
/// makes, whatever the number of transactions.
pub proof fn lemma_bundle_digest_covers_every_transaction(txs: Seq<String>)
    ensures
        strings_digest(txs) == DefaultHasher::spec_finish(
            string_slice_hash_writes(txs.map_values(|s: String| s@)),
        ),
        txs.map_values(|s: String| s@).len() == txs.len(),
        forall|i: int|
            0 <= i < txs.len() ==> txs.map_values(|s: String| s@)[i] == #[trigger] txs[i]@,
{
    assert(texts_of(txs) =~= txs.map_values(|s: String| s@));
}

/// Two bundles whose transactions have the same texts, in the same order,
/// get the same hash; in particular the hash of a bundle does not depend on
/// anything but its transactions.
pub proof fn lemma_same_transactions_same_hash(a: Seq<String>, b: Seq<String>)
    requires
        a.len() == b.len(),
        forall|i: int| 0 <= i < a.len() ==> #[trigger] a[i]@ == b[i]@,
    ensures
        bundle_hash_text(strings_digest(a)) == bundle_hash_text(strings_digest(b)),
{
    assert(texts_of(a) =~= texts_of(b));
}

/// `hex_body` takes off exactly a leading `0x`: a text that starts with
/// `0x` is read from its third character on, any other text as it is.
pub proof fn lemma_hex_body_strips_only_prefix(t: Seq<char>)
    ensures
        hex_body(seq!['0', 'x'] + t) == t,
        !(t.len() >= 2 && t[0] == '0' && t[1] == 'x') ==> hex_body(t) == t,
{
    assert((seq!['0', 'x'] + t).skip(2) =~= t);
}


/// `c` is a digit of lower-case hexadecimal.
pub open spec fn is_lower_hex_digit(c: char) -> bool {
    ('0' <= c && c <= '9') || ('a' <= c && c <= 'f')
}

/// 16 to the power `k`.
pub open spec fn pow16(k: nat) -> nat
    decreases k,
{
    if k == 0 {
        1
    } else {
        16 * pow16((k - 1) as nat)
    }
}

proof fn lemma_pow16_positive(k: nat)
    ensures
        pow16(k) > 0,
    decreases k,
{
    if k > 0 {
        lemma_pow16_positive((k - 1) as nat);
    }
}

proof fn lemma_hex_char_in_case(d: nat, upper: bool)
    requires
        d < 16,
    ensures
        digit_value(hex_char_in_case(d, upper), 16) == Some(d),
        hex_char_in_case(d, upper) != '+',
        hex_char_in_case(d, upper) != 'x',
        !upper ==> is_lower_hex_digit(hex_char_in_case(d, upper)),
{
    if d < 10 {
        assert(((48 + d) as char) as u32 == 48 + d);
    } else if upper {
        assert(((65 + d - 10) as char) as u32 == 55 + d);
    } else {
        assert(((97 + d - 10) as char) as u32 == 87 + d);
    }
}

proof fn lemma_hex_digits_in_case(n: nat, count: nat, upper: bool)
    ensures
        hex_digits_in_case(n, count, upper).len() == count,
        forall|i: int|
            0 <= i < count ==> #[trigger] hex_digits_in_case(n, count, upper)[i] != '+'
                && hex_digits_in_case(n, count, upper)[i] != 'x' && (!upper ==> is_lower_hex_digit(
                hex_digits_in_case(n, count, upper)[i],
            )),
        digits_value(hex_digits_in_case(n, count, upper), 16) == Some(n % pow16(count)),
    decreases count,
{
    if count > 0 {
        let prev = hex_digits_in_case(n / 16, (count - 1) as nat, upper);
        lemma_hex_digits_in_case(n / 16, (count - 1) as nat, upper);
        lemma_hex_char_in_case(n % 16, upper);
        let s = hex_digits_in_case(n, count, upper);
        assert(s == prev.push(hex_char_in_case(n % 16, upper)));
        assert(s.drop_last() == prev);
        assert forall|i: int| 0 <= i < count implies #[trigger] s[i] != '+' && s[i] != 'x' && (!upper
            ==> is_lower_hex_digit(s[i])) by {
            if i < count - 1 {
                assert(s[i] == prev[i]);
            }
        }
        lemma_pow16_positive((count - 1) as nat);
        vstd::arithmetic::div_mod::lemma_mod_breakdown(n as int, 16, pow16((count - 1) as nat) as int);
        assert(digits_value(s, 16) == Some((((n / 16) % pow16((count - 1) as nat)) * 16 + n % 16) as nat));
    }
}

/// `parse_hex_u64` reads back any hex rendering of a number: with or
/// without `0x`, in upper or lower case, with as many digits as the number
/// needs or more (zero padded). The result is the number, its 64 bits kept
/// in the `i64`.
pub proof fn lemma_hex_text_reads_back(n: u64, count: nat, upper: bool, prefixed: bool)
    requires
        count >= 1,
        n < pow16(count),
    ensures
        ({
            let text = if prefixed {
                seq!['0', 'x'] + hex_digits_in_case(n as nat, count, upper)
            } else {
                hex_digits_in_case(n as nat, count, upper)
            };
            &&& parses_within(hex_body(text), 16, u64::MAX as nat)
            &&& as_i64_bits(unsigned_text_value(hex_body(text), 16)->0) == n as i64
        }),
{
    let digits = hex_digits_in_case(n as nat, count, upper);
    lemma_hex_digits_in_case(n as nat, count, upper);
    let text = if prefixed {
        seq!['0', 'x'] + digits
    } else {
        digits
    };
    if prefixed {
        assert(text.skip(2) == digits);
    } else if count >= 2 {
        assert(digits[1] != 'x');
    }
    assert(hex_body(text) == digits);
    assert(n as nat % pow16(count) == n as nat) by {
        lemma_pow16_positive(count);
        vstd::arithmetic::div_mod::lemma_small_mod(n as nat, pow16(count));
    }
    let w: i64 = n as i64;
    assert(w == as_i64_bits(n as nat)) by (bit_vector)
        requires
            w == n as i64,
    ;
}

/// A bundle hash is always `0x` followed by exactly 16 lower-case hex
/// digits.
pub proof fn lemma_bundle_hash_shape(digest: u64)
    ensures
        bundle_hash_text(digest).len() == 18,
        bundle_hash_text(digest)[0] == '0',
        bundle_hash_text(digest)[1] == 'x',
        forall|i: int| 2 <= i < 18 ==> #[trigger] is_lower_hex_digit(bundle_hash_text(digest)[i]),
{
    lemma_hex_digits_in_case(digest as nat, 16, false);
    let t = bundle_hash_text(digest);
    assert forall|i: int| 2 <= i < 18 implies #[trigger] is_lower_hex_digit(t[i]) by {
        assert(t[i] == lower_hex_digits(digest as nat, 16)[i - 2]);
    }
}

/// `parse_hex_u64` reads a bundle hash back as the digest it prints (with
/// the digest's 64 bits kept in the `i64`).
pub proof fn lemma_bundle_hash_reads_back(digest: u64)
    ensures
        parses_within(hex_body(bundle_hash_text(digest)), 16, u64::MAX as nat),
        unsigned_text_value(hex_body(bundle_hash_text(digest)), 16)->0 == digest,
{
    let digits = lower_hex_digits(digest as nat, 16);
    lemma_hex_digits_in_case(digest as nat, 16, false);
    let t = bundle_hash_text(digest);
    assert(t.skip(2) == digits);
    assert(hex_body(t) == digits);
    assert(pow16(16) == 0x1_0000_0000_0000_0000) by {
        reveal_with_fuel(pow16, 17);
    }
    assert(digest as nat % pow16(16) == digest as nat);
}

} // verus!
