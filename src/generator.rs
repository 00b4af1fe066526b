//! The value generator and the producer's batch: a phone number is one of a
//! closed set of three-digit prefixes followed by an eight-digit suffix.

use vstd::prelude::*;
use crate::digits::{append_decimal, decimal_value, digits, is_digit, lemma_digits_round_trip, pow10};

verus! {

#[verifier::external_type_specification]
#[verifier::external_body]
pub struct ExRng(fastrand::Rng);

/// Number of valid prefixes.
pub const PREFIX_COUNT: usize = 33;

/// Width of a prefix, in digits.
pub const PREFIX_WIDTH: usize = 3;

/// Width of the random suffix, in digits.
pub const SUFFIX_WIDTH: usize = 8;

/// Smallest suffix: the least number with eight digits.
pub const SUFFIX_LOW: u64 = 10_000_000;

/// One past the largest suffix.
pub const SUFFIX_HIGH: u64 = 100_000_000;

/// The valid prefixes, as numbers.
pub open spec fn prefix_codes() -> Seq<nat> {
    seq![
        139, 138, 137, 136, 135, 134, 159, 158, 157, 150, 151, 152, 188, 187, 182, 183, 184,
        178, 130, 131, 132, 156, 155, 186, 185, 176, 133, 153, 189, 180, 181, 177, 199,
    ]
}

/// The text of prefix number `i`.
pub open spec fn prefix_text(i: int) -> Seq<char> {
    digits(prefix_codes()[i], PREFIX_WIDTH as nat)
}

/// The texts of all valid prefixes.
pub open spec fn valid_prefixes() -> Set<Seq<char>> {
    Set::new(|p: Seq<char>| exists|i: int| 0 <= i < PREFIX_COUNT && p == prefix_text(i))
}

/// Whether `n` is an admissible suffix.
pub open spec fn is_suffix(n: nat) -> bool {
    SUFFIX_LOW <= n < SUFFIX_HIGH
}

/// The phone number made of prefix number `i` and suffix `n`.
pub open spec fn phone_text(i: int, n: nat) -> Seq<char> {
    prefix_text(i) + digits(n, SUFFIX_WIDTH as nat)
}

/// Whether `s` is a well-formed generated value: a valid prefix followed by
/// an admissible suffix.
pub open spec fn is_phone(s: Seq<char>) -> bool {
    exists|i: int, n: nat| 0 <= i < PREFIX_COUNT && is_suffix(n) && s == phone_text(i, n)
}

/// Every generated value is a valid prefix followed by eight decimal digits
/// that read as a number in `[10000000, 99999999]`; its length is the
/// prefix's length plus eight.
pub proof fn lemma_phone_shape(s: Seq<char>)
    requires
        is_phone(s),
    ensures
        s.len() == PREFIX_WIDTH + SUFFIX_WIDTH,
        valid_prefixes().contains(s.subrange(0, PREFIX_WIDTH as int)),
        s.len() == s.subrange(0, PREFIX_WIDTH as int).len() + SUFFIX_WIDTH,
        forall|k: int| PREFIX_WIDTH <= k < s.len() ==> is_digit(#[trigger] s[k]),
        SUFFIX_LOW <= decimal_value(s.subrange(PREFIX_WIDTH as int, s.len() as int)),
        decimal_value(s.subrange(PREFIX_WIDTH as int, s.len() as int)) < SUFFIX_HIGH,
{
    let (i, n) = choose|i: int, n: nat|
        0 <= i < PREFIX_COUNT && is_suffix(n) && s == phone_text(i, n);
    let code = prefix_codes()[i];
    lemma_digits_round_trip(code, PREFIX_WIDTH as nat);
    lemma_digits_round_trip(n, SUFFIX_WIDTH as nat);
    assert(s.subrange(0, PREFIX_WIDTH as int) =~= prefix_text(i));
    assert(s.subrange(PREFIX_WIDTH as int, s.len() as int) =~= digits(n, SUFFIX_WIDTH as nat));
    assert(pow10(SUFFIX_WIDTH as nat) == SUFFIX_HIGH) by {
        reveal_with_fuel(pow10, 9);
    }
    assert forall|k: int| PREFIX_WIDTH <= k < s.len() implies is_digit(#[trigger] s[k]) by {
        assert(s[k] == digits(n, SUFFIX_WIDTH as nat)[k - PREFIX_WIDTH]);
    }
}

/// The number of prefix `i`.
fn prefix_code(i: usize) -> (r: u64)
    requires
        i < PREFIX_COUNT,
    ensures
        r == prefix_codes()[i as int],
{
    let table: [u64; 33] = [
        139, 138, 137, 136, 135, 134, 159, 158, 157, 150, 151, 152, 188, 187, 182, 183, 184,
        178, 130, 131, 132, 156, 155, 186, 185, 176, 133, 153, 189, 180, 181, 177, 199,
    ];
    assert(table@ =~= prefix_codes().map_values(|c: nat| c as u64));
    table[i]
}

/// Builds the phone number of prefix number `index` and suffix `suffix`.
pub fn phone_from_parts(index: usize, suffix: u64) -> (r: String)
    requires
        index < PREFIX_COUNT,
    ensures
        r@ == prefix_text(index as int) + digits(suffix as nat, SUFFIX_WIDTH as nat),
{
    let mut phone = String::new();
    append_decimal(&mut phone, prefix_code(index), PREFIX_WIDTH);
    append_decimal(&mut phone, suffix, SUFFIX_WIDTH);
    phone
}

/// Relies on fastrand::Rng::usize: a value drawn from `0..n`, which panics
/// on an empty range.
#[verifier::external_body]
fn draw_below(rng: &mut fastrand::Rng, n: usize) -> (r: usize)
    requires
        n > 0,
    ensures
        r < n,
{
    rng.usize(..n)
}

/// Relies on fastrand::Rng::u64: a value drawn from `low..high`, which
/// panics on an empty range.
#[verifier::external_body]
fn draw_between(rng: &mut fastrand::Rng, low: u64, high: u64) -> (r: u64)
    requires
        low < high,
    ensures
        low <= r < high,
{
    rng.u64(low..high)
}

/// Generates one phone number: a prefix picked uniformly from the valid set
/// and an eight-digit suffix drawn uniformly from `[10000000, 100000000)`.
pub fn get_random_phone(rng: &mut fastrand::Rng) -> (r: String)
    ensures
        is_phone(r@),
{
    let index = draw_below(rng, PREFIX_COUNT);
    let suffix = draw_between(rng, SUFFIX_LOW, SUFFIX_HIGH);
    let phone = phone_from_parts(index, suffix);
    assert(phone@ == phone_text(index as int, suffix as nat));
    phone
}

/// Generates one batch of exactly `count` phone numbers, in order.
pub fn producer(rng: &mut fastrand::Rng, count: usize) -> (r: Vec<String>)
    ensures
        r.len() == count,
        forall|k: int| 0 <= k < count ==> is_phone(#[trigger] r@[k]@),
{
    let mut values: Vec<String> = Vec::with_capacity(count);
    let mut i: usize = 0;
    while i < count
        invariant
            i <= count,
            values.len() == i,
            forall|k: int| 0 <= k < i ==> is_phone(#[trigger] values@[k]@),
        decreases count - i,
    {
        let phone = get_random_phone(rng);
        values.push(phone);
        i = i + 1;
    }
    values
}

} // verus!
