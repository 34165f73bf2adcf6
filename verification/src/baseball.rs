//! The secret of a game of number baseball: three different digits, drawn
//! from a shuffled pool of the ten digits.

use rand::rngs::ThreadRng;
use rand::seq::SliceRandom;
use vstd::prelude::*;

verus! {

/// Three digits: a secret, or a player's guess.
#[derive(Debug, Clone, PartialEq, Eq, Hash)]
pub struct ThreeDigitNumber(pub [u8; 3]);

/// The number that the players have to find.
#[derive(Debug, Clone)]
pub struct SecretNumber {
    pub value: ThreeDigitNumber,
}

/// Sets a game up with a fresh secret.
pub struct SecretNumberSetupPlugin;

/// `rand::rngs::ThreadRng`, the handle to the calling thread's random
/// number generator. Nothing is known of what it holds.
#[verifier::external_type_specification]
#[verifier::external_body]
pub struct ExThreadRng(ThreadRng);

/// `rand::rng` hands out the handle to the calling thread's generator.
/// Nothing is claimed of it.
pub assume_specification[ rand::rng ]() -> ThreadRng
;

/// Calls `rand::seq::SliceRandom::shuffle` on the digits. The call only
/// swaps elements of the slice with one another, so afterwards the vector
/// holds what it held before, each digit as many times as before; in which
/// order is left open.
#[verifier::external_body]
fn shuffle(digits: &mut Vec<u8>, rng: &mut ThreadRng)
    ensures
        final(digits)@.to_multiset() == old(digits)@.to_multiset(),
{
    digits.shuffle(rng);
}

/// The ten digits in rising order.
pub open spec fn digit_pool() -> Seq<u8> {
    Seq::new(10, |i: int| i as u8)
}

/// The first three of `digits`, or three zeros where there are fewer than
/// three.
pub open spec fn first_three(digits: Seq<u8>) -> Seq<u8> {
    if digits.len() < 3 {
        seq![0u8, 0u8, 0u8]
    } else {
        digits.subrange(0, 3)
    }
}

impl ThreeDigitNumber {
    /// The digits, first to last.
    pub open spec fn digits(self) -> Seq<u8> {
        self.0@
    }

    /// Whether this is a number that a game can be played on: three
    /// decimal digits, no two of them the same.
    pub open spec fn all_different(self) -> bool {
        &&& self.0[0] <= 9 && self.0[1] <= 9 && self.0[2] <= 9
        &&& self.0[0] != self.0[1]
        &&& self.0[0] != self.0[2]
        &&& self.0[1] != self.0[2]
    }
}

/// The digits `0` to `9`, in rising order.
pub fn possible_digits() -> (pool: Vec<u8>)
    ensures
        pool@ == digit_pool(),
{
    let mut pool: Vec<u8> = Vec::new();
    let mut digit: u8 = 0;
    while digit <= 9
        invariant
            digit <= 10,
            pool@.len() == digit,
            forall|i: int| 0 <= i < pool@.len() ==> pool@[i] == i,
        decreases 10 - digit,
    {
        pool.push(digit);
        digit = digit + 1;
    }
    assert(pool@ =~= digit_pool());
    pool
}

/// Takes the first three of `digits` as the secret. With fewer than three
/// digits to take from, the secret is `0 0 0`.
pub fn secret_from_digits(digits: &Vec<u8>) -> (secret: SecretNumber)
    ensures
        secret.value.digits() == first_three(digits@),
{
    if digits.len() < 3 {
        return SecretNumber { value: ThreeDigitNumber([0, 0, 0]) };
    }
    let secret = SecretNumber { value: ThreeDigitNumber([digits[0], digits[1], digits[2]]) };
    assert(secret.value.digits() =~= first_three(digits@));
    secret
}

/// However the ten digits are rearranged, the first three of them are
/// decimal digits and differ from one another.
pub proof fn lemma_shuffled_digits_differ(shuffled: Seq<u8>)
    requires
        shuffled.to_multiset() == digit_pool().to_multiset(),
    ensures
        shuffled.len() == 10,
        shuffled.no_duplicates(),
        forall|i: int| 0 <= i < shuffled.len() ==> shuffled[i] <= 9,
{
    broadcast use vstd::seq_lib::group_to_multiset_ensures;

    let pool = digit_pool();
    assert(pool.no_duplicates());
    pool.lemma_multiset_has_no_duplicates();
    shuffled.lemma_multiset_has_no_duplicates_conv();
    assert(shuffled.len() == shuffled.to_multiset().len());
    assert(pool.len() == pool.to_multiset().len());
    assert forall|i: int| 0 <= i < shuffled.len() implies shuffled[i] <= 9 by {
        let d = shuffled[i];
        assert(shuffled.contains(d));
        assert(pool.to_multiset().count(d) > 0);
        assert(pool.contains(d));
        let k = choose|k: int| 0 <= k < pool.len() && pool[k] == d;
        assert(pool[k] == k as u8);
    }
}

impl SecretNumberSetupPlugin {
    /// Draws the secret of a new game: shuffles the ten digits and takes the
    /// first three. Which digits come out is left to chance; that they are
    /// three different decimal digits is not.
    pub fn build(&self) -> (secret: SecretNumber)
        ensures
            secret.value.all_different(),
    {
        let mut rng = rand::rng();
        let mut possible_digits = possible_digits();
        shuffle(&mut possible_digits, &mut rng);
        proof {
            lemma_shuffled_digits_differ(possible_digits@);
        }
        secret_from_digits(&possible_digits)
    }
}

} // verus!
