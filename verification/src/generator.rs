//! The generator of fractions: for each kind a construction from random
//! draws, by rejection where no direct construction exists.

use crate::divisors::{divisor_list, divisors, lemma_divisor_list_length};
use crate::fraction::{is_instance, Fraction, LIMIT};
use crate::kinds::Ftype;
use crate::random::random_in_range;
use vstd::prelude::*;

verus! {

/// How many draws a construction by rejection makes before it gives up.
///
/// Of the candidates for an improper fraction more than half are accepted,
/// of those for an apparent one about three in four, so a run that uses up
/// all its attempts shows a defect and no bad luck.
pub const ATTEMPTS: u32 = 1000;

/// Picks one of the three kinds at random.
pub fn pick_kind() -> (kind: Ftype) {
    Ftype::from_index(random_in_range(0, 2))
}

/// Draws a proper fraction: a numerator from `1..=119`, then a denominator
/// above it, up to 120. Every draw is one.
fn proper() -> (made: Fraction)
    ensures
        made.kind() == Ftype::Proper,
{
    let num = random_in_range(1, LIMIT - 1);
    let den = random_in_range(num + 1, LIMIT);
    Fraction::new(num, den, Ftype::Proper).unwrap()
}

/// Draws an improper fraction: a numerator from `2..=120` and a denominator
/// below it, again and again until the numerator is no multiple of the
/// denominator. `None` when no attempt was accepted.
fn improper() -> (made: Option<Fraction>)
    ensures
        made matches Some(f) ==> f.kind() == Ftype::Improper && is_instance(Ftype::Improper, f.num(), f.den()),
{
    let mut attempt: u32 = 0;
    while attempt < ATTEMPTS
        invariant
            attempt <= ATTEMPTS,
        decreases ATTEMPTS - attempt,
    {
        let num = random_in_range(2, LIMIT);
        let den = random_in_range(1, num - 1);
        let candidate = Fraction::new(num, den, Ftype::Improper);
        if candidate.is_some() {
            return candidate;
        }
        attempt += 1;
    }
    None
}

/// Draws an apparent fraction: a numerator from `1..=119`, again and again
/// until it is composite, then one entry of its divisor list; the
/// denominator is the numerator divided by that entry. `None` when no
/// attempt found a composite numerator.
fn apparent() -> (made: Option<Fraction>)
    ensures
        made matches Some(f) ==> f.kind() == Ftype::Apparent && f.num() < LIMIT,
        made matches Some(f) ==> is_instance(Ftype::Apparent, f.num(), f.den()),
        made matches Some(f) ==> divisor_list(f.num()).contains(f.den()),
{
    let mut attempt: u32 = 0;
    while attempt < ATTEMPTS
        invariant
            attempt <= ATTEMPTS,
        decreases ATTEMPTS - attempt,
    {
        let num = random_in_range(1, LIMIT - 1);
        let list = divisors(num);
        if list.len() > 2 {
            proof {
                lemma_divisor_list_length(num as nat);
            }
            let last = (list.len() - 1) as u32;
            let pick = random_in_range(0, last) as usize;
            return Some(Fraction::apparent(num, &list, pick));
        }
        attempt += 1;
    }
    None
}

/// Generates a fraction of the given kind.
///
/// A proper fraction is always delivered. An improper or an apparent one is
/// delivered unless every one of the `ATTEMPTS` draws was rejected. What is
/// delivered is a fraction of the kind asked for; an apparent one has a
/// numerator below the limit.
pub fn generate(kind: Ftype) -> (made: Option<Fraction>)
    ensures
        kind == Ftype::Proper ==> made is Some,
        made matches Some(f) ==> f.kind() == kind && is_instance(kind, f.num(), f.den()),
        made matches Some(f) ==> kind == Ftype::Apparent ==> f.num() < LIMIT,
{
    let made = match kind {
        Ftype::Proper => Some(proper()),
        Ftype::Improper => improper(),
        Ftype::Apparent => apparent(),
    };
    proof {
        if let Some(f) = made {
            use_type_invariant(f);
        }
    }
    made
}

} // verus!
