//! Fractions that belong to exactly one of the three kinds.

use crate::divisors::{
    as_nats, composite, divides, divisor_list, is_composite, lemma_cofactor,
    lemma_composite_by_count, lemma_divisor_list_complete, lemma_divisor_list_sound,
};
use crate::kinds::Ftype;
use vstd::prelude::*;

verus! {

/// The largest numerator and the largest denominator of an exercise.
pub const LIMIT: u32 = 120;

/// `num / den` is a fraction of the given kind, within the limits of the
/// exercises.
///
/// A proper fraction has a numerator below its denominator. An improper one
/// has a numerator above its denominator that is no multiple of it. An
/// apparent one has a composite numerator that is a multiple of its
/// denominator; the denominator may be 1 or the numerator itself.
pub open spec fn is_instance(kind: Ftype, num: nat, den: nat) -> bool {
    &&& 1 <= num <= LIMIT
    &&& 1 <= den <= LIMIT
    &&& match kind {
        Ftype::Proper => num < den,
        Ftype::Improper => num > den && num % den != 0,
        Ftype::Apparent => divides(den, num) && composite(num),
    }
}

/// No fraction belongs to two kinds.
pub proof fn lemma_kinds_exclude_each_other(first: Ftype, second: Ftype, num: nat, den: nat)
    requires
        is_instance(first, num, den),
        is_instance(second, num, den),
    ensures
        first == second,
{
    if num < den {
        assert(num % den == num) by (nonlinear_arith)
            requires
                0 <= num < den,
        ;
    }
}

/// A fraction together with the kind it belongs to.
#[derive(Debug, Clone, Copy, PartialEq, Eq, Structural)]
pub struct Fraction {
    num: u32,
    den: u32,
    kind: Ftype,
}

impl Fraction {
    /// The numerator.
    pub closed spec fn num(self) -> nat {
        self.num as nat
    }

    /// The denominator.
    pub closed spec fn den(self) -> nat {
        self.den as nat
    }

    /// The kind the fraction was made for.
    pub closed spec fn kind(self) -> Ftype {
        self.kind
    }

    /// Every fraction is one of its kind.
    #[verifier::type_invariant]
    pub open spec fn well_formed(self) -> bool {
        is_instance(self.kind(), self.num(), self.den())
    }

    /// Makes the fraction `num / den` of the given kind, if it is one.
    pub fn new(num: u32, den: u32, kind: Ftype) -> (made: Option<Fraction>)
        ensures
            made is Some <==> is_instance(kind, num as nat, den as nat),
            made matches Some(f) ==> f.num() == num && f.den() == den && f.kind() == kind,
    {
        if num < 1 || num > LIMIT || den < 1 || den > LIMIT {
            return None;
        }
        let fits = match kind {
            Ftype::Proper => num < den,
            Ftype::Improper => num > den && num % den != 0,
            Ftype::Apparent => num % den == 0 && is_composite(num),
        };
        if fits {
            Some(Fraction { num, den, kind })
        } else {
            None
        }
    }

    /// Makes the apparent fraction over `n` from one entry of `n`'s divisor
    /// list: the denominator is `n` divided by the entry at place `pick`.
    pub fn apparent(n: u32, list: &Vec<u32>, pick: usize) -> (made: Fraction)
        requires
            1 <= n <= LIMIT,
            as_nats(list@) == divisor_list(n as nat),
            list.len() > 2,
            pick < list.len(),
        ensures
            made.kind() == Ftype::Apparent,
            made.num() == n,
            made.den() == n as nat / divisor_list(n as nat)[pick as int],
            divisor_list(n as nat).contains(made.den()),
            is_instance(Ftype::Apparent, made.num(), made.den()),
    {
        let divisor = list[pick];
        proof {
            assert(as_nats(list@)[pick as int] == divisor as nat);
            lemma_divisor_list_sound(n as nat, pick as int);
            lemma_cofactor(n as nat, divisor as nat);
            lemma_composite_by_count(n as nat);
            lemma_divisor_list_complete(n as nat, n as nat / divisor as nat);
        }
        Fraction { num: n, den: n / divisor, kind: Ftype::Apparent }
    }

    /// The numerator.
    pub fn numerator(&self) -> (num: u32)
        ensures
            num == self.num(),
            is_instance(self.kind(), self.num(), self.den()),
    {
        proof {
            use_type_invariant(self);
        }
        self.num
    }

    /// The denominator.
    pub fn denominator(&self) -> (den: u32)
        ensures
            den == self.den(),
            is_instance(self.kind(), self.num(), self.den()),
    {
        proof {
            use_type_invariant(self);
        }
        self.den
    }

    /// The kind the fraction was made for.
    pub fn category(&self) -> (kind: Ftype)
        ensures
            kind == self.kind(),
            is_instance(self.kind(), self.num(), self.den()),
    {
        proof {
            use_type_invariant(self);
        }
        self.kind
    }
}

} // verus!
