use fractype::generator::{pick_kind, ATTEMPTS};
use fractype::{generate, Fraction, Ftype, State};

const DRAWS: usize = 3000;

fn is_composite(n: u32) -> bool {
    (2..n).any(|d| n % d == 0)
}

fn draw(kind: Ftype) -> Fraction {
    generate(kind).expect("the generator used up its attempts")
}

#[test]
fn proper_fractions_have_the_smaller_numerator() {
    for _ in 0..DRAWS {
        let f = draw(Ftype::Proper);
        assert_eq!(f.category(), Ftype::Proper);
        assert!(1 <= f.numerator() && f.numerator() <= 119);
        assert!(f.numerator() < f.denominator() && f.denominator() <= 120);
    }
}

#[test]
fn improper_fractions_have_the_larger_numerator_and_do_not_reduce_to_a_whole() {
    for _ in 0..DRAWS {
        let f = draw(Ftype::Improper);
        assert_eq!(f.category(), Ftype::Improper);
        assert!(2 <= f.numerator() && f.numerator() <= 120);
        assert!(1 <= f.denominator() && f.denominator() < f.numerator());
        assert_ne!(f.numerator() % f.denominator(), 0);
    }
}

#[test]
fn apparent_fractions_reduce_to_a_whole_over_a_composite_numerator() {
    for _ in 0..DRAWS {
        let f = draw(Ftype::Apparent);
        assert_eq!(f.category(), Ftype::Apparent);
        assert!(1 <= f.numerator() && f.numerator() <= 119);
        assert!(1 <= f.denominator() && f.denominator() <= f.numerator());
        assert_eq!(f.numerator() % f.denominator(), 0);
        assert!(is_composite(f.numerator()));
    }
}

#[test]
fn generated_fractions_pass_the_constructor() {
    for kind in [Ftype::Proper, Ftype::Improper, Ftype::Apparent] {
        for _ in 0..DRAWS {
            let f = draw(kind);
            assert_eq!(Fraction::new(f.numerator(), f.denominator(), kind), Some(f));
        }
    }
}

#[test]
fn draws_differ() {
    for kind in [Ftype::Proper, Ftype::Improper, Ftype::Apparent] {
        let first = draw(kind);
        let mut numerators = false;
        let mut denominators = false;
        for _ in 0..DRAWS {
            let f = draw(kind);
            numerators |= f.numerator() != first.numerator();
            denominators |= f.denominator() != first.denominator();
        }
        assert!(numerators && denominators, "every draw of {:?} gave the same", kind);
    }
}

#[test]
fn proper_draws_reach_both_ends_of_their_range() {
    let mut smallest = u32::MAX;
    let mut largest = 0;
    for _ in 0..20 * DRAWS {
        let f = draw(Ftype::Proper);
        smallest = smallest.min(f.numerator());
        largest = largest.max(f.denominator());
    }
    assert_eq!(smallest, 1);
    assert_eq!(largest, 120);
}

#[test]
fn apparent_draws_reach_the_trivial_divisors() {
    let mut whole = false;
    let mut one = false;
    let mut between = false;
    for _ in 0..DRAWS {
        let f = draw(Ftype::Apparent);
        whole |= f.denominator() == 1;
        one |= f.denominator() == f.numerator();
        between |= 1 < f.denominator() && f.denominator() < f.numerator();
    }
    assert!(whole && one && between);
}

#[test]
fn every_kind_is_picked() {
    let mut seen = [false; 3];
    for _ in 0..DRAWS {
        match pick_kind() {
            Ftype::Proper => seen[0] = true,
            Ftype::Improper => seen[1] = true,
            Ftype::Apparent => seen[2] = true,
        }
    }
    assert_eq!(seen, [true, true, true]);
}

#[test]
fn new_numbers_are_of_every_kind() {
    let mut seen = [false; 3];
    for _ in 0..DRAWS {
        let f = State::get_new_numbers().expect("the generator used up its attempts");
        assert_eq!(Fraction::new(f.numerator(), f.denominator(), f.category()), Some(f));
        match f.category() {
            Ftype::Proper => seen[0] = true,
            Ftype::Improper => seen[1] = true,
            Ftype::Apparent => seen[2] = true,
        }
    }
    assert_eq!(seen, [true, true, true]);
}

#[test]
fn attempts_are_a_thousand() {
    assert_eq!(ATTEMPTS, 1000);
}
