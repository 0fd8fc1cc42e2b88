//! Divisors of a number, listed the way the apparent fractions are built from
//! them, and what the list says about the number.

use vstd::arithmetic::div_mod::{lemma_div_by_multiple, lemma_fundamental_div_mod, lemma_mod_multiples_basic};
use vstd::prelude::*;

verus! {

/// `d` divides `n`.
pub open spec fn divides(d: nat, n: nat) -> bool {
    d > 0 && n % d == 0
}

/// `n` has a divisor other than 1 and itself.
pub open spec fn composite(n: nat) -> bool {
    exists|d: nat| 1 < d < n && #[trigger] divides(d, n)
}

/// The divisors `i` of `n` with `2 <= i < below` and `i * i <= n`, in rising
/// order, each followed by its cofactor `n / i`.
pub open spec fn paired_divisors(n: nat, below: nat) -> Seq<nat>
    decreases below,
{
    if below <= 2 {
        Seq::empty()
    } else {
        let i: nat = (below - 1) as nat;
        let earlier = paired_divisors(n, i);
        if i * i <= n && n % i == 0 {
            earlier.push(i).push(n / i)
        } else {
            earlier
        }
    }
}

/// The divisors of `n` as they are collected: 1, then `n`, then every divisor
/// up to the square root with its cofactor. The square root of a square
/// stands in the list twice.
pub open spec fn divisor_list(n: nat) -> Seq<nat> {
    seq![1nat, n] + paired_divisors(n, n + 1)
}

/// The numbers of a list of machine integers.
pub open spec fn as_nats(list: Seq<u32>) -> Seq<nat> {
    list.map_values(|x: u32| x as nat)
}

/// Past the square root nothing more is collected.
proof fn lemma_paired_stops_at_root(n: nat, from: nat, to: nat)
    requires
        from * from > n,
        from <= to,
    ensures
        paired_divisors(n, to) == paired_divisors(n, from),
    decreases to,
{
    if to > from && to > 2 {
        let i: nat = (to - 1) as nat;
        assert(i * i > n) by (nonlinear_arith)
            requires
                from * from > n,
                from <= i,
        ;
        lemma_paired_stops_at_root(n, from, i);
    }
}

/// What dividing by a divisor gives back: the cofactor is a divisor too, and
/// dividing by it returns the divisor.
pub proof fn lemma_cofactor(n: nat, d: nat)
    requires
        n > 0,
        divides(d, n),
    ensures
        (n / d) * d == n,
        1 <= n / d <= n,
        divides(n / d, n),
        n / (n / d) == d,
{
    let q: int = n as int / d as int;
    lemma_fundamental_div_mod(n as int, d as int);
    assert(d * q == n);
    assert(q * d == n) by (nonlinear_arith)
        requires
            d * q == n,
    ;
    assert(1 <= q <= n) by (nonlinear_arith)
        requires
            q * d == n,
            n > 0,
            d > 0,
    ;
    lemma_mod_multiples_basic(d as int, q);
    lemma_div_by_multiple(d as int, q);
}

/// Every number collected beside 1 and `n` divides `n` and lies strictly
/// between them.
proof fn lemma_paired_members(n: nat, below: nat, k: int)
    requires
        n > 0,
        0 <= k < paired_divisors(n, below).len(),
    ensures
        1 < paired_divisors(n, below)[k] < n,
        divides(paired_divisors(n, below)[k], n),
    decreases below,
{
    if below > 2 {
        let i: nat = (below - 1) as nat;
        let earlier = paired_divisors(n, i);
        if k < earlier.len() {
            lemma_paired_members(n, i, k);
        } else {
            assert(i * i <= n && n % i == 0);
            lemma_cofactor(n, i);
            let q: nat = n / i;
            assert(i < n && 1 < q < n) by (nonlinear_arith)
                requires
                    i >= 2,
                    i * i <= n,
                    q * i == n,
            ;
        }
    }
}

/// A divisor up to the square root is collected, and so is its cofactor.
proof fn lemma_paired_collects(n: nat, below: nat, i: nat)
    requires
        2 <= i < below,
        i * i <= n,
        n % i == 0,
    ensures
        paired_divisors(n, below).contains(i),
        paired_divisors(n, below).contains(n / i),
    decreases below,
{
    let last: nat = (below - 1) as nat;
    let earlier = paired_divisors(n, last);
    let all = paired_divisors(n, below);
    if i == last {
        assert(all[all.len() - 2] == i);
        assert(all[all.len() - 1] == n / i);
    } else {
        lemma_paired_collects(n, last, i);
        let k: int = choose|k: int| 0 <= k < earlier.len() && earlier[k] == i;
        let c: int = choose|c: int| 0 <= c < earlier.len() && earlier[c] == n / i;
        assert(all[k] == i);
        assert(all[c] == n / i);
    }
}

/// The collection adds at most two entries for each number it looks at.
proof fn lemma_paired_length(n: nat, below: nat)
    ensures
        paired_divisors(n, below).len() <= 2 * below,
    decreases below,
{
    if below > 2 {
        lemma_paired_length(n, (below - 1) as nat);
    }
}

/// Every entry of the divisor list divides the number.
pub proof fn lemma_divisor_list_sound(n: nat, k: int)
    requires
        n > 0,
        0 <= k < divisor_list(n).len(),
    ensures
        divides(divisor_list(n)[k], n),
        1 <= divisor_list(n)[k] <= n,
{
    if k >= 2 {
        lemma_paired_members(n, n + 1, k - 2);
    } else if k == 1 {
        lemma_mod_multiples_basic(1, n as int);
    }
}

/// Every divisor of the number stands in its divisor list.
pub proof fn lemma_divisor_list_complete(n: nat, d: nat)
    requires
        n > 0,
        divides(d, n),
    ensures
        divisor_list(n).contains(d),
{
    let list = divisor_list(n);
    let pairs = paired_divisors(n, n + 1);
    lemma_cofactor(n, d);
    let q: nat = n / d;
    if d == 1 {
        assert(list[0] == d);
    } else if q == 1 {
        assert(d == n) by (nonlinear_arith)
            requires
                q * d == n,
                q == 1,
        ;
        assert(list[1] == d);
    } else {
        assert(1 < d < n && 1 < q < n) by (nonlinear_arith)
            requires
                q * d == n,
                d != 1,
                q != 1,
                d > 0,
                q > 0,
        ;
        if d * d <= n {
            lemma_paired_collects(n, n + 1, d);
            let k: int = choose|k: int| 0 <= k < pairs.len() && pairs[k] == d;
            assert(list[k + 2] == d);
        } else {
            assert(q * q <= n) by (nonlinear_arith)
                requires
                    q * d == n,
                    d * d > n,
                    d > 0,
                    q > 0,
            ;
            lemma_paired_collects(n, n + 1, q);
            let k: int = choose|k: int| 0 <= k < pairs.len() && pairs[k] == n / q;
            assert(list[k + 2] == d);
        }
    }
}

/// The divisor list starts with 1 and the number, and its length is bounded
/// by the number.
pub proof fn lemma_divisor_list_length(n: nat)
    ensures
        2 <= divisor_list(n).len() <= 2 * n + 4,
        divisor_list(n)[0] == 1,
        divisor_list(n)[1] == n,
{
    lemma_paired_length(n, n + 1);
}

/// A number is composite exactly when its divisor list holds more than the
/// two entries 1 and the number itself.
pub proof fn lemma_composite_by_count(n: nat)
    ensures
        composite(n) <==> divisor_list(n).len() > 2,
{
    let list = divisor_list(n);
    if list.len() > 2 {
        lemma_paired_members(n, n + 1, 0);
        assert(divides(list[2], n));
    }
    if composite(n) {
        let d: nat = choose|d: nat| 1 < d < n && #[trigger] divides(d, n);
        lemma_divisor_list_complete(n, d);
        let k: int = choose|k: int| 0 <= k < list.len() && list[k] == d;
        assert(k >= 2);
    }
}

/// Collects the divisors of `n`: 1 and `n` first, then each divisor `i` from
/// 2 up to the square root of `n`, each followed by `n / i`.
pub fn divisors(n: u32) -> (list: Vec<u32>)
    ensures
        as_nats(list@) == divisor_list(n as nat),
{
    let mut list: Vec<u32> = Vec::new();
    list.push(1);
    list.push(n);
    let mut i: u32 = 2;
    while i <= n / i
        invariant
            2 <= i,
            as_nats(list@) =~= seq![1nat, n as nat] + paired_divisors(n as nat, i as nat),
        decreases n - i,
    {
        assert(i * i <= n && i < n) by (nonlinear_arith)
            requires
                2 <= i <= n / i,
        ;
        let ghost before = list@;
        if n % i == 0 {
            list.push(i);
            list.push(n / i);
            assert(as_nats(list@) =~= as_nats(before).push(i as nat).push((n / i) as nat));
        }
        i += 1;
    }
    proof {
        assert(i * i > n) by (nonlinear_arith)
            requires
                2 <= i,
                i > n / i,
        ;
        if i <= n + 1 {
            lemma_paired_stops_at_root(n as nat, i as nat, (n + 1) as nat);
        } else {
            assert((n + 1) * (n + 1) > n) by (nonlinear_arith);
            lemma_paired_stops_at_root(n as nat, (n + 1) as nat, i as nat);
        }
    }
    list
}

/// Tells whether `n` has a divisor other than 1 and itself.
pub fn is_composite(n: u32) -> (yes: bool)
    ensures
        yes == composite(n as nat),
{
    let list = divisors(n);
    proof {
        lemma_composite_by_count(n as nat);
    }
    list.len() > 2
}

} // verus!
