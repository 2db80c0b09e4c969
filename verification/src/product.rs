//! The multiplicative aggregate of a client stream: the product of the
//! numbers that are not zero.

use vstd::prelude::*;

verus! {

/// What one number contributes to the aggregate: itself, or the
/// multiplicative identity where it is zero.
pub open spec fn factor(x: u32) -> nat {
    if x == 0 {
        1
    } else {
        x as nat
    }
}

/// The product of all numbers of `xs` that are not zero; 1 where there is
/// none.
pub open spec fn nonzero_product(xs: Seq<u32>) -> nat
    decreases xs.len(),
{
    if xs.len() == 0 {
        1
    } else {
        nonzero_product(xs.drop_last()) * factor(xs.last())
    }
}

/// The plain product of all numbers of `xs`; 1 for the empty sequence.
pub open spec fn product(xs: Seq<u32>) -> nat
    decreases xs.len(),
{
    if xs.len() == 0 {
        1
    } else {
        product(xs.drop_last()) * (xs.last() as nat)
    }
}

/// Whether a number takes part in the aggregate.
pub open spec fn is_nonzero(x: u32) -> bool {
    x != 0
}

/// Appending a number multiplies the aggregate by that number's factor.
pub proof fn lemma_nonzero_product_push(xs: Seq<u32>, x: u32)
    ensures
        nonzero_product(xs.push(x)) == nonzero_product(xs) * factor(x),
{
    assert(xs.push(x).drop_last() =~= xs);
}

/// The aggregate is never zero: zero-valued elements cannot degenerate it.
pub proof fn lemma_nonzero_product_positive(xs: Seq<u32>)
    ensures
        nonzero_product(xs) >= 1,
    decreases xs.len(),
{
    if xs.len() > 0 {
        lemma_nonzero_product_positive(xs.drop_last());
        let p = nonzero_product(xs.drop_last());
        let f = factor(xs.last());
        assert(p * f >= 1) by (nonlinear_arith)
            requires
                p >= 1,
                f >= 1,
        ;
    }
}

/// The aggregate of a prefix never exceeds the aggregate of the whole: once
/// a prefix is out of range, so is every extension of it.
pub proof fn lemma_nonzero_product_prefix(xs: Seq<u32>, len: int)
    requires
        0 <= len <= xs.len(),
    ensures
        nonzero_product(xs.take(len)) <= nonzero_product(xs),
    decreases xs.len() - len,
{
    if len == xs.len() {
        assert(xs.take(len) =~= xs);
    } else {
        lemma_nonzero_product_prefix(xs.drop_last(), len);
        assert(xs.drop_last().take(len) =~= xs.take(len));
        lemma_nonzero_product_positive(xs.drop_last());
        let p = nonzero_product(xs.drop_last());
        let f = factor(xs.last());
        assert(p <= p * f) by (nonlinear_arith)
            requires
                p >= 1,
                f >= 1,
        ;
    }
}

/// For an input of zeros only, the empty input among them, the aggregate is
/// the multiplicative identity.
pub proof fn lemma_nonzero_product_of_zeros(xs: Seq<u32>)
    requires
        forall|i: int| 0 <= i < xs.len() ==> xs[i] == 0,
    ensures
        nonzero_product(xs) == 1,
    decreases xs.len(),
{
    if xs.len() > 0 {
        lemma_nonzero_product_of_zeros(xs.drop_last());
        assert(factor(xs.last()) == 1);
        assert(nonzero_product(xs.drop_last()) * factor(xs.last()) == 1);
    }
}

/// The aggregate is the plain product of what is left of the input once its
/// zeros are taken out.
pub proof fn lemma_nonzero_product_filters_zeros(xs: Seq<u32>)
    ensures
        nonzero_product(xs) == product(xs.filter(|x: u32| is_nonzero(x))),
    decreases xs.len(),
{
    let keep = |x: u32| is_nonzero(x);
    reveal(Seq::filter);
    if xs.len() > 0 {
        lemma_nonzero_product_filters_zeros(xs.drop_last());
        let rest = xs.drop_last().filter(keep);
        if xs.last() != 0 {
            assert(xs.filter(keep) == rest.push(xs.last()));
            assert(rest.push(xs.last()).drop_last() =~= rest);
        } else {
            assert(xs.filter(keep) == rest);
            assert(factor(xs.last()) == 1);
        }
    }
}

/// Without a zero in the input the aggregate is the plain product.
pub proof fn lemma_nonzero_product_without_zeros(xs: Seq<u32>)
    requires
        forall|i: int| 0 <= i < xs.len() ==> xs[i] != 0,
    ensures
        nonzero_product(xs) == product(xs),
    decreases xs.len(),
{
    if xs.len() > 0 {
        lemma_nonzero_product_without_zeros(xs.drop_last());
    }
}

} // verus!
