//! Margin-tolerant comparison of numeric values.
//!
//! Six pure predicates decide ordering relations between two values under a
//! tolerance margin instead of exact equality or ordering: `eq`, `ne`, `gt`,
//! `lt`, `ge` and `le`. Each takes a left operand, a right operand and a
//! margin of the same type, and returns a boolean. Every call is stateless,
//! total and free of panics; a negative margin is not rejected and simply
//! follows the arithmetic definitions below.

use vstd::prelude::*;

verus! {

/// `rh` falls within the closed interval `[lh - margin, lh + margin]`.
pub open spec fn within_margin(lh: int, rh: int, margin: int) -> bool {
    rh <= lh + margin && rh >= lh - margin
}

/// `rh` falls strictly outside the interval `[lh - margin, lh + margin]`.
///
/// Deliberately defined by its own two clauses rather than as the negation
/// of [`within_margin`]: with a non-negative margin the two coincide (see
/// [`lemma_eq_negates_ne`]), while with a negative margin each clause flips
/// its sense on its own.
pub open spec fn outside_margin(lh: int, rh: int, margin: int) -> bool {
    lh + margin < rh || lh - margin > rh
}

/// `lh` exceeds `rh` by more than `margin`.
pub open spec fn above_margin(lh: int, rh: int, margin: int) -> bool {
    lh > rh + margin
}

/// `lh` is below `rh` by more than `margin`.
pub open spec fn below_margin(lh: int, rh: int, margin: int) -> bool {
    lh < rh - margin
}

/// `lh` is not below `rh` by more than `margin`.
pub open spec fn not_below_margin(lh: int, rh: int, margin: int) -> bool {
    lh >= rh - margin
}

/// `lh` is not above `rh` by more than `margin`.
pub open spec fn not_above_margin(lh: int, rh: int, margin: int) -> bool {
    lh <= rh + margin
}

/// Equal within margin (equal enough).
///
/// Returns true exactly when `rh` lies in `[lh - margin, lh + margin]`.
/// Total: the sums are formed in a wider type, so no input overflows.
pub fn eq(lh: i64, rh: i64, margin: i64) -> (r: bool)
    ensures
        r == within_margin(lh as int, rh as int, margin as int),
{
    let li: i128 = lh as i128;
    let ri: i128 = rh as i128;
    let mi: i128 = margin as i128;
    (ri <= li + mi) && (ri >= li - mi)
}

/// Not equal within margin (unequal enough).
///
/// Returns true exactly when `rh` lies strictly outside
/// `[lh - margin, lh + margin]`.
pub fn ne(lh: i64, rh: i64, margin: i64) -> (r: bool)
    ensures
        r == outside_margin(lh as int, rh as int, margin as int),
{
    let li: i128 = lh as i128;
    let ri: i128 = rh as i128;
    let mi: i128 = margin as i128;
    (li + mi < ri) || (li - mi > ri)
}

/// Surely greater (greater enough).
///
/// Returns true exactly when `lh` exceeds `rh` by more than `margin`.
pub fn gt(lh: i64, rh: i64, margin: i64) -> (r: bool)
    ensures
        r == above_margin(lh as int, rh as int, margin as int),
{
    let li: i128 = lh as i128;
    let ri: i128 = rh as i128;
    let mi: i128 = margin as i128;
    li > ri + mi
}

/// Surely less (less enough).
///
/// Returns true exactly when `lh` is below `rh` by more than `margin`.
pub fn lt(lh: i64, rh: i64, margin: i64) -> (r: bool)
    ensures
        r == below_margin(lh as int, rh as int, margin as int),
{
    let li: i128 = lh as i128;
    let ri: i128 = rh as i128;
    let mi: i128 = margin as i128;
    li < ri - mi
}

/// Not surely smaller (at least equal).
///
/// Returns true exactly when `lh` is not below `rh` by more than `margin`.
pub fn ge(lh: i64, rh: i64, margin: i64) -> (r: bool)
    ensures
        r == not_below_margin(lh as int, rh as int, margin as int),
{
    let li: i128 = lh as i128;
    let ri: i128 = rh as i128;
    let mi: i128 = margin as i128;
    li >= ri - mi
}

/// Not surely larger (at most equal).
///
/// Returns true exactly when `lh` is not above `rh` by more than `margin`.
pub fn le(lh: i64, rh: i64, margin: i64) -> (r: bool)
    ensures
        r == not_above_margin(lh as int, rh as int, margin as int),
{
    let li: i128 = lh as i128;
    let ri: i128 = rh as i128;
    let mi: i128 = margin as i128;
    li <= ri + mi
}

/// With a non-negative margin, equal-within-margin is the logical negation
/// of not-equal-within-margin.
pub proof fn lemma_eq_negates_ne(lh: int, rh: int, margin: int)
    requires
        margin >= 0,
    ensures
        within_margin(lh, rh, margin) == !outside_margin(lh, rh, margin),
{
}

/// Every value is equal to itself under a zero margin.
pub proof fn lemma_eq_reflexive_zero_margin(lh: int)
    ensures
        within_margin(lh, lh, 0),
{
}

/// With a non-negative margin, being surely greater rules out being equal
/// within the margin.
pub proof fn lemma_gt_excludes_eq(lh: int, rh: int, margin: int)
    requires
        margin >= 0,
    ensures
        above_margin(lh, rh, margin) ==> !within_margin(lh, rh, margin),
{
}

/// With a non-negative margin, being surely less rules out being equal
/// within the margin.
pub proof fn lemma_lt_excludes_eq(lh: int, rh: int, margin: int)
    requires
        margin >= 0,
    ensures
        below_margin(lh, rh, margin) ==> !within_margin(lh, rh, margin),
{
}

/// Greater-or-equal within margin is the logical negation of surely-less,
/// and less-or-equal within margin is the logical negation of surely-greater.
pub proof fn lemma_ge_le_negations(lh: int, rh: int, margin: int)
    requires
        margin >= 0,
    ensures
        not_below_margin(lh, rh, margin) == !below_margin(lh, rh, margin),
        not_above_margin(lh, rh, margin) == !above_margin(lh, rh, margin),
{
}

/// Equality within a margin is symmetric in its two operands, and so is
/// inequality within a margin.
pub proof fn lemma_eq_ne_symmetric(lh: int, rh: int, margin: int)
    requires
        margin >= 0,
    ensures
        within_margin(lh, rh, margin) == within_margin(rh, lh, margin),
        outside_margin(lh, rh, margin) == outside_margin(rh, lh, margin),
{
}

/// Widening the margin is monotone: it can only turn `eq`, `ge` and `le`
/// from false to true, and can only turn `gt`, `lt` and `ne` from true to
/// false.
pub proof fn lemma_margin_monotonic(lh: int, rh: int, small: int, large: int)
    requires
        0 <= small <= large,
    ensures
        within_margin(lh, rh, small) ==> within_margin(lh, rh, large),
        not_below_margin(lh, rh, small) ==> not_below_margin(lh, rh, large),
        not_above_margin(lh, rh, small) ==> not_above_margin(lh, rh, large),
        above_margin(lh, rh, large) ==> above_margin(lh, rh, small),
        below_margin(lh, rh, large) ==> below_margin(lh, rh, small),
        outside_margin(lh, rh, large) ==> outside_margin(lh, rh, small),
{
}

} // verus!
