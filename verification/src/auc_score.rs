//! Label validation and the accuracy-style score.
//!
//! The score keeps its historical name `auc_score` for continuity with
//! the rest of the pipeline, but it is a raw match-count accuracy, not
//! a rank-based area under a curve: the fraction of rows where the
//! binarized prediction equals the label.  The numeric caller
//! classifies each raw label against the binary domain and binarizes
//! each prediction; everything after that is verified here.

use vstd::prelude::*;

verus! {

use crate::errors::Error;

/// Where one target label sits relative to the binary domain.
#[derive(Clone, Copy, Debug, PartialEq, Eq, Structural)]
pub enum LabelClass {
    /// Below zero, or otherwise uncoercible to the binary domain:
    /// a fatal input error.
    Invalid,
    /// Exactly zero: the negative class.
    Zero,
    /// Exactly one: the positive class.
    One,
    /// Above one: coerced to the positive class, with a warning.
    AboveOne,
}

/// Whether a label class counts as positive.
pub open spec fn is_positive(c: LabelClass) -> bool {
    c is One || c is AboveOne
}

/// Number of positive labels in a class sequence.
pub open spec fn count_positive(s: Seq<LabelClass>) -> nat
    decreases s.len(),
{
    if s.len() == 0 {
        0
    } else {
        count_positive(s.drop_last()) + if is_positive(s.last()) {
            1nat
        } else {
            0nat
        }
    }
}

/// Number of exactly-zero labels in a class sequence.
pub open spec fn count_negative(s: Seq<LabelClass>) -> nat
    decreases s.len(),
{
    if s.len() == 0 {
        0
    } else {
        count_negative(s.drop_last()) + if s.last() is Zero {
            1nat
        } else {
            0nat
        }
    }
}

/// Whether some label is invalid (a fatal input error).
pub open spec fn has_invalid(s: Seq<LabelClass>) -> bool {
    exists|i: int| 0 <= i < s.len() && s[i] is Invalid
}

/// Whether some label lies above one (coerced, with a warning).
pub open spec fn has_above_one(s: Seq<LabelClass>) -> bool {
    exists|i: int| 0 <= i < s.len() && s[i] is AboveOne
}

/// Whether a binarized prediction agrees with a label.  A label above
/// one counts as positive in the tally, yet agrees with no binary
/// prediction, exactly as comparing the raw values would have it.
pub open spec fn matches_at(c: LabelClass, p: u8) -> bool {
    (c is Zero && p == 0) || (c is One && p == 1)
}

/// Number of positions where the prediction agrees with the label.
pub open spec fn match_count(cs: Seq<LabelClass>, ps: Seq<u8>) -> nat
    decreases cs.len(),
{
    if cs.len() == 0 || ps.len() == 0 {
        0
    } else {
        match_count(cs.drop_last(), ps.drop_last()) + if matches_at(cs.last(), ps.last()) {
            1nat
        } else {
            0nat
        }
    }
}

/// Outcome of one scoring pass: the match count together with the
/// class tally produced by the same single forward pass.
#[derive(Clone, Copy, Debug)]
pub struct Score {
    /// Rows where the prediction equals the label.
    pub matches: usize,
    /// Total number of rows scored.
    pub total: usize,
    /// Labels counted as positive (one, or above one).
    pub pos: usize,
    /// Labels equal to zero.
    pub neg: usize,
    /// Whether any label above one was coerced to positive.
    pub warned: bool,
}

/// Scores binarized predictions against classified labels in a single
/// forward pass.  Fails on the first invalid label; a label above
/// one is tallied as positive and only raises the warning flag.  The
/// caller derives the accuracy fraction as `matches / total`.
pub fn auc_score(y_true: &Vec<LabelClass>, y_hat: &Vec<u8>) -> (r: Result<Score, Error>)
    requires
        y_hat@.len() == y_true@.len(),
    ensures
        match r {
            Ok(s) => {
                &&& !has_invalid(y_true@)
                &&& s.total == y_true@.len()
                &&& s.matches == match_count(y_true@, y_hat@)
                &&& s.pos == count_positive(y_true@)
                &&& s.neg == count_negative(y_true@)
                &&& (s.warned <==> has_above_one(y_true@))
            },
            Err(e) => {
                &&& has_invalid(y_true@)
                &&& e matches Error::InputLabel { index } && 0 <= index < y_true@.len()
                    && y_true@[index as int] is Invalid && (forall|k: int|
                    0 <= k < index ==> !(y_true@[k] is Invalid))
            },
        },
{
    let n = y_true.len();
    let mut pos: usize = 0;
    let mut neg: usize = 0;
    let mut matched: usize = 0;
    let mut warned: bool = false;
    let mut i: usize = 0;
    while i < n
        invariant
            i <= n,
            n == y_true@.len(),
            n == y_hat@.len(),
            pos <= i,
            neg <= i,
            matched <= i,
            pos == count_positive(y_true@.subrange(0, i as int)),
            neg == count_negative(y_true@.subrange(0, i as int)),
            matched == match_count(y_true@.subrange(0, i as int), y_hat@.subrange(0, i as int)),
            warned <==> has_above_one(y_true@.subrange(0, i as int)),
            forall|k: int| 0 <= k < i ==> !(y_true@[k] is Invalid),
        decreases n - i,
    {
        proof {
            assert(y_true@.subrange(0, i + 1 as int).drop_last() =~= y_true@.subrange(0, i as int));
            assert(y_hat@.subrange(0, i + 1 as int).drop_last() =~= y_hat@.subrange(0, i as int));
            assert(y_true@.subrange(0, i + 1 as int).last() == y_true@[i as int]);
            assert(y_hat@.subrange(0, i + 1 as int).last() == y_hat@[i as int]);
        }
        let c = y_true[i];
        let p = y_hat[i];
        match c {
            LabelClass::Invalid => {
                return Err(Error::InputLabel { index: i });
            },
            LabelClass::Zero => {
                neg += 1;
                if p == 0 {
                    matched += 1;
                }
            },
            LabelClass::One => {
                pos += 1;
                if p == 1 {
                    matched += 1;
                }
            },
            LabelClass::AboveOne => {
                pos += 1;
                warned = true;
            },
        }
        i += 1;
        proof {
            if warned && !has_above_one(y_true@.subrange(0, i as int)) {
                assert(forall|k: int|
                    0 <= k < i ==> y_true@.subrange(0, i as int)[k] == y_true@[k]);
            }
        }
    }
    proof {
        assert(y_true@.subrange(0, n as int) =~= y_true@);
        assert(y_hat@.subrange(0, n as int) =~= y_hat@);
    }
    Ok(Score { matches: matched, total: n, pos, neg, warned })
}

/// Law: a prediction vector that agrees with the labels at every row
/// scores a full match count, so its accuracy fraction is one.
pub proof fn lemma_match_count_all_correct(cs: Seq<LabelClass>, ps: Seq<u8>)
    requires
        cs.len() == ps.len(),
        forall|i: int| 0 <= i < cs.len() ==> matches_at(cs[i], ps[i]),
    ensures
        match_count(cs, ps) == cs.len(),
    decreases cs.len(),
{
    if cs.len() > 0 {
        lemma_match_count_all_correct(cs.drop_last(), ps.drop_last());
    }
}

/// Law: a prediction vector that agrees with the labels at no row
/// scores zero matches, so its accuracy fraction is zero.
pub proof fn lemma_match_count_all_wrong(cs: Seq<LabelClass>, ps: Seq<u8>)
    requires
        cs.len() == ps.len(),
        forall|i: int| 0 <= i < cs.len() ==> !matches_at(cs[i], ps[i]),
    ensures
        match_count(cs, ps) == 0,
    decreases cs.len(),
{
    if cs.len() > 0 {
        lemma_match_count_all_wrong(cs.drop_last(), ps.drop_last());
    }
}

/// The match count never exceeds the number of rows, so the accuracy
/// fraction never exceeds one.
pub proof fn lemma_match_count_le_len(cs: Seq<LabelClass>, ps: Seq<u8>)
    ensures
        match_count(cs, ps) <= cs.len(),
    decreases cs.len(),
{
    if cs.len() > 0 && ps.len() > 0 {
        lemma_match_count_le_len(cs.drop_last(), ps.drop_last());
    }
}

} // verus!
