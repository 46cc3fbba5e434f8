//! The coefficient layout of an embedded explicit Runge-Kutta method.

use vstd::prelude::*;

verus! {

/// Why a set of coefficients does not describe a method.
#[derive(Clone, Copy, Debug, PartialEq, Eq, Structural)]
pub enum RkError {
    NoStages,
    /// The order must be at least two, so that a rejected step can shrink by
    /// the power `1 / (order - 1)`.
    BadOrder,
    /// The a-coefficients do not fill the lower triangle of the stages.
    BadA,
    /// The b-coefficients are not the primary and the secondary weights.
    BadB,
}

/// Position of the first coefficient of stage `i` in the row-wise lower triangle.
pub open spec fn row_start(i: int) -> int {
    i * (i - 1) / 2
}

/// The tableau of an embedded method: `a` holds the strictly lower triangle row
/// by row (stage `i` has `i` coefficients), `b` the primary weights followed by
/// the secondary ones.
pub struct RkMethod<T> {
    pub order: u8,
    pub stages: usize,
    pub a: Vec<T>,
    pub b: Vec<T>,
}

proof fn lemma_row_start_step(i: int)
    requires
        i >= 0,
    ensures
        row_start(i + 1) == row_start(i) + i,
        row_start(i) >= 0,
{
    assert((i + 1) * i == i * (i - 1) + 2 * i) by (nonlinear_arith);
    assert(i * (i - 1) >= 0) by (nonlinear_arith)
        requires
            i >= 0,
    ;
    assert(((i * (i - 1)) + 2 * i) / 2 == (i * (i - 1)) / 2 + i) by {
        assert(i * (i - 1) == (i * (i - 1)) / 2 * 2) by {
            lemma_product_of_consecutive_is_even(i);
        }
    }
}

proof fn lemma_product_of_consecutive_is_even(i: int)
    requires
        i >= 0,
    ensures
        (i * (i - 1)) % 2 == 0,
    decreases i,
{
    if i > 0 {
        lemma_product_of_consecutive_is_even(i - 1);
        assert(i * (i - 1) == (i - 1) * (i - 2) + 2 * (i - 1)) by (nonlinear_arith);
    }
}

proof fn lemma_row_start_monotonic(i: int, s: int)
    requires
        0 <= i <= s,
    ensures
        row_start(i) <= row_start(s),
    decreases s - i,
{
    lemma_row_start_step(i);
    if i < s {
        lemma_row_start_monotonic(i + 1, s);
    }
}

impl<T: Copy> RkMethod<T> {
    pub open spec fn wf(self) -> bool {
        &&& self.stages >= 1
        &&& self.order >= 2
        &&& self.a@.len() == row_start(self.stages as int)
        &&& self.b@.len() == 2 * self.stages
    }

    /// A method, once the lengths of its coefficient arrays are checked.
    pub fn new(order: u8, stages: usize, a: Vec<T>, b: Vec<T>) -> (r: Result<RkMethod<T>, RkError>)
        ensures
            r is Ok <==> (stages >= 1 && order >= 2 && a@.len() == row_start(stages as int) && b@.len()
                == 2 * stages),
            r matches Ok(m) ==> m.wf() && m.order == order && m.stages == stages && m.a@ == a@ && m.b@
                == b@,
            r matches Err(e) ==> e == if stages == 0 {
                RkError::NoStages
            } else if order < 2 {
                RkError::BadOrder
            } else if a@.len() != row_start(stages as int) {
                RkError::BadA
            } else {
                RkError::BadB
            },
    {
        if stages == 0 {
            return Err(RkError::NoStages);
        }
        if order < 2 {
            return Err(RkError::BadOrder);
        }
        // Stage s - 1 holds the last row of the triangle; count it row by row.
        let mut expected: usize = 0;
        let mut i: usize = 0;
        while i < stages
            invariant
                0 <= i <= stages,
                stages >= 1,
                order >= 2,
                expected as int == row_start(i as int),
                expected <= a.len(),
            decreases stages - i,
        {
            proof {
                lemma_row_start_step(i as int);
            }
            if a.len() - expected < i {
                proof {
                    lemma_row_start_monotonic(i as int + 1, stages as int);
                    assert(a@.len() < row_start(i as int + 1));
                }
                return Err(RkError::BadA);
            }
            expected = expected + i;
            i = i + 1;
        }
        if a.len() != expected {
            return Err(RkError::BadA);
        }
        if stages > b.len() || b.len() - stages != stages {
            return Err(RkError::BadB);
        }
        Ok(RkMethod { order, stages, a, b })
    }

    /// The coefficient a_ij, for stage `i` and an earlier stage `j`.
    pub fn a_coeff(&self, i: usize, j: usize) -> (r: T)
        requires
            self.wf(),
            j < i < self.stages,
        ensures
            r == self.a@[row_start(i as int) + j],
    {
        proof {
            lemma_row_start_step(i as int);
            lemma_row_start_monotonic(i as int + 1, self.stages as int);
        }
        let alen = self.a.len();
        let mut start: usize = 0;
        let mut k: usize = 0;
        while k < i
            invariant
                0 <= k <= i < self.stages,
                alen == self.a@.len(),
                start as int == row_start(k as int),
                row_start(i as int) + i <= self.a@.len(),
            decreases i - k,
        {
            proof {
                lemma_row_start_step(k as int);
                lemma_row_start_monotonic(k as int + 1, i as int);
            }
            start = start + k;
            k = k + 1;
        }
        self.a[start + j]
    }

    /// The primary weight of stage `i`.
    pub fn b_coeff(&self, i: usize) -> (r: T)
        requires
            self.wf(),
            i < self.stages,
        ensures
            r == self.b@[i as int],
    {
        self.b[i]
    }

    /// The secondary (embedded) weight of stage `i`.
    pub fn b_star_coeff(&self, i: usize) -> (r: T)
        requires
            self.wf(),
            i < self.stages,
        ensures
            r == self.b@[i + self.stages],
    {
        let weights = self.b.len();
        self.b[weights - self.stages + i]
    }
}

} // verus!
