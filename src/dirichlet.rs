//! The concentration vector of a Dirichlet distribution and its validation.
//!
//! Each concentration value is held as the raw IEEE-754 binary64 bit pattern
//! of the number (what `to_bits` yields for it).

use vstd::prelude::*;

use crate::ieee::{greater_than_zero, is_positive};

verus! {

/// Why a concentration vector was refused.
#[derive(Clone, Copy, Debug, PartialEq, Eq, Structural)]
pub enum Error {
    /// The vector has fewer than two entries.
    AlphaTooShort,
    /// A concentration value is zero, negative or NaN.
    AlphaTooSmall,
    /// The requested dimension is below two.
    SizeTooSmall,
}

/// Every entry of `alpha` compares greater than zero.
pub open spec fn all_positive(alpha: Seq<u64>) -> bool {
    forall|i: int| 0 <= i < alpha.len() ==> greater_than_zero(#[trigger] alpha[i])
}

/// A concentration vector that a Dirichlet distribution accepts: at least two
/// entries, each greater than zero.
pub open spec fn valid_concentration(alpha: Seq<u64>) -> bool {
    alpha.len() >= 2 && all_positive(alpha)
}

/// The Dirichlet distribution over vectors that sum to one, given by its
/// concentration parameters.
#[derive(Debug)]
pub struct Dirichlet {
    alpha: Vec<u64>,
}

impl View for Dirichlet {
    type V = Seq<u64>;

    closed spec fn view(&self) -> Seq<u64> {
        self.alpha@
    }
}

impl Clone for Dirichlet {
    fn clone(&self) -> (r: Self)
        ensures
            r@ == self@,
    {
        proof {
            use_type_invariant(self);
        }
        let alpha = self.alpha.clone();
        assert(alpha@ =~= self.alpha@);
        Dirichlet { alpha }
    }
}

impl Dirichlet {
    #[verifier::type_invariant]
    spec fn inv(self) -> bool {
        valid_concentration(self.alpha@)
    }

    /// Builds the distribution with the concentration vector `alpha`, kept as
    /// given.
    pub fn new(alpha: Vec<u64>) -> (r: Result<Dirichlet, Error>)
        ensures
            alpha@.len() < 2 ==> r == Err::<Dirichlet, Error>(Error::AlphaTooShort),
            alpha@.len() >= 2 && !all_positive(alpha@) ==> r == Err::<Dirichlet, Error>(
                Error::AlphaTooSmall,
            ),
            r is Ok <==> valid_concentration(alpha@),
            r matches Ok(d) ==> d@ == alpha@,
    {
        if alpha.len() < 2 {
            return Err(Error::AlphaTooShort);
        }
        let n = alpha.len();
        for i in 0..n
            invariant
                n == alpha@.len(),
                n >= 2,
                forall|j: int| 0 <= j < i ==> greater_than_zero(#[trigger] alpha@[j]),
        {
            if !is_positive(alpha[i]) {
                return Err(Error::AlphaTooSmall);
            }
        }
        Ok(Dirichlet { alpha })
    }

    /// Builds the symmetric distribution of dimension `size` whose
    /// concentration values all equal `alpha`.
    pub fn new_with_size(alpha: u64, size: usize) -> (r: Result<Dirichlet, Error>)
        ensures
            !greater_than_zero(alpha) ==> r == Err::<Dirichlet, Error>(Error::AlphaTooSmall),
            greater_than_zero(alpha) && size < 2 ==> r == Err::<Dirichlet, Error>(
                Error::SizeTooSmall,
            ),
            r is Ok <==> greater_than_zero(alpha) && size >= 2,
            r matches Ok(d) ==> d@ =~= Seq::new(size as nat, |_i: int| alpha),
    {
        if !is_positive(alpha) {
            return Err(Error::AlphaTooSmall);
        }
        if size < 2 {
            return Err(Error::SizeTooSmall);
        }
        let mut v: Vec<u64> = Vec::with_capacity(size);
        for i in 0..size
            invariant
                v@ =~= Seq::new(i as nat, |_i: int| alpha),
        {
            v.push(alpha);
        }
        Ok(Dirichlet { alpha: v })
    }

    /// The concentration values, in order.
    pub fn alpha(&self) -> (r: &[u64])
        ensures
            r@ == self@,
            valid_concentration(r@),
    {
        proof {
            use_type_invariant(self);
        }
        self.alpha.as_slice()
    }

    /// The dimension of the vectors that the distribution yields.
    pub fn dim(&self) -> (n: usize)
        ensures
            n == self@.len(),
            n >= 2,
    {
        proof {
            use_type_invariant(self);
        }
        self.alpha.len()
    }
}

} // verus!
