//! The parameters of one optimization.
use vstd::prelude::*;
use crate::float_bits::FloatBits;

verus! {

/// Bit pattern of `-1.0`.
pub const MINUS_ONE_BITS: u64 = 0xbff0_0000_0000_0000;

/// Bit pattern of `1.0`.
pub const ONE_BITS: u64 = 0x3ff0_0000_0000_0000;

/// Budget and structure knobs handed to the engine as they are, the bounds of
/// the search space (shared by every dimension), and how many independent
/// copies of the engine run at once.
#[derive(Clone, Copy, Debug, PartialEq, Eq, Structural)]
pub struct BiteOptParameters {
    pub iter: i32,
    pub depth: i32,
    pub attc: i32,
    pub lower_bound: FloatBits,
    pub upper_bound: FloatBits,
    pub portfolio_copies: usize,
}

/// The default parameters: 1000 iterations, depth 1, 10 attempts, bounds
/// `[-1, 1]`, one copy.
pub open spec fn default_parameters() -> BiteOptParameters {
    BiteOptParameters {
        iter: 1000,
        depth: 1,
        attc: 10,
        lower_bound: FloatBits { bits: MINUS_ONE_BITS },
        upper_bound: FloatBits { bits: ONE_BITS },
        portfolio_copies: 1,
    }
}

impl Default for BiteOptParameters {
    fn default() -> (r: BiteOptParameters)
        ensures
            r == default_parameters(),
    {
        BiteOptParameters {
            iter: 1000,
            depth: 1,
            attc: 10,
            lower_bound: FloatBits::from_bits(MINUS_ONE_BITS),
            upper_bound: FloatBits::from_bits(ONE_BITS),
            portfolio_copies: 1,
        }
    }
}

impl BiteOptParameters {
    /// The default parameters.
    pub fn new() -> (r: BiteOptParameters)
        ensures
            r == default_parameters(),
    {
        BiteOptParameters::default()
    }

    pub fn lower_bound(&self) -> (r: FloatBits)
        ensures
            r == self.lower_bound,
    {
        self.lower_bound
    }

    pub fn upper_bound(&self) -> (r: FloatBits)
        ensures
            r == self.upper_bound,
    {
        self.upper_bound
    }

    pub fn set_lower_bound(&mut self, lower_bound: FloatBits)
        ensures
            *final(self) == (BiteOptParameters { lower_bound, ..*old(self) }),
    {
        self.lower_bound = lower_bound;
    }

    pub fn set_upper_bound(&mut self, upper_bound: FloatBits)
        ensures
            *final(self) == (BiteOptParameters { upper_bound, ..*old(self) }),
    {
        self.upper_bound = upper_bound;
    }

    pub fn portfolio_copies(&self) -> (r: usize)
        ensures
            r == self.portfolio_copies,
    {
        self.portfolio_copies
    }

    /// Sets how many copies run at once. Zero is taken here and refused when
    /// a run is planned.
    pub fn set_portfolio_copies(&mut self, portfolio_copies: usize)
        ensures
            *final(self) == (BiteOptParameters { portfolio_copies, ..*old(self) }),
    {
        self.portfolio_copies = portfolio_copies;
    }

    pub fn iter(&self) -> (r: i32)
        ensures
            r == self.iter,
    {
        self.iter
    }

    pub fn depth(&self) -> (r: i32)
        ensures
            r == self.depth,
    {
        self.depth
    }

    pub fn attc(&self) -> (r: i32)
        ensures
            r == self.attc,
    {
        self.attc
    }

    pub fn set_iter(&mut self, iter: i32)
        ensures
            *final(self) == (BiteOptParameters { iter, ..*old(self) }),
    {
        self.iter = iter;
    }

    pub fn set_depth(&mut self, depth: i32)
        ensures
            *final(self) == (BiteOptParameters { depth, ..*old(self) }),
    {
        self.depth = depth;
    }

    pub fn set_attc(&mut self, attc: i32)
        ensures
            *final(self) == (BiteOptParameters { attc, ..*old(self) }),
    {
        self.attc = attc;
    }
}

} // verus!
