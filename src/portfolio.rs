//! The plan of a portfolio run: the checks made before any work starts, and
//! the arguments of the engine call that every copy makes.
use vstd::prelude::*;
use crate::float_bits::FloatBits;
use crate::params::BiteOptParameters;

verus! {

/// Why a run cannot start.
#[derive(Clone, Copy, Debug, PartialEq, Eq, Structural)]
pub enum PortfolioError {
    /// `portfolio_copies` is zero: at least one copy must run.
    NoCopies,
    /// The archetype's vector is longer than the engine's dimension argument
    /// can express.
    DimensionTooLarge,
}

/// The arguments of one synchronous engine call.
///
/// The output buffer has `buffer_len` entries, always the length of the
/// archetype's vector, and the engine is told the same number as
/// `dimension`: it never reports a length of its own.
#[derive(Clone, Copy, Debug, PartialEq, Eq, Structural)]
pub struct EngineCall {
    pub dimension: i32,
    pub buffer_len: usize,
    pub lower_bound: FloatBits,
    pub upper_bound: FloatBits,
    pub iter: i32,
    pub depth: i32,
    pub attc: i32,
}

/// A run to make: how many copies, and the call each of them makes.
#[derive(Clone, Copy, Debug, PartialEq, Eq, Structural)]
pub struct PortfolioPlan {
    pub copies: usize,
    pub call: EngineCall,
}

/// The engine call for `params` on an archetype whose vector has
/// `dimension` entries.
pub open spec fn engine_call_for(params: BiteOptParameters, dimension: usize) -> EngineCall {
    EngineCall {
        dimension: dimension as i32,
        buffer_len: dimension,
        lower_bound: params.lower_bound,
        upper_bound: params.upper_bound,
        iter: params.iter,
        depth: params.depth,
        attc: params.attc,
    }
}

/// What planning a run with `params`, on an archetype whose vector has
/// `dimension` entries, gives.
pub open spec fn plan_for(params: BiteOptParameters, dimension: usize) -> Result<PortfolioPlan, PortfolioError> {
    if params.portfolio_copies == 0 {
        Err(PortfolioError::NoCopies)
    } else if dimension > i32::MAX as usize {
        Err(PortfolioError::DimensionTooLarge)
    } else {
        Ok(PortfolioPlan { copies: params.portfolio_copies, call: engine_call_for(params, dimension) })
    }
}

impl EngineCall {
    /// The buffer and the dimension told to the engine agree.
    pub open spec fn well_sized(&self) -> bool {
        self.dimension >= 0 && self.dimension as int == self.buffer_len as int
    }
}

/// Plans a run. Zero copies is refused before anything else, so no engine
/// call is made and no copy is started; a vector too long for the engine's
/// dimension argument is refused too. Otherwise every one of
/// `portfolio_copies` copies makes the same call, whose buffer is exactly as
/// long as the archetype's vector.
pub fn plan_portfolio(params: &BiteOptParameters, dimension: usize) -> (r: Result<
    PortfolioPlan,
    PortfolioError,
>)
    ensures
        r == plan_for(*params, dimension),
        (r == Err::<PortfolioPlan, PortfolioError>(PortfolioError::NoCopies)) <==> params.portfolio_copies
            == 0,
        r is Ok <==> params.portfolio_copies >= 1 && dimension <= i32::MAX,
        r is Ok ==> r->Ok_0.copies >= 1 && r->Ok_0.call.well_sized() && r->Ok_0.call.buffer_len
            == dimension,
{
    if params.portfolio_copies == 0 {
        return Err(PortfolioError::NoCopies);
    }
    if dimension > i32::MAX as usize {
        return Err(PortfolioError::DimensionTooLarge);
    }
    let call = EngineCall {
        dimension: dimension as i32,
        buffer_len: dimension,
        lower_bound: params.lower_bound,
        upper_bound: params.upper_bound,
        iter: params.iter,
        depth: params.depth,
        attc: params.attc,
    };
    Ok(PortfolioPlan { copies: params.portfolio_copies, call })
}

} // verus!
