use vstd::prelude::*;
use crate::error::{check_sampling, EngineError};

verus! {

/// Terminal stock prices under the risk-neutral measure, each with its
/// density and the payoffs of a call and a put, index-aligned.
#[derive(Debug)]
pub struct DistributionData<T> {
    pub stock_prices: Vec<T>,
    pub probabilities: Vec<T>,
    pub call_payoffs: Vec<T>,
    pub put_payoffs: Vec<T>,
    pub expected_stock_price: T,
    pub strike_price: T,
}

impl<T> DistributionData<T> {
    /// Number of sampled prices.
    pub open spec fn spec_len(&self) -> nat {
        self.stock_prices@.len()
    }

    /// Every column has one entry per sampled price.
    pub open spec fn wf(&self) -> bool {
        &&& self.probabilities@.len() == self.stock_prices@.len()
        &&& self.call_payoffs@.len() == self.stock_prices@.len()
        &&& self.put_payoffs@.len() == self.stock_prices@.len()
    }
}

/// `d` tabulates, at each of `prices`, the density that `density` gives and
/// the payoffs `excess(s, strike)` of the call and `excess(strike, s)` of the
/// put, and echoes `strike` and `expected`.
pub open spec fn distribution_matches<T, P: Fn(T) -> T, X: Fn(T, T) -> T>(
    d: DistributionData<T>,
    strike: T,
    expected: T,
    prices: Seq<T>,
    density: P,
    excess: X,
) -> bool {
    &&& d.wf()
    &&& d.stock_prices@ == prices
    &&& d.strike_price == strike
    &&& d.expected_stock_price == expected
    &&& forall|i: int|
        0 <= i < prices.len() ==> #[trigger] call_ensures(density, (prices[i],), d.probabilities@[i])
    &&& forall|i: int|
        0 <= i < prices.len() ==> #[trigger] call_ensures(excess, (prices[i], strike), d.call_payoffs@[i])
    &&& forall|i: int|
        0 <= i < prices.len() ==> #[trigger] call_ensures(excess, (strike, prices[i]), d.put_payoffs@[i])
}

/// Tabulates the density and the option payoffs at each of `prices`, in
/// order. Fewer than two prices cannot span a range and are rejected.
pub fn run_distribution<T: Copy, P: Fn(T) -> T, X: Fn(T, T) -> T>(
    strike: T,
    expected: T,
    prices: &Vec<T>,
    density: P,
    excess: X,
) -> (r: Result<DistributionData<T>, EngineError>)
    requires
        forall|s: T| call_requires(density, (s,)),
        forall|a: T, b: T| call_requires(excess, (a, b)),
    ensures
        r is Ok <==> prices@.len() >= 2,
        match r {
            Ok(d) => distribution_matches(d, strike, expected, prices@, density, excess),
            Err(e) => e == EngineError::DegenerateSampling(prices@.len() as usize),
        },
{
    match check_sampling(prices.len()) {
        Err(e) => {
            return Err(e);
        },
        Ok(()) => {},
    }
    let n = prices.len();
    let mut stock_prices: Vec<T> = Vec::with_capacity(n);
    let mut probabilities: Vec<T> = Vec::with_capacity(n);
    let mut call_payoffs: Vec<T> = Vec::with_capacity(n);
    let mut put_payoffs: Vec<T> = Vec::with_capacity(n);
    let mut i: usize = 0;
    while i < n
        invariant
            n == prices@.len(),
            0 <= i <= n,
            forall|s: T| call_requires(density, (s,)),
            forall|a: T, b: T| call_requires(excess, (a, b)),
            stock_prices@ == prices@.subrange(0, i as int),
            probabilities@.len() == i,
            call_payoffs@.len() == i,
            put_payoffs@.len() == i,
            forall|j: int|
                0 <= j < i ==> #[trigger] call_ensures(density, (prices@[j],), probabilities@[j]),
            forall|j: int|
                0 <= j < i ==> #[trigger] call_ensures(excess, (prices@[j], strike), call_payoffs@[j]),
            forall|j: int|
                0 <= j < i ==> #[trigger] call_ensures(excess, (strike, prices@[j]), put_payoffs@[j]),
        decreases n - i,
    {
        let s = prices[i];
        stock_prices.push(s);
        probabilities.push(density(s));
        call_payoffs.push(excess(s, strike));
        put_payoffs.push(excess(strike, s));
        assert(stock_prices@ == prices@.subrange(0, i + 1));
        i = i + 1;
    }
    assert(stock_prices@ == prices@);
    Ok(DistributionData {
        stock_prices,
        probabilities,
        call_payoffs,
        put_payoffs,
        expected_stock_price: expected,
        strike_price: strike,
    })
}

} // verus!
