use vstd::prelude::*;
use crate::error::{check_sampling, EngineError};
use crate::inputs::{MarketInputs, SweepParameter};

verus! {

/// Theoretical prices of a European call and put.
#[derive(Clone, Copy, Debug)]
pub struct OptionPrices<T> {
    pub call_price: T,
    pub put_price: T,
}

/// Sensitivities of the option prices: theta per calendar day, vega per
/// percentage point of volatility, rho per percentage point of rate.
#[derive(Clone, Copy, Debug)]
pub struct Greeks<T> {
    pub delta_call: T,
    pub delta_put: T,
    pub gamma: T,
    pub theta_call: T,
    pub theta_put: T,
    pub vega: T,
    pub rho_call: T,
    pub rho_put: T,
}

/// Prices and Greeks along a sweep of one input, one index per sample.
#[derive(Debug)]
pub struct ParameterSweepResult<T> {
    pub x_values: Vec<T>,
    pub call_prices: Vec<T>,
    pub put_prices: Vec<T>,
    pub delta_calls: Vec<T>,
    pub delta_puts: Vec<T>,
    pub gammas: Vec<T>,
    pub theta_calls: Vec<T>,
    pub theta_puts: Vec<T>,
    pub vegas: Vec<T>,
    pub rho_calls: Vec<T>,
    pub rho_puts: Vec<T>,
}

impl<T> ParameterSweepResult<T> {
    /// Number of samples.
    pub open spec fn spec_len(&self) -> nat {
        self.x_values@.len()
    }

    /// Every column has one entry per sample.
    pub open spec fn wf(&self) -> bool {
        let n = self.x_values@.len();
        &&& self.call_prices@.len() == n
        &&& self.put_prices@.len() == n
        &&& self.delta_calls@.len() == n
        &&& self.delta_puts@.len() == n
        &&& self.gammas@.len() == n
        &&& self.theta_calls@.len() == n
        &&& self.theta_puts@.len() == n
        &&& self.vegas@.len() == n
        &&& self.rho_calls@.len() == n
        &&& self.rho_puts@.len() == n
    }

    pub open spec fn prices_at(&self, i: int) -> OptionPrices<T> {
        OptionPrices { call_price: self.call_prices@[i], put_price: self.put_prices@[i] }
    }

    pub open spec fn greeks_at(&self, i: int) -> Greeks<T> {
        Greeks {
            delta_call: self.delta_calls@[i],
            delta_put: self.delta_puts@[i],
            gamma: self.gammas@[i],
            theta_call: self.theta_calls@[i],
            theta_put: self.theta_puts@[i],
            vega: self.vegas@[i],
            rho_call: self.rho_calls@[i],
            rho_put: self.rho_puts@[i],
        }
    }

    /// A sweep with no samples yet.
    pub fn new() -> (r: Self)
        ensures
            r.wf(),
            r.spec_len() == 0,
    {
        ParameterSweepResult {
            x_values: Vec::new(),
            call_prices: Vec::new(),
            put_prices: Vec::new(),
            delta_calls: Vec::new(),
            delta_puts: Vec::new(),
            gammas: Vec::new(),
            theta_calls: Vec::new(),
            theta_puts: Vec::new(),
            vegas: Vec::new(),
            rho_calls: Vec::new(),
            rho_puts: Vec::new(),
        }
    }

    /// Appends one sample with its prices and Greeks after the others.
    pub fn push_point(&mut self, x: T, prices: OptionPrices<T>, greeks: Greeks<T>)
        requires
            old(self).wf(),
        ensures
            final(self).wf(),
            final(self).spec_len() == old(self).spec_len() + 1,
            final(self).x_values@ == old(self).x_values@.push(x),
            forall|i: int|
                0 <= i < old(self).spec_len() ==> {
                    &&& #[trigger] final(self).prices_at(i) == old(self).prices_at(i)
                    &&& final(self).greeks_at(i) == old(self).greeks_at(i)
                },
            final(self).prices_at(old(self).spec_len() as int) == prices,
            final(self).greeks_at(old(self).spec_len() as int) == greeks,
    {
        self.x_values.push(x);
        self.call_prices.push(prices.call_price);
        self.put_prices.push(prices.put_price);
        self.delta_calls.push(greeks.delta_call);
        self.delta_puts.push(greeks.delta_put);
        self.gammas.push(greeks.gamma);
        self.theta_calls.push(greeks.theta_call);
        self.theta_puts.push(greeks.theta_put);
        self.vegas.push(greeks.vega);
        self.rho_calls.push(greeks.rho_call);
        self.rho_puts.push(greeks.rho_put);
    }
}

/// `r` holds, at each index `i`, the evaluation of `base` with the input
/// `param` set to `samples[i]`, and shows that sample as `to_percent` makes
/// it for inputs quoted in percent, unchanged for the others.
pub open spec fn sweep_matches<T, E: Fn(MarketInputs<T>) -> (OptionPrices<T>, Greeks<T>), D: Fn(T) -> T>(
    r: ParameterSweepResult<T>,
    base: MarketInputs<T>,
    param: SweepParameter,
    samples: Seq<T>,
    evaluate: E,
    to_percent: D,
) -> bool {
    &&& r.wf()
    &&& r.spec_len() == samples.len()
    &&& forall|i: int|
        0 <= i < samples.len() ==> #[trigger] call_ensures(
            evaluate,
            (base.spec_with(param, samples[i]),),
            (r.prices_at(i), r.greeks_at(i)),
        )
    &&& forall|i: int|
        0 <= i < samples.len() ==> #[trigger] shown_as(
            param.spec_is_percent(),
            to_percent,
            samples[i],
            r.x_values@[i],
        )
}

/// `y` is how the sample `x` is shown: as `to_percent` makes it when
/// `percent` holds, else unchanged.
pub open spec fn shown_as<T, D: Fn(T) -> T>(percent: bool, to_percent: D, x: T, y: T) -> bool {
    if percent {
        call_ensures(to_percent, (x,), y)
    } else {
        y == x
    }
}

/// Evaluates `base` at each of `samples` for the input `param`, in order.
/// Fewer than two samples cannot span a range and are rejected.
pub fn run_sweep<T: Copy, E: Fn(MarketInputs<T>) -> (OptionPrices<T>, Greeks<T>), D: Fn(T) -> T>(
    base: &MarketInputs<T>,
    param: SweepParameter,
    samples: &Vec<T>,
    evaluate: E,
    to_percent: D,
) -> (r: Result<ParameterSweepResult<T>, EngineError>)
    requires
        forall|m: MarketInputs<T>| call_requires(evaluate, (m,)),
        forall|x: T| call_requires(to_percent, (x,)),
    ensures
        r is Ok <==> samples@.len() >= 2,
        match r {
            Ok(res) => sweep_matches(res, *base, param, samples@, evaluate, to_percent),
            Err(e) => e == EngineError::DegenerateSampling(samples@.len() as usize),
        },
{
    match check_sampling(samples.len()) {
        Err(e) => {
            return Err(e);
        },
        Ok(()) => {},
    }
    let percent = param.is_percent();
    let mut res = ParameterSweepResult::new();
    let mut i: usize = 0;
    while i < samples.len()
        invariant
            0 <= i <= samples@.len(),
            percent == param.spec_is_percent(),
            forall|m: MarketInputs<T>| call_requires(evaluate, (m,)),
            forall|x: T| call_requires(to_percent, (x,)),
            res.wf(),
            res.spec_len() == i,
            forall|j: int|
                0 <= j < i ==> #[trigger] call_ensures(
                    evaluate,
                    (base.spec_with(param, samples@[j]),),
                    (res.prices_at(j), res.greeks_at(j)),
                ),
            forall|j: int|
                0 <= j < i ==> #[trigger] shown_as(
                    percent,
                    to_percent,
                    samples@[j],
                    res.x_values@[j],
                ),
        decreases samples@.len() - i,
    {
        let x = samples[i];
        let inputs = base.with_value(param, x);
        let (prices, greeks) = evaluate(inputs);
        let shown = if percent {
            to_percent(x)
        } else {
            x
        };
        let ghost before = res;
        res.push_point(shown, prices, greeks);
        assert(shown_as(percent, to_percent, samples@[i as int], res.x_values@[i as int]));
        assert forall|j: int| 0 <= j < i implies #[trigger] shown_as(
            percent,
            to_percent,
            samples@[j],
            res.x_values@[j],
        ) by {
            assert(shown_as(percent, to_percent, samples@[j], before.x_values@[j]));
        }
        i = i + 1;
    }
    Ok(res)
}

/// The first entry of a sweep is the evaluation at its first sample, the
/// lowest value of the range, and the last entry the evaluation at its last
/// sample, the highest.
pub proof fn lemma_sweep_endpoints<T, E: Fn(MarketInputs<T>) -> (OptionPrices<T>, Greeks<T>), D: Fn(T) -> T>(
    r: ParameterSweepResult<T>,
    base: MarketInputs<T>,
    param: SweepParameter,
    samples: Seq<T>,
    evaluate: E,
    to_percent: D,
)
    requires
        sweep_matches(r, base, param, samples, evaluate, to_percent),
        samples.len() >= 2,
    ensures
        call_ensures(evaluate, (base.spec_with(param, samples[0]),), (r.prices_at(0), r.greeks_at(0))),
        call_ensures(
            evaluate,
            (base.spec_with(param, samples.last()),),
            (r.prices_at(samples.len() - 1), r.greeks_at(samples.len() - 1)),
        ),
{
    let last = samples.len() - 1;
    assert(call_ensures(evaluate, (base.spec_with(param, samples[last]),), (r.prices_at(last), r.greeks_at(last))));
}

} // verus!
