use vstd::prelude::*;
use crate::error::EngineError;

verus! {

/// The five Black-Scholes inputs, one of which a sweep varies.
#[derive(Clone, Copy, Debug, PartialEq, Eq, Structural)]
pub enum SweepParameter {
    Spot,
    Strike,
    Volatility,
    Rate,
    Maturity,
}

impl SweepParameter {
    /// The name by which callers select this input.
    pub open spec fn spec_name(self) -> Seq<char> {
        match self {
            SweepParameter::Spot => "spot"@,
            SweepParameter::Strike => "strike"@,
            SweepParameter::Volatility => "volatility"@,
            SweepParameter::Rate => "rate"@,
            SweepParameter::Maturity => "maturity"@,
        }
    }

    /// Rate and volatility are shown in percentage points; the others in
    /// their own units.
    pub open spec fn spec_is_percent(self) -> bool {
        self is Volatility || self is Rate
    }

    pub fn name(&self) -> (r: &'static str)
        ensures
            r@ == self.spec_name(),
    {
        proof {
            reveal_strlit("spot");
            reveal_strlit("strike");
            reveal_strlit("volatility");
            reveal_strlit("rate");
            reveal_strlit("maturity");
        }
        match self {
            SweepParameter::Spot => "spot",
            SweepParameter::Strike => "strike",
            SweepParameter::Volatility => "volatility",
            SweepParameter::Rate => "rate",
            SweepParameter::Maturity => "maturity",
        }
    }

    pub fn is_percent(&self) -> (r: bool)
        ensures
            r == self.spec_is_percent(),
    {
        match self {
            SweepParameter::Volatility | SweepParameter::Rate => true,
            _ => false,
        }
    }

    /// Selects the input whose name is `name`; any other name is rejected
    /// with an error that carries it.
    pub fn from_name(name: &str) -> (r: Result<SweepParameter, EngineError>)
        ensures
            match r {
                Ok(p) => p.spec_name() == name@,
                Err(e) => {
                    &&& forall|p: SweepParameter| p.spec_name() != name@
                    &&& e matches EngineError::InvalidParameter(s) && s@ == name@
                },
            },
    {
        let given = name.to_owned();
        let all = [
            SweepParameter::Spot,
            SweepParameter::Strike,
            SweepParameter::Volatility,
            SweepParameter::Rate,
            SweepParameter::Maturity,
        ];
        let mut i: usize = 0;
        while i < 5
            invariant
                0 <= i <= 5,
                given@ == name@,
                all@ == seq![
                    SweepParameter::Spot,
                    SweepParameter::Strike,
                    SweepParameter::Volatility,
                    SweepParameter::Rate,
                    SweepParameter::Maturity,
                ],
                forall|j: int| 0 <= j < i ==> all@[j].spec_name() != name@,
            decreases 5 - i,
        {
            let p = all[i];
            if given == p.name().to_owned() {
                return Ok(p);
            }
            i = i + 1;
        }
        assert forall|p: SweepParameter| p.spec_name() != name@ by {
            match p {
                SweepParameter::Spot => assert(all@[0] == p),
                SweepParameter::Strike => assert(all@[1] == p),
                SweepParameter::Volatility => assert(all@[2] == p),
                SweepParameter::Rate => assert(all@[3] == p),
                SweepParameter::Maturity => assert(all@[4] == p),
            }
        }
        Err(EngineError::InvalidParameter(given))
    }
}

/// Distinct inputs have distinct names, so a name selects at most one input
/// and `from_name(p.name())` gives back `p`.
pub proof fn lemma_names_distinct(p: SweepParameter, q: SweepParameter)
    ensures
        p.spec_name() == q.spec_name() ==> p == q,
{
    reveal_strlit("spot");
    reveal_strlit("strike");
    reveal_strlit("volatility");
    reveal_strlit("rate");
    reveal_strlit("maturity");
    if p != q {
        let a = p.spec_name();
        let b = q.spec_name();
        if a.len() == b.len() {
            assert(a[0] != b[0] || a[1] != b[1]);
        }
    }
}

/// One value of each Black-Scholes input: `spot`, `strike`, `volatility` and
/// `time_to_maturity` must be strictly positive, `rate` may be any value.
#[derive(Clone, Copy, Debug)]
pub struct MarketInputs<T> {
    pub spot: T,
    pub strike: T,
    pub rate: T,
    pub volatility: T,
    pub time_to_maturity: T,
}

impl<T> MarketInputs<T> {
    /// The value of the input that `p` selects.
    pub open spec fn spec_get(self, p: SweepParameter) -> T {
        match p {
            SweepParameter::Spot => self.spot,
            SweepParameter::Strike => self.strike,
            SweepParameter::Volatility => self.volatility,
            SweepParameter::Rate => self.rate,
            SweepParameter::Maturity => self.time_to_maturity,
        }
    }

    /// The inputs with the one that `p` selects replaced by `x`.
    pub open spec fn spec_with(self, p: SweepParameter, x: T) -> Self {
        match p {
            SweepParameter::Spot => MarketInputs { spot: x, ..self },
            SweepParameter::Strike => MarketInputs { strike: x, ..self },
            SweepParameter::Volatility => MarketInputs { volatility: x, ..self },
            SweepParameter::Rate => MarketInputs { rate: x, ..self },
            SweepParameter::Maturity => MarketInputs { time_to_maturity: x, ..self },
        }
    }

    /// Inputs that the model requires to be strictly positive.
    pub open spec fn must_be_positive(p: SweepParameter) -> bool {
        !(p is Rate)
    }

    /// Position of an input in the order in which `check_domain` tests them.
    pub open spec fn check_rank(p: SweepParameter) -> int {
        match p {
            SweepParameter::Spot => 0,
            SweepParameter::Strike => 1,
            SweepParameter::Volatility => 2,
            SweepParameter::Maturity => 3,
            SweepParameter::Rate => 4,
        }
    }

    pub fn get(&self, p: SweepParameter) -> (r: T)
        where
            T: Copy,
        ensures
            r == self.spec_get(p),
    {
        match p {
            SweepParameter::Spot => self.spot,
            SweepParameter::Strike => self.strike,
            SweepParameter::Volatility => self.volatility,
            SweepParameter::Rate => self.rate,
            SweepParameter::Maturity => self.time_to_maturity,
        }
    }

    pub fn with_value(&self, p: SweepParameter, x: T) -> (r: Self)
        where
            T: Copy,
        ensures
            r == self.spec_with(p, x),
            r.spec_get(p) == x,
            forall|q: SweepParameter| q != p ==> r.spec_get(q) == self.spec_get(q),
    {
        let mut r = *self;
        match p {
            SweepParameter::Spot => r.spot = x,
            SweepParameter::Strike => r.strike = x,
            SweepParameter::Volatility => r.volatility = x,
            SweepParameter::Rate => r.rate = x,
            SweepParameter::Maturity => r.time_to_maturity = x,
        }
        r
    }

    /// Tests, in the order spot, strike, volatility, maturity, that each input
    /// which must be positive is so by `is_positive`, and names the first
    /// that is not.
    pub fn check_domain<F: Fn(T) -> bool>(&self, is_positive: F) -> (r: Result<(), EngineError>)
        where
            T: Copy,
        requires
            forall|x: T| call_requires(is_positive, (x,)),
        ensures
            r is Ok ==> forall|q: SweepParameter| Self::must_be_positive(q) ==> call_ensures(
                is_positive,
                (self.spec_get(q),),
                true,
            ),
            match r {
                Ok(_) => true,
                Err(e) => e matches EngineError::InvalidDomain(q) && {
                    &&& Self::must_be_positive(q)
                    &&& call_ensures(is_positive, (self.spec_get(q),), false)
                    &&& forall|a: SweepParameter|
                        Self::must_be_positive(a) && #[trigger] Self::check_rank(a) < Self::check_rank(q)
                            ==> call_ensures(is_positive, (self.spec_get(a),), true)
                },
            },
    {
        let order = [
            SweepParameter::Spot,
            SweepParameter::Strike,
            SweepParameter::Volatility,
            SweepParameter::Maturity,
        ];
        let mut i: usize = 0;
        while i < 4
            invariant
                0 <= i <= 4,
                forall|x: T| call_requires(is_positive, (x,)),
                order@ == seq![
                    SweepParameter::Spot,
                    SweepParameter::Strike,
                    SweepParameter::Volatility,
                    SweepParameter::Maturity,
                ],
                forall|j: int| 0 <= j < i ==> call_ensures(
                    is_positive,
                    (self.spec_get(order@[j]),),
                    true,
                ),
            decreases 4 - i,
        {
            let q = order[i];
            let ok = is_positive(self.get(q));
            if !ok {
                assert forall|a: SweepParameter|
                    Self::must_be_positive(a) && #[trigger] Self::check_rank(a) < Self::check_rank(q)
                        implies call_ensures(is_positive, (self.spec_get(a),), true) by {
                    assert(order@[Self::check_rank(a)] == a);
                }
                return Err(EngineError::InvalidDomain(q));
            }
            i = i + 1;
        }
        assert forall|q: SweepParameter| Self::must_be_positive(q) implies call_ensures(
            is_positive,
            (self.spec_get(q),),
            true,
        ) by {
            match q {
                SweepParameter::Spot => assert(order@[0] == q),
                SweepParameter::Strike => assert(order@[1] == q),
                SweepParameter::Volatility => assert(order@[2] == q),
                SweepParameter::Rate => {},
                SweepParameter::Maturity => assert(order@[3] == q),
            }
        }
        Ok(())
    }
}

} // verus!
