//! Parametric distribution families and the enumerations that configure
//! tabulated distributions, with their names.
use vstd::prelude::*;

use crate::text::text_eq;
use crate::error::{CrcError, CrcErrorView};

verus! {

/// Which tail a return period refers to.
#[derive(Debug, Clone, Copy, PartialEq, Eq, Structural)]
pub enum Tail {
    Upper,
    Lower,
}

/// How a tabulated distribution interpolates between its knots.
#[derive(Debug, Clone, Copy, PartialEq, Eq, Structural)]
pub enum Interpolation {
    LinearProbability,
    LogReturnPeriod,
}

/// The name by which a tail is selected.
pub open spec fn tail_name(t: Tail) -> Seq<char> {
    match t {
        Tail::Upper => "upper"@,
        Tail::Lower => "lower"@,
    }
}

/// The name by which an interpolation is selected.
pub open spec fn interpolation_name(i: Interpolation) -> Seq<char> {
    match i {
        Interpolation::LinearProbability => "linear_probability"@,
        Interpolation::LogReturnPeriod => "log_return_period"@,
    }
}

/// The tail named `value` (`upper` or `lower`).
pub fn parse_tail(value: &str) -> (r: Result<Tail, CrcError>)
    ensures
        match r {
            Ok(t) => tail_name(t) == value@,
            Err(e) => value@ != "upper"@ && value@ != "lower"@ && e@ == CrcErrorView::InvalidInput(
                "tail must be 'upper' or 'lower'"@,
            ),
        },
{
    if text_eq(value, "upper") {
        Ok(Tail::Upper)
    } else if text_eq(value, "lower") {
        Ok(Tail::Lower)
    } else {
        Err(CrcError::InvalidInput(String::from_str("tail must be 'upper' or 'lower'")))
    }
}

/// The interpolation named `value` (`linear_probability` or
/// `log_return_period`).
pub fn parse_interpolation(value: &str) -> (r: Result<Interpolation, CrcError>)
    ensures
        match r {
            Ok(i) => interpolation_name(i) == value@,
            Err(e) => value@ != "linear_probability"@ && value@ != "log_return_period"@ && e@
                == CrcErrorView::InvalidInput("unknown interpolation "@ + value@),
        },
{
    if text_eq(value, "linear_probability") {
        Ok(Interpolation::LinearProbability)
    } else if text_eq(value, "log_return_period") {
        Ok(Interpolation::LogReturnPeriod)
    } else {
        let mut m = String::from_str("unknown interpolation ");
        m.append(value);
        Err(CrcError::InvalidInput(m))
    }
}

/// The parametric families that a fitted distribution can belong to.
#[derive(Debug, Clone, Copy, PartialEq, Eq, Structural)]
pub enum DistributionFamily {
    GenExtreme,
    WeibullMin,
    WeibullMax,
    SkewNormal,
    GumbelRight,
    GumbelLeft,
    GenPareto,
}

/// Every family, in the order in which names are matched.
pub open spec fn all_families() -> Seq<DistributionFamily> {
    seq![
        DistributionFamily::GenExtreme,
        DistributionFamily::WeibullMin,
        DistributionFamily::WeibullMax,
        DistributionFamily::SkewNormal,
        DistributionFamily::GumbelRight,
        DistributionFamily::GumbelLeft,
        DistributionFamily::GenPareto,
    ]
}

impl DistributionFamily {
    /// The name of the family, as SciPy spells it.
    pub open spec fn family_name(self) -> Seq<char> {
        match self {
            DistributionFamily::GenExtreme => "genextreme"@,
            DistributionFamily::WeibullMin => "weibull_min"@,
            DistributionFamily::WeibullMax => "weibull_max"@,
            DistributionFamily::SkewNormal => "skewnorm"@,
            DistributionFamily::GumbelRight => "gumbel_r"@,
            DistributionFamily::GumbelLeft => "gumbel_l"@,
            DistributionFamily::GenPareto => "genpareto"@,
        }
    }

    /// Whether a distribution of the family needs a shape parameter.
    pub open spec fn needs_shape(self) -> bool {
        !(self is GumbelRight || self is GumbelLeft)
    }

    /// Every family.
    pub fn all() -> (v: [DistributionFamily; 7])
        ensures
            v@ == all_families(),
    {
        let v = [
            DistributionFamily::GenExtreme,
            DistributionFamily::WeibullMin,
            DistributionFamily::WeibullMax,
            DistributionFamily::SkewNormal,
            DistributionFamily::GumbelRight,
            DistributionFamily::GumbelLeft,
            DistributionFamily::GenPareto,
        ];
        assert(v@ =~= all_families());
        v
    }

    /// The name of the family.
    pub fn name(self) -> (s: &'static str)
        ensures
            s@ == self.family_name(),
    {
        match self {
            DistributionFamily::GenExtreme => "genextreme",
            DistributionFamily::WeibullMin => "weibull_min",
            DistributionFamily::WeibullMax => "weibull_max",
            DistributionFamily::SkewNormal => "skewnorm",
            DistributionFamily::GumbelRight => "gumbel_r",
            DistributionFamily::GumbelLeft => "gumbel_l",
            DistributionFamily::GenPareto => "genpareto",
        }
    }

    /// The family named `name`, if any.
    pub fn from_name(name: &str) -> (r: Option<DistributionFamily>)
        ensures
            match r {
                Some(f) => f.family_name() == name@,
                None => forall|f: DistributionFamily| #[trigger] f.family_name() != name@,
            },
    {
        let families = DistributionFamily::all();
        let mut i: usize = 0;
        while i < families.len()
            invariant
                i <= families@.len(),
                families@ == all_families(),
                forall|j: int| 0 <= j < i ==> (#[trigger] families@[j]).family_name() != name@,
            decreases families@.len() - i,
        {
            let family = families[i];
            if text_eq(family.name(), name) {
                return Some(family);
            }
            i = i + 1;
        }
        assert forall|f: DistributionFamily| #[trigger] f.family_name() != name@ by {
            match f {
                DistributionFamily::GenExtreme => assert(families@[0] == f),
                DistributionFamily::WeibullMin => assert(families@[1] == f),
                DistributionFamily::WeibullMax => assert(families@[2] == f),
                DistributionFamily::SkewNormal => assert(families@[3] == f),
                DistributionFamily::GumbelRight => assert(families@[4] == f),
                DistributionFamily::GumbelLeft => assert(families@[5] == f),
                DistributionFamily::GenPareto => assert(families@[6] == f),
            }
        }
        None
    }

    /// Whether a distribution of the family needs a shape parameter: every
    /// family but the two Gumbel families does.
    pub fn requires_shape(self) -> (r: bool)
        ensures
            r == self.needs_shape(),
    {
        match self {
            DistributionFamily::GumbelRight | DistributionFamily::GumbelLeft => false,
            _ => true,
        }
    }
}

/// No two families share a name, so a family is found again from its name:
/// `from_name(f.name()) == Some(f)`.
pub proof fn law_family_names_distinct(f: DistributionFamily, g: DistributionFamily)
    ensures
        f.family_name() == g.family_name() ==> f == g,
{
    reveal_strlit("genextreme");
    reveal_strlit("weibull_min");
    reveal_strlit("weibull_max");
    reveal_strlit("skewnorm");
    reveal_strlit("gumbel_r");
    reveal_strlit("gumbel_l");
    reveal_strlit("genpareto");
    assert("genextreme"@.len() == 10);
    assert("weibull_min"@.len() == 11);
    assert("weibull_max"@.len() == 11);
    assert("skewnorm"@.len() == 8);
    assert("gumbel_r"@.len() == 8);
    assert("gumbel_l"@.len() == 8);
    assert("genpareto"@.len() == 9);
    assert("genextreme"@ != "weibull_min"@);
    assert("genextreme"@ != "weibull_max"@);
    assert("genextreme"@ != "skewnorm"@);
    assert("genextreme"@ != "gumbel_r"@);
    assert("genextreme"@ != "gumbel_l"@);
    assert("genextreme"@ != "genpareto"@);
    assert("weibull_min"@[9] != "weibull_max"@[9]);
    assert("weibull_min"@ != "weibull_max"@);
    assert("weibull_min"@ != "skewnorm"@);
    assert("weibull_min"@ != "gumbel_r"@);
    assert("weibull_min"@ != "gumbel_l"@);
    assert("weibull_min"@ != "genpareto"@);
    assert("weibull_max"@ != "skewnorm"@);
    assert("weibull_max"@ != "gumbel_r"@);
    assert("weibull_max"@ != "gumbel_l"@);
    assert("weibull_max"@ != "genpareto"@);
    assert("skewnorm"@[0] != "gumbel_r"@[0]);
    assert("skewnorm"@ != "gumbel_r"@);
    assert("skewnorm"@[0] != "gumbel_l"@[0]);
    assert("skewnorm"@ != "gumbel_l"@);
    assert("skewnorm"@ != "genpareto"@);
    assert("gumbel_r"@[7] != "gumbel_l"@[7]);
    assert("gumbel_r"@ != "gumbel_l"@);
    assert("gumbel_r"@ != "genpareto"@);
    assert("gumbel_l"@ != "genpareto"@);
    assert(f.family_name() == g.family_name() ==> f == g) by {
        match f {
            DistributionFamily::GenExtreme => {},
            DistributionFamily::WeibullMin => {},
            DistributionFamily::WeibullMax => {},
            DistributionFamily::SkewNormal => {},
            DistributionFamily::GumbelRight => {},
            DistributionFamily::GumbelLeft => {},
            DistributionFamily::GenPareto => {},
        }
    }
}

} // verus!
