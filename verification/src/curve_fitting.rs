//! The registry of distribution kinds among which sample fitting chooses.
use vstd::prelude::*;

use crate::text::text_eq;
use crate::distribution::DistributionFamily;

verus! {

/// The distribution kinds that sample fitting tries.
#[derive(Debug, Clone, Copy, PartialEq, Eq, Hash, Structural)]
pub enum DistributionKind {
    GenExtreme,
    WeibullMin,
    WeibullMax,
    SkewNorm,
    GumbelR,
    GumbelL,
    GenPareto,
}

impl DistributionKind {
    /// The name of the kind.
    pub open spec fn kind_name(self) -> Seq<char> {
        match self {
            DistributionKind::GenExtreme => "genextreme"@,
            DistributionKind::WeibullMin => "weibull_min"@,
            DistributionKind::WeibullMax => "weibull_max"@,
            DistributionKind::SkewNorm => "skewnorm"@,
            DistributionKind::GumbelR => "gumbel_r"@,
            DistributionKind::GumbelL => "gumbel_l"@,
            DistributionKind::GenPareto => "genpareto"@,
        }
    }

    /// The kind named `name`, if any.
    pub fn from_name(name: &str) -> (r: Option<DistributionKind>)
        ensures
            match r {
                Some(k) => k.kind_name() == name@,
                None => forall|k: DistributionKind| #[trigger] k.kind_name() != name@,
            },
    {
        let r = if text_eq(name, "genextreme") {
            Some(DistributionKind::GenExtreme)
        } else if text_eq(name, "weibull_min") {
            Some(DistributionKind::WeibullMin)
        } else if text_eq(name, "weibull_max") {
            Some(DistributionKind::WeibullMax)
        } else if text_eq(name, "skewnorm") {
            Some(DistributionKind::SkewNorm)
        } else if text_eq(name, "gumbel_r") {
            Some(DistributionKind::GumbelR)
        } else if text_eq(name, "gumbel_l") {
            Some(DistributionKind::GumbelL)
        } else if text_eq(name, "genpareto") {
            Some(DistributionKind::GenPareto)
        } else {
            None
        };
        proof {
            if r is None {
                assert forall|k: DistributionKind| #[trigger] k.kind_name() != name@ by {
                    match k {
                        DistributionKind::GenExtreme => {},
                        DistributionKind::WeibullMin => {},
                        DistributionKind::WeibullMax => {},
                        DistributionKind::SkewNorm => {},
                        DistributionKind::GumbelR => {},
                        DistributionKind::GumbelL => {},
                        DistributionKind::GenPareto => {},
                    }
                }
            }
        }
        r
    }
}

/// The candidates of sample fitting, in the order in which they are tried.
pub open spec fn candidate_table() -> Seq<(Seq<char>, DistributionKind)> {
    seq![
        ("genextreme"@, DistributionKind::GenExtreme),
        ("weibull_min"@, DistributionKind::WeibullMin),
        ("weibull_max"@, DistributionKind::WeibullMax),
        ("skewnorm"@, DistributionKind::SkewNorm),
        ("gumbel_r"@, DistributionKind::GumbelR),
        ("gumbel_l"@, DistributionKind::GumbelL),
        ("genpareto"@, DistributionKind::GenPareto),
    ]
}

/// The candidates of sample fitting with their names, in the order in which
/// they are tried.
pub fn candidate_kinds() -> (v: [(&'static str, DistributionKind); 7])
    ensures
        v@.map_values(|c: (&'static str, DistributionKind)| (c.0@, c.1)) == candidate_table(),
{
    let v = [
        ("genextreme", DistributionKind::GenExtreme),
        ("weibull_min", DistributionKind::WeibullMin),
        ("weibull_max", DistributionKind::WeibullMax),
        ("skewnorm", DistributionKind::SkewNorm),
        ("gumbel_r", DistributionKind::GumbelR),
        ("gumbel_l", DistributionKind::GumbelL),
        ("genpareto", DistributionKind::GenPareto),
    ];
    assert(v@.map_values(|c: (&'static str, DistributionKind)| (c.0@, c.1)) =~= candidate_table());
    v
}

/// Every candidate is listed under its own name, every kind is a candidate,
/// and each candidate's name is also the name of a distribution family (and
/// each family's name that of a candidate).
pub proof fn law_candidates_cover_kinds_and_families(i: int, k: DistributionKind, f: DistributionFamily)
    ensures
        0 <= i < candidate_table().len() ==> candidate_table()[i].1.kind_name()
            == candidate_table()[i].0,
        exists|j: int| 0 <= j < candidate_table().len() && #[trigger] candidate_table()[j].1 == k,
        exists|g: DistributionFamily| #[trigger] g.family_name() == k.kind_name(),
        exists|h: DistributionKind| #[trigger] h.kind_name() == f.family_name(),
{
    let t = candidate_table();
    match k {
        DistributionKind::GenExtreme => {
            assert(t[0].1 == k);
            assert(DistributionFamily::GenExtreme.family_name() == k.kind_name());
        },
        DistributionKind::WeibullMin => {
            assert(t[1].1 == k);
            assert(DistributionFamily::WeibullMin.family_name() == k.kind_name());
        },
        DistributionKind::WeibullMax => {
            assert(t[2].1 == k);
            assert(DistributionFamily::WeibullMax.family_name() == k.kind_name());
        },
        DistributionKind::SkewNorm => {
            assert(t[3].1 == k);
            assert(DistributionFamily::SkewNormal.family_name() == k.kind_name());
        },
        DistributionKind::GumbelR => {
            assert(t[4].1 == k);
            assert(DistributionFamily::GumbelRight.family_name() == k.kind_name());
        },
        DistributionKind::GumbelL => {
            assert(t[5].1 == k);
            assert(DistributionFamily::GumbelLeft.family_name() == k.kind_name());
        },
        DistributionKind::GenPareto => {
            assert(t[6].1 == k);
            assert(DistributionFamily::GenPareto.family_name() == k.kind_name());
        },
    }
    match f {
        DistributionFamily::GenExtreme => assert(DistributionKind::GenExtreme.kind_name() == f.family_name()),
        DistributionFamily::WeibullMin => assert(DistributionKind::WeibullMin.kind_name() == f.family_name()),
        DistributionFamily::WeibullMax => assert(DistributionKind::WeibullMax.kind_name() == f.family_name()),
        DistributionFamily::SkewNormal => assert(DistributionKind::SkewNorm.kind_name() == f.family_name()),
        DistributionFamily::GumbelRight => assert(DistributionKind::GumbelR.kind_name() == f.family_name()),
        DistributionFamily::GumbelLeft => assert(DistributionKind::GumbelL.kind_name() == f.family_name()),
        DistributionFamily::GenPareto => assert(DistributionKind::GenPareto.kind_name() == f.family_name()),
    }
}

/// Whether the values of the climate index `index_name` count days of a
/// year, so that generated quantiles are capped at 365.
pub open spec fn is_day_count_index(index_name: Seq<char>) -> bool {
    index_name == "frost_days"@ || index_name == "daily_freezethaw_cycles"@ || index_name
        == "hot_days"@
}

/// Whether quantiles of the index `index_name` are capped at 365 days.
pub fn caps_at_year_length(index_name: &str) -> (r: bool)
    ensures
        r == is_day_count_index(index_name@),
{
    text_eq(index_name, "frost_days") || text_eq(index_name, "daily_freezethaw_cycles")
        || text_eq(index_name, "hot_days")
}

} // verus!
