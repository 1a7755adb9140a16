use crc_framework::curve_fitting::caps_at_year_length;
use crc_framework::curve_fitting::{candidate_kinds, DistributionKind};
use crc_framework::distribution::{
    parse_interpolation, parse_tail, DistributionFamily, Interpolation, Tail,
};

#[test]
fn family_names_round_trip() {
    let families = DistributionFamily::all();
    assert_eq!(families.len(), 7);
    for family in families {
        assert_eq!(DistributionFamily::from_name(family.name()), Some(family));
    }
    assert_eq!(DistributionFamily::GenExtreme.name(), "genextreme");
    assert_eq!(DistributionFamily::SkewNormal.name(), "skewnorm");
    assert_eq!(DistributionFamily::GumbelLeft.name(), "gumbel_l");
    assert_eq!(DistributionFamily::from_name("gumbel"), None);
    assert_eq!(DistributionFamily::from_name("Gumbel_r"), None);
    assert_eq!(DistributionFamily::from_name(""), None);
}

#[test]
fn only_gumbel_families_lack_a_shape() {
    assert!(!DistributionFamily::GumbelRight.requires_shape());
    assert!(!DistributionFamily::GumbelLeft.requires_shape());
    assert!(DistributionFamily::GenExtreme.requires_shape());
    assert!(DistributionFamily::WeibullMin.requires_shape());
    assert!(DistributionFamily::WeibullMax.requires_shape());
    assert!(DistributionFamily::SkewNormal.requires_shape());
    assert!(DistributionFamily::GenPareto.requires_shape());
}

#[test]
fn candidate_kinds_are_listed_under_their_names() {
    let candidates = candidate_kinds();
    let names: Vec<&str> = candidates.iter().map(|(name, _)| *name).collect();
    assert_eq!(
        names,
        vec![
            "genextreme",
            "weibull_min",
            "weibull_max",
            "skewnorm",
            "gumbel_r",
            "gumbel_l",
            "genpareto"
        ]
    );
    for (name, kind) in candidates {
        assert_eq!(DistributionKind::from_name(name), Some(kind));
        assert!(DistributionFamily::from_name(name).is_some());
    }
    assert_eq!(DistributionKind::from_name("normal"), None);
    assert_eq!(
        DistributionKind::from_name("skewnorm"),
        Some(DistributionKind::SkewNorm)
    );
}

#[test]
fn tails_and_interpolations_parse_by_name() {
    assert_eq!(parse_tail("upper").unwrap(), Tail::Upper);
    assert_eq!(parse_tail("lower").unwrap(), Tail::Lower);
    assert_eq!(
        parse_tail("both").unwrap_err().message(),
        "invalid input: tail must be 'upper' or 'lower'"
    );
    assert_eq!(
        parse_interpolation("linear_probability").unwrap(),
        Interpolation::LinearProbability
    );
    assert_eq!(
        parse_interpolation("log_return_period").unwrap(),
        Interpolation::LogReturnPeriod
    );
    assert_eq!(
        parse_interpolation("cubic").unwrap_err().message(),
        "invalid input: unknown interpolation cubic"
    );
}

#[test]
fn day_counted_indices_are_capped() {
    assert!(caps_at_year_length("frost_days"));
    assert!(caps_at_year_length("daily_freezethaw_cycles"));
    assert!(caps_at_year_length("hot_days"));
    assert!(!caps_at_year_length("rx1day"));
    assert!(!caps_at_year_length("dlyfrzthw"));
}
