use crc_framework::constants::{
    horizons, pathway_id, pathway_name, pathways, risk_factor_id, risk_factor_name, risk_factors,
    validate_horizon,
};

#[test]
fn pathway_names_follow_the_table() {
    assert_eq!(pathway_name(1).unwrap(), "SV");
    assert_eq!(pathway_name(3).unwrap(), "Paris");
    assert_eq!(pathway_name(9).unwrap(), "<2 degrees");
    assert_eq!(pathway_name(16).unwrap(), "ssp460");
}

#[test]
fn unknown_pathway_id_is_invalid_input() {
    let error = pathway_name(0).unwrap_err();
    assert_eq!(error.message(), "invalid input: unknown pathway id 0");
    let error = pathway_name(-17).unwrap_err();
    assert_eq!(error.message(), "invalid input: unknown pathway id -17");
    assert!(pathway_name(17).is_err());
}

#[test]
fn pathway_ids_follow_the_table() {
    assert_eq!(pathway_id("Hot House").unwrap(), 2);
    assert_eq!(pathway_id("ssp585").unwrap(), 8);
    assert_eq!(pathway_id("historic").unwrap(), 13);
    let error = pathway_id("ssp999").unwrap_err();
    assert_eq!(error.message(), "invalid input: unknown pathway name ssp999");
    assert!(pathway_id("paris").is_err());
}

#[test]
fn every_pathway_round_trips() {
    let table = pathways();
    assert_eq!(table.len(), 16);
    for (id, name) in table {
        assert_eq!(pathway_name(id).unwrap(), name);
        assert_eq!(pathway_id(name).unwrap(), id);
    }
}

#[test]
fn risk_factor_names_follow_the_table() {
    assert_eq!(risk_factor_name(1).unwrap(), "daily_freezethaw_cycles");
    assert_eq!(risk_factor_name(4).unwrap(), "fwi");
    assert_eq!(risk_factor_name(66).unwrap(), "dtr");
    let error = risk_factor_name(36).unwrap_err();
    assert_eq!(error.message(), "invalid input: unknown risk factor id 36");
    assert!(risk_factor_name(59).is_err());
    assert!(risk_factor_name(67).is_err());
}

#[test]
fn risk_factor_aliases_resolve_to_canonical_factors() {
    assert_eq!(risk_factor_id("dlyfrzthw").unwrap(), 1);
    assert_eq!(risk_factor_id("cflood_rp50").unwrap(), 9);
    assert_eq!(risk_factor_id("rflood_rp50").unwrap(), 10);
    assert_eq!(risk_factor_id("slr").unwrap(), 11);
    assert_eq!(risk_factor_id("inundation").unwrap(), 11);
    assert_eq!(
        risk_factor_name(risk_factor_id("slr").unwrap()).unwrap(),
        "inundation"
    );
}

#[test]
fn unknown_risk_factor_name_reports_the_given_name() {
    let error = risk_factor_id("hail").unwrap_err();
    assert_eq!(error.message(), "invalid input: unknown risk factor name hail");
}

#[test]
fn every_risk_factor_round_trips() {
    let table = risk_factors();
    assert_eq!(table.len(), 64);
    for (id, name) in table {
        assert_eq!(risk_factor_name(id).unwrap(), name);
        assert_eq!(risk_factor_id(name).unwrap(), id);
    }
}

#[test]
fn horizons_are_validated_against_the_table() {
    let table = horizons();
    assert_eq!(table.len(), 17);
    assert_eq!(table[0], 2010);
    assert_eq!(table[16], 2100);
    for horizon in table {
        assert_eq!(validate_horizon(horizon).unwrap(), horizon);
    }
    assert_eq!(validate_horizon(2050).unwrap(), 2050);
    let error = validate_horizon(2051).unwrap_err();
    assert_eq!(error.message(), "invalid input: unsupported horizon 2051");
    assert!(validate_horizon(2020).is_err());
    assert!(validate_horizon(-2050).is_err());
}
