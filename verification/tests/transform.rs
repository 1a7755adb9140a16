use crc_framework::metrics::ScenarioMetadata;
use crc_framework::transform::{
    building_type_to_curve, continent_to_flood_region, BaselineFactor, BuildingCurve, FloodRegion,
    ImpactContext, ImpactPlan, ImpactRegistry, ThresholdFactor, WindFactor,
};

fn context(factor: &str) -> ImpactContext {
    ImpactContext {
        factor: factor.to_string(),
        cell: None,
        country: None,
        continent: None,
        building_type: None,
        has_historic_mean: false,
    }
}

fn message(context: &ImpactContext) -> String {
    ImpactRegistry::resolve_plan(context).unwrap_err().message()
}

#[test]
fn fire_weather_and_hot_days_need_no_context() {
    assert!(matches!(
        ImpactRegistry::resolve_plan(&context("fwi")).unwrap(),
        ImpactPlan::FireWeather
    ));
    assert!(matches!(
        ImpactRegistry::resolve_plan(&context("hot_days")).unwrap(),
        ImpactPlan::HotDays
    ));
}

#[test]
fn threshold_factors_need_a_valid_fine_enough_cell() {
    let mut request = context("rx1day");
    assert_eq!(
        message(&request),
        "missing parameter: cell is required for the built-in rx1day impact"
    );
    request.cell = Some(12);
    assert_eq!(message(&request), "invalid input: invalid H3 cell c");
    request.cell = Some(0x8009fffffffffff);
    assert_eq!(
        message(&request),
        "invalid input: cell cannot be normalized to H3 resolution 4"
    );
    request.cell = Some(0x8a1fb46622dffff);
    match ImpactRegistry::resolve_plan(&request).unwrap() {
        ImpactPlan::ThresholdSigmoid { factor, parent } => {
            assert_eq!(factor, ThresholdFactor::Rx1day);
            assert_eq!(parent, 0x841fb47ffffffff);
        }
        other => panic!("unexpected plan {:?}", other),
    }
    let mut frost = context("frost_days");
    frost.cell = Some(0x8a1fb46622dffff);
    assert!(matches!(
        ImpactRegistry::resolve_plan(&frost).unwrap(),
        ImpactPlan::ThresholdSigmoid { factor: ThresholdFactor::FrostDays, .. }
    ));
}

#[test]
fn wind_factors_need_a_country() {
    let mut request = context("cyclone");
    assert_eq!(
        message(&request),
        "missing parameter: country is required for the built-in cyclone impact"
    );
    request.country = Some("JPN".to_string());
    match ImpactRegistry::resolve_plan(&request).unwrap() {
        ImpactPlan::WindSigmoid { factor, country } => {
            assert_eq!(factor, WindFactor::Cyclone);
            assert_eq!(country, "JPN");
        }
        other => panic!("unexpected plan {:?}", other),
    }
}

#[test]
fn flood_factors_pick_regional_curves() {
    let mut request = context("cflood");
    assert_eq!(
        message(&request),
        "missing parameter: continent is required for a built-in flood impact"
    );
    request.continent = Some("Europe".to_string());
    assert_eq!(
        message(&request),
        "missing parameter: building_type is required for a built-in flood impact"
    );
    request.building_type = Some("Commercial buildings".to_string());
    match ImpactRegistry::resolve_plan(&request).unwrap() {
        ImpactPlan::Flood { region, curve } => {
            assert_eq!(region, FloodRegion::Europe);
            assert_eq!(curve, Some(BuildingCurve::Commercial));
        }
        other => panic!("unexpected plan {:?}", other),
    }
    request.continent = Some("Antarctica".to_string());
    request.building_type = Some("Shed".to_string());
    match ImpactRegistry::resolve_plan(&request).unwrap() {
        ImpactPlan::Flood { region, curve } => {
            assert_eq!(region, FloodRegion::Global);
            assert_eq!(curve, None);
        }
        other => panic!("unexpected plan {:?}", other),
    }
}

#[test]
fn flood_regions_and_curves_by_name() {
    assert_eq!(continent_to_flood_region("North America"), FloodRegion::NorthAmerica);
    assert_eq!(continent_to_flood_region("Oceania"), FloodRegion::Oceania);
    assert_eq!(continent_to_flood_region("Global"), FloodRegion::Global);
    assert_eq!(continent_to_flood_region("europe"), FloodRegion::Global);
    assert_eq!(
        building_type_to_curve("Infrastructure - roads"),
        Some(BuildingCurve::InfrastructureRoads)
    );
    assert_eq!(building_type_to_curve("Agriculture"), Some(BuildingCurve::Agriculture));
    assert_eq!(building_type_to_curve("Agricultural buildings"), None);
}

#[test]
fn drought_needs_country_and_building_type() {
    let mut request = context("spei");
    assert_eq!(
        message(&request),
        "missing parameter: country is required for the built-in spei impact"
    );
    request.country = Some("ESP".to_string());
    assert_eq!(
        message(&request),
        "missing parameter: building_type is required for the built-in spei impact"
    );
    request.building_type = Some("Residential buildings".to_string());
    assert!(matches!(
        ImpactRegistry::resolve_plan(&request).unwrap(),
        ImpactPlan::Spei { .. }
    ));
}

#[test]
fn baseline_factors_need_a_historic_mean_first() {
    let mut request = context("cooling_degree_days");
    request.country = Some("USA".to_string());
    request.building_type = Some("Agricultural buildings".to_string());
    assert_eq!(
        message(&request),
        "missing parameter: historic_mean is required for baseline-relative impacts"
    );
    request.has_historic_mean = true;
    match ImpactRegistry::resolve_plan(&request).unwrap() {
        ImpactPlan::Crop { factor, country } => {
            assert_eq!(factor, BaselineFactor::CoolingDegreeDays);
            assert_eq!(country, "USA");
        }
        other => panic!("unexpected plan {:?}", other),
    }
    request.building_type = Some("Commercial buildings".to_string());
    assert!(matches!(
        ImpactRegistry::resolve_plan(&request).unwrap(),
        ImpactPlan::Cooling { .. }
    ));
    request.factor = "maximum_consecutive_dry_days".to_string();
    assert_eq!(
        message(&request),
        "unsupported operation: maximum_consecutive_dry_days impact is available only for Agricultural buildings"
    );
    request.country = None;
    assert_eq!(
        message(&request),
        "missing parameter: country is required for the built-in maximum_consecutive_dry_days impact"
    );
}

#[test]
fn unknown_factors_are_unsupported() {
    assert_eq!(
        message(&context("hail")),
        "unsupported operation: no built-in impact transform for factor hail"
    );
    assert_eq!(
        message(&context("dlyfrzthw")),
        "unsupported operation: no built-in impact transform for factor dlyfrzthw"
    );
}

#[test]
fn scenario_factor_defaults_to_unknown() {
    let metadata = ScenarioMetadata::default();
    assert_eq!(metadata.factor_label(), "unknown");
    let metadata = ScenarioMetadata {
        factor: Some("fwi".to_string()),
        ..Default::default()
    };
    assert_eq!(metadata.factor_label(), "fwi");
}

#[test]
fn impact_context_defaults_to_an_empty_context() {
    let ctx = ImpactContext::default();
    assert_eq!(ctx.factor, "");
    assert_eq!(ctx.cell, None);
    assert_eq!(ctx.country, None);
    assert_eq!(ctx.continent, None);
    assert_eq!(ctx.building_type, None);
    assert!(!ctx.has_historic_mean);
    let ctx = ImpactContext { factor: "fwi".to_string(), ..Default::default() };
    assert_eq!(ctx.factor, "fwi");
}
