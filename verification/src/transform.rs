//! The choice of the built-in impact transform for a risk factor: which
//! transform applies, which reference data it draws on, and which parts of
//! the context it needs.
use vstd::prelude::*;

use crate::text::text_eq;
use crate::error::{missing_parameter, CrcError, CrcErrorView};
use crate::spatial::{cell_from_u64, cell_parent, cell_resolution, h3_is_cell, h3_parent, invalid_cell_message};
use crate::text::lower_hex_text;

verus! {

/// What selects a built-in impact transform: the risk factor and the parts
/// of the asset's context that the transforms read. Whether a historic mean
/// is known is all that the choice depends on; its value is the caller's.
#[derive(Debug, Clone, Default)]
pub struct ImpactContext {
    pub factor: String,
    pub cell: Option<u64>,
    pub country: Option<String>,
    pub continent: Option<String>,
    pub building_type: Option<String>,
    pub has_historic_mean: bool,
}

/// An [`ImpactContext`] with every text taken as characters.
pub struct ImpactContextView {
    pub factor: Seq<char>,
    pub cell: Option<u64>,
    pub country: Option<Seq<char>>,
    pub continent: Option<Seq<char>>,
    pub building_type: Option<Seq<char>>,
    pub has_historic_mean: bool,
}

/// An optional text taken as characters.
pub open spec fn text_view(t: Option<String>) -> Option<Seq<char>> {
    match t {
        Some(s) => Some(s@),
        None => None,
    }
}

impl View for ImpactContext {
    type V = ImpactContextView;

    open spec fn view(&self) -> ImpactContextView {
        ImpactContextView {
            factor: self.factor@,
            cell: self.cell,
            country: text_view(self.country),
            continent: text_view(self.continent),
            building_type: text_view(self.building_type),
            has_historic_mean: self.has_historic_mean,
        }
    }
}

/// Factors whose damage rises along a sigmoid above a geographic threshold.
#[derive(Debug, Clone, Copy, PartialEq, Eq, Structural)]
pub enum ThresholdFactor {
    DailyFreezethawCycles,
    FrostDays,
    Rx1day,
}

/// Factors whose damage follows a national wind-damage sigmoid.
#[derive(Debug, Clone, Copy, PartialEq, Eq, Structural)]
pub enum WindFactor {
    Cyclone,
    WindMaxDailyMax,
}

/// Factors whose impact is measured against a historic baseline.
#[derive(Debug, Clone, Copy, PartialEq, Eq, Structural)]
pub enum BaselineFactor {
    CoolingDegreeDays,
    MaximumConsecutiveDryDays,
}

/// The regions that carry their own flood depth-damage curves.
#[derive(Debug, Clone, Copy, PartialEq, Eq, Structural)]
pub enum FloodRegion {
    Europe,
    NorthAmerica,
    SouthAmerica,
    Asia,
    Africa,
    Oceania,
    Global,
}

/// The building classes that carry a flood depth-damage curve.
#[derive(Debug, Clone, Copy, PartialEq, Eq, Structural)]
pub enum BuildingCurve {
    Residential,
    Commercial,
    Industrial,
    Transport,
    InfrastructureRoads,
    Agriculture,
}

/// The risk factor whose geographic threshold a threshold factor uses.
pub open spec fn threshold_factor_name(t: ThresholdFactor) -> Seq<char> {
    match t {
        ThresholdFactor::DailyFreezethawCycles => "daily_freezethaw_cycles"@,
        ThresholdFactor::FrostDays => "frost_days"@,
        ThresholdFactor::Rx1day => "rx1day"@,
    }
}

/// The risk factor whose wind-damage parameters a wind factor uses.
pub open spec fn wind_factor_name(w: WindFactor) -> Seq<char> {
    match w {
        WindFactor::Cyclone => "cyclone"@,
        WindFactor::WindMaxDailyMax => "wind_max_daily_max"@,
    }
}

/// The risk factor whose historic baseline a baseline factor is measured
/// against.
pub open spec fn baseline_factor_name(b: BaselineFactor) -> Seq<char> {
    match b {
        BaselineFactor::CoolingDegreeDays => "cooling_degree_days"@,
        BaselineFactor::MaximumConsecutiveDryDays => "maximum_consecutive_dry_days"@,
    }
}

/// The name under which a region's flood curves are kept.
pub open spec fn flood_region_name(r: FloodRegion) -> Seq<char> {
    match r {
        FloodRegion::Europe => "Europe"@,
        FloodRegion::NorthAmerica => "North America"@,
        FloodRegion::SouthAmerica => "South America"@,
        FloodRegion::Asia => "Asia"@,
        FloodRegion::Africa => "Africa"@,
        FloodRegion::Oceania => "Oceania"@,
        FloodRegion::Global => "Global"@,
    }
}

/// The building type that a flood curve is drawn for.
pub open spec fn building_curve_type(c: BuildingCurve) -> Seq<char> {
    match c {
        BuildingCurve::Residential => "Residential buildings"@,
        BuildingCurve::Commercial => "Commercial buildings"@,
        BuildingCurve::Industrial => "Industrial buildings"@,
        BuildingCurve::Transport => "Transport"@,
        BuildingCurve::InfrastructureRoads => "Infrastructure - roads"@,
        BuildingCurve::Agriculture => "Agriculture"@,
    }
}

/// The region whose flood curves apply on a continent: the continent's own
/// where it has them, the global ones otherwise.
pub open spec fn flood_region_of(continent: Seq<char>) -> FloodRegion {
    if continent == "Europe"@ {
        FloodRegion::Europe
    } else if continent == "North America"@ {
        FloodRegion::NorthAmerica
    } else if continent == "South America"@ {
        FloodRegion::SouthAmerica
    } else if continent == "Asia"@ {
        FloodRegion::Asia
    } else if continent == "Africa"@ {
        FloodRegion::Africa
    } else if continent == "Oceania"@ {
        FloodRegion::Oceania
    } else {
        FloodRegion::Global
    }
}

/// The flood curve of a building type, if it has one (a building type
/// without one takes no flood damage).
pub open spec fn building_curve_of(building_type: Seq<char>) -> Option<BuildingCurve> {
    if building_type == "Residential buildings"@ {
        Some(BuildingCurve::Residential)
    } else if building_type == "Commercial buildings"@ {
        Some(BuildingCurve::Commercial)
    } else if building_type == "Industrial buildings"@ {
        Some(BuildingCurve::Industrial)
    } else if building_type == "Transport"@ {
        Some(BuildingCurve::Transport)
    } else if building_type == "Infrastructure - roads"@ {
        Some(BuildingCurve::InfrastructureRoads)
    } else if building_type == "Agriculture"@ {
        Some(BuildingCurve::Agriculture)
    } else {
        None
    }
}

/// The region whose flood curves apply on `continent`.
pub fn continent_to_flood_region(continent: &str) -> (r: FloodRegion)
    ensures
        r == flood_region_of(continent@),
{
    if text_eq(continent, "Europe") {
        FloodRegion::Europe
    } else if text_eq(continent, "North America") {
        FloodRegion::NorthAmerica
    } else if text_eq(continent, "South America") {
        FloodRegion::SouthAmerica
    } else if text_eq(continent, "Asia") {
        FloodRegion::Asia
    } else if text_eq(continent, "Africa") {
        FloodRegion::Africa
    } else if text_eq(continent, "Oceania") {
        FloodRegion::Oceania
    } else {
        FloodRegion::Global
    }
}

/// The flood curve of `building_type`, if it has one.
pub fn building_type_to_curve(building_type: &str) -> (r: Option<BuildingCurve>)
    ensures
        r == building_curve_of(building_type@),
{
    if text_eq(building_type, "Residential buildings") {
        Some(BuildingCurve::Residential)
    } else if text_eq(building_type, "Commercial buildings") {
        Some(BuildingCurve::Commercial)
    } else if text_eq(building_type, "Industrial buildings") {
        Some(BuildingCurve::Industrial)
    } else if text_eq(building_type, "Transport") {
        Some(BuildingCurve::Transport)
    } else if text_eq(building_type, "Infrastructure - roads") {
        Some(BuildingCurve::InfrastructureRoads)
    } else if text_eq(building_type, "Agriculture") {
        Some(BuildingCurve::Agriculture)
    } else {
        None
    }
}

/// The built-in transform chosen for a context, with the reference data it
/// is built from.
#[derive(Debug, Clone)]
pub enum ImpactPlan {
    /// A sigmoid from the geographic threshold of the resolution-4 cell
    /// `parent`.
    ThresholdSigmoid { factor: ThresholdFactor, parent: u64 },
    /// A sigmoid with the wind-damage parameters of `country`.
    WindSigmoid { factor: WindFactor, country: String },
    /// The fire-weather sigmoid.
    FireWeather,
    /// The linear hot-day cost.
    HotDays,
    /// A flood depth-damage curve.
    Flood { region: FloodRegion, curve: Option<BuildingCurve> },
    /// The drought water-cost transform of `country` and `building_type`.
    Spei { country: String, building_type: String },
    /// The crop-yield transform of `country` for agricultural buildings.
    Crop { factor: BaselineFactor, country: String },
    /// The cooling-energy cost of `building_type` in `country`.
    Cooling { country: String, building_type: String },
}

/// An [`ImpactPlan`] with every text taken as characters.
pub enum ImpactPlanView {
    ThresholdSigmoid { factor: ThresholdFactor, parent: u64 },
    WindSigmoid { factor: WindFactor, country: Seq<char> },
    FireWeather,
    HotDays,
    Flood { region: FloodRegion, curve: Option<BuildingCurve> },
    Spei { country: Seq<char>, building_type: Seq<char> },
    Crop { factor: BaselineFactor, country: Seq<char> },
    Cooling { country: Seq<char>, building_type: Seq<char> },
}

impl View for ImpactPlan {
    type V = ImpactPlanView;

    open spec fn view(&self) -> ImpactPlanView {
        match self {
            ImpactPlan::ThresholdSigmoid { factor, parent } => ImpactPlanView::ThresholdSigmoid {
                factor: *factor,
                parent: *parent,
            },
            ImpactPlan::WindSigmoid { factor, country } => ImpactPlanView::WindSigmoid {
                factor: *factor,
                country: country@,
            },
            ImpactPlan::FireWeather => ImpactPlanView::FireWeather,
            ImpactPlan::HotDays => ImpactPlanView::HotDays,
            ImpactPlan::Flood { region, curve } => ImpactPlanView::Flood {
                region: *region,
                curve: *curve,
            },
            ImpactPlan::Spei { country, building_type } => ImpactPlanView::Spei {
                country: country@,
                building_type: building_type@,
            },
            ImpactPlan::Crop { factor, country } => ImpactPlanView::Crop {
                factor: *factor,
                country: country@,
            },
            ImpactPlan::Cooling { country, building_type } => ImpactPlanView::Cooling {
                country: country@,
                building_type: building_type@,
            },
        }
    }
}

/// The error of a context that lacks a part that the transform needs.
pub open spec fn missing(prefix: Seq<char>, detail: Seq<char>, suffix: Seq<char>) -> Result<
    ImpactPlanView,
    CrcErrorView,
> {
    Err(CrcErrorView::MissingParameter(prefix + detail + suffix))
}

/// The transform chosen for a context, or why none can be: the factor
/// selects the transform, which then needs some parts of the context, taken
/// in a fixed order; a factor without a built-in transform is unsupported.
pub open spec fn impact_plan(c: ImpactContextView) -> Result<ImpactPlanView, CrcErrorView> {
    let f = c.factor;
    if f == "daily_freezethaw_cycles"@ || f == "frost_days"@ || f == "rx1day"@ {
        let factor = if f == "daily_freezethaw_cycles"@ {
            ThresholdFactor::DailyFreezethawCycles
        } else if f == "frost_days"@ {
            ThresholdFactor::FrostDays
        } else {
            ThresholdFactor::Rx1day
        };
        match c.cell {
            None => missing("cell is required for the built-in "@, f, " impact"@),
            Some(cell) => if !h3_is_cell(cell) {
                Err(CrcErrorView::InvalidInput(invalid_cell_message(lower_hex_text(cell as nat))))
            } else if cell_resolution(cell) < 4 {
                Err(CrcErrorView::InvalidInput("cell cannot be normalized to H3 resolution 4"@))
            } else {
                Ok(ImpactPlanView::ThresholdSigmoid { factor, parent: cell_parent(cell, 4) })
            },
        }
    } else if f == "cyclone"@ || f == "wind_max_daily_max"@ {
        let factor = if f == "cyclone"@ {
            WindFactor::Cyclone
        } else {
            WindFactor::WindMaxDailyMax
        };
        match c.country {
            None => missing("country is required for the built-in "@, f, " impact"@),
            Some(country) => Ok(ImpactPlanView::WindSigmoid { factor, country }),
        }
    } else if f == "fwi"@ {
        Ok(ImpactPlanView::FireWeather)
    } else if f == "hot_days"@ {
        Ok(ImpactPlanView::HotDays)
    } else if f == "cflood"@ || f == "rflood"@ || f == "inundation"@ {
        match (c.continent, c.building_type) {
            (None, _) => missing("continent is required for a built-in flood impact"@, ""@, ""@),
            (Some(_), None) => missing(
                "building_type is required for a built-in flood impact"@,
                ""@,
                ""@,
            ),
            (Some(continent), Some(building_type)) => Ok(
                ImpactPlanView::Flood {
                    region: flood_region_of(continent),
                    curve: building_curve_of(building_type),
                },
            ),
        }
    } else if f == "spei"@ {
        match (c.country, c.building_type) {
            (None, _) => missing("country is required for the built-in spei impact"@, ""@, ""@),
            (Some(_), None) => missing(
                "building_type is required for the built-in spei impact"@,
                ""@,
                ""@,
            ),
            (Some(country), Some(building_type)) => Ok(
                ImpactPlanView::Spei { country, building_type },
            ),
        }
    } else if f == "cooling_degree_days"@ || f == "maximum_consecutive_dry_days"@ {
        if !c.has_historic_mean {
            missing("historic_mean is required for baseline-relative impacts"@, ""@, ""@)
        } else {
            match (c.country, c.building_type) {
                (None, _) => missing("country is required for the built-in "@, f, " impact"@),
                (Some(_), None) => missing(
                    "building_type is required for the built-in "@,
                    f,
                    " impact"@,
                ),
                (Some(country), Some(building_type)) => if building_type
                    == "Agricultural buildings"@ {
                    Ok(
                        ImpactPlanView::Crop {
                            factor: if f == "cooling_degree_days"@ {
                                BaselineFactor::CoolingDegreeDays
                            } else {
                                BaselineFactor::MaximumConsecutiveDryDays
                            },
                            country,
                        },
                    )
                } else if f == "cooling_degree_days"@ {
                    Ok(ImpactPlanView::Cooling { country, building_type })
                } else {
                    Err(
                        CrcErrorView::Unsupported(
                            "maximum_consecutive_dry_days impact is available only for Agricultural buildings"@,
                        ),
                    )
                },
            }
        }
    } else {
        Err(CrcErrorView::Unsupported("no built-in impact transform for factor "@ + f))
    }
}

proof fn lemma_factor_names_revealed()
    ensures
        "daily_freezethaw_cycles"@ != "frost_days"@,
        "daily_freezethaw_cycles"@ != "rx1day"@,
        "frost_days"@ != "rx1day"@,
        "cyclone"@ != "wind_max_daily_max"@,
        "cyclone"@ != "daily_freezethaw_cycles"@,
        "cyclone"@ != "frost_days"@,
        "cyclone"@ != "rx1day"@,
        "wind_max_daily_max"@ != "daily_freezethaw_cycles"@,
        "wind_max_daily_max"@ != "frost_days"@,
        "wind_max_daily_max"@ != "rx1day"@,
{
    reveal_strlit("daily_freezethaw_cycles");
    reveal_strlit("frost_days");
    reveal_strlit("rx1day");
    reveal_strlit("cyclone");
    reveal_strlit("wind_max_daily_max");
    assert("daily_freezethaw_cycles"@.len() == 23);
    assert("frost_days"@.len() == 10);
    assert("rx1day"@.len() == 6);
    assert("cyclone"@.len() == 7);
    assert("wind_max_daily_max"@.len() == 18);
}

/// A threshold plan uses the threshold of the very factor that the context
/// names, at the resolution-4 ancestor of its cell; and each threshold
/// factor, named with a valid cell of resolution 4 or finer, gets one.
pub proof fn law_threshold_plan_uses_the_named_factor(
    c: ImpactContextView,
    t: ThresholdFactor,
    cell: u64,
)
    ensures
        (c.cell == Some(cell) && impact_plan(c) == Ok::<ImpactPlanView, CrcErrorView>(
            ImpactPlanView::ThresholdSigmoid { factor: t, parent: cell_parent(cell, 4) },
        )) <==> (threshold_factor_name(t) == c.factor && c.cell == Some(cell) && h3_is_cell(cell)
            && 4 <= cell_resolution(cell)),
{
    lemma_factor_names_revealed();
}

/// A wind plan uses the parameters of the very factor that the context
/// names, for the context's country; and each wind factor, named with a
/// country, gets one.
pub proof fn law_wind_plan_uses_the_named_factor(
    c: ImpactContextView,
    w: WindFactor,
    country: Seq<char>,
)
    ensures
        impact_plan(c) == Ok::<ImpactPlanView, CrcErrorView>(
            ImpactPlanView::WindSigmoid { factor: w, country },
        ) <==> (wind_factor_name(w) == c.factor && c.country == Some(country)),
{
    lemma_factor_names_revealed();
}

proof fn lemma_flood_names_revealed()
    ensures
        "Europe"@ != "North America"@,
        "Europe"@ != "South America"@,
        "Europe"@ != "Asia"@,
        "Europe"@ != "Africa"@,
        "Europe"@ != "Oceania"@,
        "Europe"@ != "Global"@,
        "North America"@ != "South America"@,
        "North America"@ != "Asia"@,
        "North America"@ != "Africa"@,
        "North America"@ != "Oceania"@,
        "North America"@ != "Global"@,
        "South America"@ != "Asia"@,
        "South America"@ != "Africa"@,
        "South America"@ != "Oceania"@,
        "South America"@ != "Global"@,
        "Asia"@ != "Africa"@,
        "Asia"@ != "Oceania"@,
        "Asia"@ != "Global"@,
        "Africa"@ != "Oceania"@,
        "Africa"@ != "Global"@,
        "Oceania"@ != "Global"@,
        "Residential buildings"@ != "Commercial buildings"@,
        "Residential buildings"@ != "Industrial buildings"@,
        "Residential buildings"@ != "Transport"@,
        "Residential buildings"@ != "Infrastructure - roads"@,
        "Residential buildings"@ != "Agriculture"@,
        "Commercial buildings"@ != "Industrial buildings"@,
        "Commercial buildings"@ != "Transport"@,
        "Commercial buildings"@ != "Infrastructure - roads"@,
        "Commercial buildings"@ != "Agriculture"@,
        "Industrial buildings"@ != "Transport"@,
        "Industrial buildings"@ != "Infrastructure - roads"@,
        "Industrial buildings"@ != "Agriculture"@,
        "Transport"@ != "Infrastructure - roads"@,
        "Transport"@ != "Agriculture"@,
        "Infrastructure - roads"@ != "Agriculture"@,
{
    reveal_strlit("Europe");
    reveal_strlit("North America");
    reveal_strlit("South America");
    reveal_strlit("Asia");
    reveal_strlit("Africa");
    reveal_strlit("Oceania");
    reveal_strlit("Global");
    reveal_strlit("Residential buildings");
    reveal_strlit("Commercial buildings");
    reveal_strlit("Industrial buildings");
    reveal_strlit("Transport");
    reveal_strlit("Infrastructure - roads");
    reveal_strlit("Agriculture");
    assert("Europe"@.len() == 6 && "Africa"@.len() == 6 && "Global"@.len() == 6);
    assert("North America"@.len() == 13 && "South America"@.len() == 13);
    assert("Asia"@.len() == 4 && "Oceania"@.len() == 7);
    assert("Europe"@[0] != "Africa"@[0] && "Europe"@[0] != "Global"@[0]);
    assert("Africa"@[0] != "Global"@[0]);
    assert("North America"@[0] != "South America"@[0]);
    assert("Residential buildings"@.len() == 21 && "Commercial buildings"@.len() == 20);
    assert("Industrial buildings"@.len() == 20 && "Transport"@.len() == 9);
    assert("Infrastructure - roads"@.len() == 22 && "Agriculture"@.len() == 11);
    assert("Commercial buildings"@[0] != "Industrial buildings"@[0]);
}

/// A continent gets the flood curves kept under its own name when there
/// are any, and the global curves otherwise: no continent borrows the
/// curves of another.
pub proof fn law_flood_region_is_the_named_continent(continent: Seq<char>, r: FloodRegion)
    ensures
        flood_region_name(r) == continent ==> flood_region_of(continent) == r,
        flood_region_of(continent) == r && r != FloodRegion::Global ==> flood_region_name(r)
            == continent,
{
    lemma_flood_names_revealed();
}

/// A building type gets the flood curve drawn for it, and a curve serves
/// one building type only: the curves of distinct types are distinct.
pub proof fn law_building_curve_is_the_named_type(building_type: Seq<char>, k: BuildingCurve)
    ensures
        building_curve_of(building_type) == Some(k) <==> building_curve_type(k) == building_type,
{
    lemma_flood_names_revealed();
}

/// A flood plan takes the curves of the context's continent (or the global
/// ones where it has none of its own) and the curve of its building type.
pub proof fn law_flood_plan_follows_continent_and_building_type(
    c: ImpactContextView,
    region: FloodRegion,
    curve: Option<BuildingCurve>,
)
    requires
        impact_plan(c) == Ok::<ImpactPlanView, CrcErrorView>(
            ImpactPlanView::Flood { region, curve },
        ),
    ensures
        c.continent is Some && c.building_type is Some,
        forall|q: FloodRegion| flood_region_name(q) == c.continent.unwrap() ==> region == q,
        region != FloodRegion::Global ==> flood_region_name(region) == c.continent.unwrap(),
        forall|k: BuildingCurve|
            building_curve_type(k) == c.building_type.unwrap() <==> curve == Some(k),
{
    lemma_flood_names_revealed();
    let continent = c.continent.unwrap();
    let building_type = c.building_type.unwrap();
    assert forall|q: FloodRegion| flood_region_name(q) == continent implies region == q by {
        law_flood_region_is_the_named_continent(continent, q);
    }
    law_flood_region_is_the_named_continent(continent, region);
    assert forall|k: BuildingCurve| building_curve_type(k) == building_type <==> curve == Some(k) by {
        law_building_curve_is_the_named_type(building_type, k);
    }
}

/// Every plan draws on the context it was chosen for: a crop plan on the
/// baseline of the factor named, for agricultural buildings; the drought
/// and cooling plans on the context's own country and building type; the
/// fire-weather, hot-day and flood plans only for their own factors.
pub proof fn law_plan_draws_on_its_context(c: ImpactContextView, p: ImpactPlanView)
    requires
        impact_plan(c) == Ok::<ImpactPlanView, CrcErrorView>(p),
    ensures
        p matches ImpactPlanView::Crop { factor, country } ==> baseline_factor_name(factor)
            == c.factor && c.has_historic_mean && c.country == Some(country) && c.building_type
            == Some("Agricultural buildings"@),
        p matches ImpactPlanView::Cooling { country, building_type } ==> c.factor
            == "cooling_degree_days"@ && c.has_historic_mean && c.country == Some(country)
            && c.building_type == Some(building_type) && building_type
            != "Agricultural buildings"@,
        p matches ImpactPlanView::Spei { country, building_type } ==> c.factor == "spei"@
            && c.country == Some(country) && c.building_type == Some(building_type),
        p is FireWeather ==> c.factor == "fwi"@,
        p is HotDays ==> c.factor == "hot_days"@,
        p is Flood ==> c.factor == "cflood"@ || c.factor == "rflood"@ || c.factor
            == "inundation"@,
{
    lemma_factor_names_revealed();
    reveal_strlit("cooling_degree_days");
    reveal_strlit("maximum_consecutive_dry_days");
    assert("cooling_degree_days"@.len() == 19);
    assert("maximum_consecutive_dry_days"@.len() == 28);
}

/// The registry of built-in impact transforms.
pub struct ImpactRegistry;

impl ImpactRegistry {
    /// The built-in transform for `context` (see [`impact_plan`]).
    pub fn resolve_plan(context: &ImpactContext) -> (r: Result<ImpactPlan, CrcError>)
        ensures
            match r {
                Ok(p) => impact_plan(context@) == Ok::<ImpactPlanView, CrcErrorView>(p@),
                Err(e) => impact_plan(context@) == Err::<ImpactPlanView, CrcErrorView>(e@),
            },
    {
        let f = context.factor.as_str();
        if text_eq(f, "daily_freezethaw_cycles") || text_eq(f, "frost_days") || text_eq(
            f,
            "rx1day",
        ) {
            let factor = if text_eq(f, "daily_freezethaw_cycles") {
                ThresholdFactor::DailyFreezethawCycles
            } else if text_eq(f, "frost_days") {
                ThresholdFactor::FrostDays
            } else {
                ThresholdFactor::Rx1day
            };
            let cell = match context.cell {
                None => {
                    return Err(
                        missing_parameter("cell is required for the built-in ", f, " impact"),
                    );
                },
                Some(cell) => cell,
            };
            let cell = cell_from_u64(cell)?;
            let raw = cell.index();
            match h3_parent(raw, 4) {
                Some(parent) => Ok(ImpactPlan::ThresholdSigmoid { factor, parent }),
                None => Err(
                    CrcError::InvalidInput(
                        String::from_str("cell cannot be normalized to H3 resolution 4"),
                    ),
                ),
            }
        } else if text_eq(f, "cyclone") || text_eq(f, "wind_max_daily_max") {
            let factor = if text_eq(f, "cyclone") {
                WindFactor::Cyclone
            } else {
                WindFactor::WindMaxDailyMax
            };
            match &context.country {
                None => Err(
                    missing_parameter("country is required for the built-in ", f, " impact"),
                ),
                Some(country) => Ok(ImpactPlan::WindSigmoid { factor, country: country.clone() }),
            }
        } else if text_eq(f, "fwi") {
            Ok(ImpactPlan::FireWeather)
        } else if text_eq(f, "hot_days") {
            Ok(ImpactPlan::HotDays)
        } else if text_eq(f, "cflood") || text_eq(f, "rflood") || text_eq(f, "inundation") {
            match (&context.continent, &context.building_type) {
                (None, _) => Err(
                    missing_parameter("continent is required for a built-in flood impact", "", ""),
                ),
                (Some(_), None) => Err(
                    missing_parameter(
                        "building_type is required for a built-in flood impact",
                        "",
                        "",
                    ),
                ),
                (Some(continent), Some(building_type)) => Ok(
                    ImpactPlan::Flood {
                        region: continent_to_flood_region(continent.as_str()),
                        curve: building_type_to_curve(building_type.as_str()),
                    },
                ),
            }
        } else if text_eq(f, "spei") {
            match (&context.country, &context.building_type) {
                (None, _) => Err(
                    missing_parameter("country is required for the built-in spei impact", "", ""),
                ),
                (Some(_), None) => Err(
                    missing_parameter(
                        "building_type is required for the built-in spei impact",
                        "",
                        "",
                    ),
                ),
                (Some(country), Some(building_type)) => Ok(
                    ImpactPlan::Spei {
                        country: country.clone(),
                        building_type: building_type.clone(),
                    },
                ),
            }
        } else if text_eq(f, "cooling_degree_days") || text_eq(f, "maximum_consecutive_dry_days") {
            if !context.has_historic_mean {
                return Err(
                    missing_parameter(
                        "historic_mean is required for baseline-relative impacts",
                        "",
                        "",
                    ),
                );
            }
            match (&context.country, &context.building_type) {
                (None, _) => Err(
                    missing_parameter("country is required for the built-in ", f, " impact"),
                ),
                (Some(_), None) => Err(
                    missing_parameter("building_type is required for the built-in ", f, " impact"),
                ),
                (Some(country), Some(building_type)) => {
                    if text_eq(building_type.as_str(), "Agricultural buildings") {
                        let factor = if text_eq(f, "cooling_degree_days") {
                            BaselineFactor::CoolingDegreeDays
                        } else {
                            BaselineFactor::MaximumConsecutiveDryDays
                        };
                        Ok(ImpactPlan::Crop { factor, country: country.clone() })
                    } else if text_eq(f, "cooling_degree_days") {
                        Ok(
                            ImpactPlan::Cooling {
                                country: country.clone(),
                                building_type: building_type.clone(),
                            },
                        )
                    } else {
                        Err(
                            CrcError::Unsupported(
                                String::from_str(
                                    "maximum_consecutive_dry_days impact is available only for Agricultural buildings",
                                ),
                            ),
                        )
                    }
                },
            }
        } else {
            let mut m = String::from_str("no built-in impact transform for factor ");
            m.append(f);
            Err(CrcError::Unsupported(m))
        }
    }
}

} // verus!
