//! Reference tables of emission pathways, time horizons and risk factors,
//! and the lookups between their identifiers and names.
use vstd::prelude::*;

use crate::error::{CrcError, CrcErrorView};
use crate::text::{append_signed_decimal, signed_decimal_text, text_eq};

verus! {

/// The supported time horizons (years).
pub open spec fn horizon_table() -> Seq<i32> {
    seq![
        2010, 2025, 2030, 2035, 2040, 2045, 2050, 2055, 2060,
        2065, 2070, 2075, 2080, 2085, 2090, 2095, 2100,
    ]
}

/// The emission pathways: identifier and name.
pub open spec fn pathway_table() -> Seq<(i32, Seq<char>)> {
    seq![
        (1, "SV"@), (2, "Hot House"@), (3, "Paris"@), (4, "NDC"@),
        (5, "ssp126"@), (6, "ssp245"@), (7, "ssp370"@), (8, "ssp585"@),
        (9, "<2 degrees"@), (10, "2-3 degrees"@), (11, "3-4 degrees"@), (12, ">4 degrees"@),
        (13, "historic"@), (14, "ssp434"@), (15, "ssp119"@), (16, "ssp460"@),
    ]
}

/// The risk factors: identifier and canonical name.
pub open spec fn risk_factor_table() -> Seq<(i32, Seq<char>)> {
    seq![
        (1, "daily_freezethaw_cycles"@), (2, "frost_days"@), (3, "cyclone"@),
        (4, "fwi"@), (5, "rx1day"@), (6, "wind_max_daily_max"@),
        (7, "carbon_price"@), (8, "hot_days"@), (9, "cflood"@),
        (10, "rflood"@), (11, "inundation"@), (12, "spei"@),
        (13, "dc"@), (14, "dmc"@), (15, "ffmc"@),
        (16, "isi"@), (17, "bui"@), (18, "rx5day"@),
        (19, "wind_max_daily_mean"@), (20, "cooling_degree_days"@), (21, "tg_max"@),
        (22, "tg_mean"@), (23, "tg_min"@), (24, "tx_max"@),
        (25, "tx_mean"@), (26, "tx_min"@), (27, "tn_max"@),
        (28, "tn_mean"@), (29, "tn_min"@), (30, "sdii"@),
        (31, "liquidprcptot"@), (32, "solidprcptot"@), (33, "prcptot"@),
        (34, "pet"@), (35, "water_budget"@), (37, "dtrmax"@),
        (38, "dtrvar"@), (39, "etr"@), (40, "calm_days"@),
        (41, "corn_heat_units"@), (42, "wbgt"@), (43, "windchill"@),
        (44, "heat_index"@), (45, "heat_wave_frequency"@), (46, "heat_wave_total_length"@),
        (47, "heat_wave_max_length"@), (48, "heat_wave_index"@), (49, "hot_spell_frequency"@),
        (50, "hot_spell_max_length"@), (51, "maximum_consecutive_frost_days"@), (52, "cold_spell_days"@),
        (53, "cold_spell_frequency"@), (54, "maximum_consecutive_wet_days"@), (55, "maximum_consecutive_dry_days"@),
        (56, "at"@), (57, "summer_days"@), (58, "tropical_nights"@),
        (60, "humidex"@), (61, "heating_degree_days"@), (62, "growing_degree_days"@),
        (63, "ice_days"@), (64, "dry_days"@), (65, "wet_days"@),
        (66, "dtr"@),
    ]
}

/// A table of identifiers and names, with each name taken as characters.
pub open spec fn named_view(t: Seq<(i32, &'static str)>) -> Seq<(i32, Seq<char>)> {
    t.map_values(|e: (i32, &'static str)| (e.0, e.1@))
}

/// The supported time horizons, in increasing order.
pub fn horizons() -> (v: Vec<i32>)
    ensures
        v@ == horizon_table(),
{
    let v = vec![
        2010, 2025, 2030, 2035, 2040, 2045, 2050, 2055, 2060,
        2065, 2070, 2075, 2080, 2085, 2090, 2095, 2100,
    ];
    assert(v@ =~= horizon_table());
    v
}

/// The emission pathways, as identifier and name.
pub fn pathways() -> (v: Vec<(i32, &'static str)>)
    ensures
        named_view(v@) == pathway_table(),
{
    let v = vec![
        (1, "SV"), (2, "Hot House"), (3, "Paris"), (4, "NDC"),
        (5, "ssp126"), (6, "ssp245"), (7, "ssp370"), (8, "ssp585"),
        (9, "<2 degrees"), (10, "2-3 degrees"), (11, "3-4 degrees"), (12, ">4 degrees"),
        (13, "historic"), (14, "ssp434"), (15, "ssp119"), (16, "ssp460"),
    ];
    assert(named_view(v@) =~= pathway_table());
    v
}

/// The risk factors, as identifier and canonical name.
pub fn risk_factors() -> (v: Vec<(i32, &'static str)>)
    ensures
        named_view(v@) == risk_factor_table(),
{
    let v = vec![
        (1, "daily_freezethaw_cycles"), (2, "frost_days"), (3, "cyclone"),
        (4, "fwi"), (5, "rx1day"), (6, "wind_max_daily_max"),
        (7, "carbon_price"), (8, "hot_days"), (9, "cflood"),
        (10, "rflood"), (11, "inundation"), (12, "spei"),
        (13, "dc"), (14, "dmc"), (15, "ffmc"),
        (16, "isi"), (17, "bui"), (18, "rx5day"),
        (19, "wind_max_daily_mean"), (20, "cooling_degree_days"), (21, "tg_max"),
        (22, "tg_mean"), (23, "tg_min"), (24, "tx_max"),
        (25, "tx_mean"), (26, "tx_min"), (27, "tn_max"),
        (28, "tn_mean"), (29, "tn_min"), (30, "sdii"),
        (31, "liquidprcptot"), (32, "solidprcptot"), (33, "prcptot"),
        (34, "pet"), (35, "water_budget"), (37, "dtrmax"),
        (38, "dtrvar"), (39, "etr"), (40, "calm_days"),
        (41, "corn_heat_units"), (42, "wbgt"), (43, "windchill"),
        (44, "heat_index"), (45, "heat_wave_frequency"), (46, "heat_wave_total_length"),
        (47, "heat_wave_max_length"), (48, "heat_wave_index"), (49, "hot_spell_frequency"),
        (50, "hot_spell_max_length"), (51, "maximum_consecutive_frost_days"), (52, "cold_spell_days"),
        (53, "cold_spell_frequency"), (54, "maximum_consecutive_wet_days"), (55, "maximum_consecutive_dry_days"),
        (56, "at"), (57, "summer_days"), (58, "tropical_nights"),
        (60, "humidex"), (61, "heating_degree_days"), (62, "growing_degree_days"),
        (63, "ice_days"), (64, "dry_days"), (65, "wet_days"),
        (66, "dtr"),
    ];
    assert(named_view(v@) =~= risk_factor_table());
    v
}

/// `i` is the first position of `t` that holds identifier `id`.
pub open spec fn first_with_id(t: Seq<(i32, Seq<char>)>, i: int, id: i32) -> bool {
    &&& 0 <= i < t.len()
    &&& t[i].0 == id
    &&& forall|j: int| 0 <= j < i ==> (#[trigger] t[j]).0 != id
}

/// `i` is the first position of `t` that holds name `name`.
pub open spec fn first_with_name(t: Seq<(i32, Seq<char>)>, i: int, name: Seq<char>) -> bool {
    &&& 0 <= i < t.len()
    &&& t[i].1 == name
    &&& forall|j: int| 0 <= j < i ==> (#[trigger] t[j]).1 != name
}

/// The name of the first entry of `t` with identifier `id`, if any.
pub open spec fn name_for_id(t: Seq<(i32, Seq<char>)>, id: i32) -> Option<Seq<char>> {
    if exists|i: int| first_with_id(t, i, id) {
        Some(t[choose|i: int| first_with_id(t, i, id)].1)
    } else {
        None
    }
}

/// The identifier of the first entry of `t` named `name`, if any.
pub open spec fn id_for_name(t: Seq<(i32, Seq<char>)>, name: Seq<char>) -> Option<i32> {
    if exists|i: int| first_with_name(t, i, name) {
        Some(t[choose|i: int| first_with_name(t, i, name)].0)
    } else {
        None
    }
}

proof fn lemma_first_with_id_unique(t: Seq<(i32, Seq<char>)>, i: int, k: int, id: i32)
    requires
        first_with_id(t, i, id),
        first_with_id(t, k, id),
    ensures
        i == k,
{
    if i < k {
        assert(t[i].0 == id);
    } else if k < i {
        assert(t[k].0 == id);
    }
}

proof fn lemma_first_with_name_unique(t: Seq<(i32, Seq<char>)>, i: int, k: int, name: Seq<char>)
    requires
        first_with_name(t, i, name),
        first_with_name(t, k, name),
    ensures
        i == k,
{
    if i < k {
        assert(t[i].1 == name);
    } else if k < i {
        assert(t[k].1 == name);
    }
}

fn find_by_id(table: &Vec<(i32, &'static str)>, id: i32) -> (r: Option<&'static str>)
    ensures
        match r {
            Some(s) => name_for_id(named_view(table@), id) == Some(s@),
            None => name_for_id(named_view(table@), id) is None,
        },
{
    let ghost t = named_view(table@);
    let mut i: usize = 0;
    while i < table.len()
        invariant
            i <= table@.len(),
            t == named_view(table@),
            forall|j: int| 0 <= j < i ==> (#[trigger] t[j]).0 != id,
        decreases table@.len() - i,
    {
        let (candidate, name) = table[i];
        if candidate == id {
            proof {
                assert(first_with_id(t, i as int, id));
                let c = choose|c: int| first_with_id(t, c, id);
                lemma_first_with_id_unique(t, i as int, c, id);
            }
            return Some(name);
        }
        i = i + 1;
    }
    assert forall|c: int| !first_with_id(t, c, id) by {
        if 0 <= c < t.len() {
            assert(t[c].0 != id);
        }
    }
    None
}

fn find_by_name(table: &Vec<(i32, &'static str)>, name: &str) -> (r: Option<i32>)
    ensures
        r == id_for_name(named_view(table@), name@),
{
    let ghost t = named_view(table@);
    let mut i: usize = 0;
    while i < table.len()
        invariant
            i <= table@.len(),
            t == named_view(table@),
            forall|j: int| 0 <= j < i ==> (#[trigger] t[j]).1 != name@,
        decreases table@.len() - i,
    {
        let (id, candidate) = table[i];
        if text_eq(candidate, name) {
            proof {
                assert(first_with_name(t, i as int, name@));
                let c = choose|c: int| first_with_name(t, c, name@);
                lemma_first_with_name_unique(t, i as int, c, name@);
            }
            return Some(id);
        }
        i = i + 1;
    }
    assert forall|c: int| !first_with_name(t, c, name@) by {
        if 0 <= c < t.len() {
            assert(t[c].1 != name@);
        }
    }
    None
}

fn unknown(prefix: &str, detail_number: Option<i32>, detail_text: &str) -> (e: CrcError)
    ensures
        e@ == CrcErrorView::InvalidInput(
            prefix@ + match detail_number {
                Some(n) => signed_decimal_text(n as int),
                None => detail_text@,
            },
        ),
{
    let mut m = String::from_str(prefix);
    match detail_number {
        Some(n) => append_signed_decimal(&mut m, n as i64),
        None => m.append(detail_text),
    }
    CrcError::InvalidInput(m)
}

/// The name of the pathway with identifier `id`.
pub fn pathway_name(id: i32) -> (r: Result<&'static str, CrcError>)
    ensures
        match r {
            Ok(s) => name_for_id(pathway_table(), id) == Some(s@),
            Err(e) => name_for_id(pathway_table(), id) is None && e@ == CrcErrorView::InvalidInput(
                "unknown pathway id "@ + signed_decimal_text(id as int),
            ),
        },
{
    match find_by_id(&pathways(), id) {
        Some(name) => Ok(name),
        None => Err(unknown("unknown pathway id ", Some(id), "")),
    }
}

/// The identifier of the pathway named `name`.
pub fn pathway_id(name: &str) -> (r: Result<i32, CrcError>)
    ensures
        match r {
            Ok(id) => id_for_name(pathway_table(), name@) == Some(id),
            Err(e) => id_for_name(pathway_table(), name@) is None && e@
                == CrcErrorView::InvalidInput("unknown pathway name "@ + name@),
        },
{
    match find_by_name(&pathways(), name) {
        Some(id) => Ok(id),
        None => Err(unknown("unknown pathway name ", None, name)),
    }
}

/// The canonical name of the risk factor with identifier `id`.
pub fn risk_factor_name(id: i32) -> (r: Result<&'static str, CrcError>)
    ensures
        match r {
            Ok(s) => name_for_id(risk_factor_table(), id) == Some(s@),
            Err(e) => name_for_id(risk_factor_table(), id) is None && e@
                == CrcErrorView::InvalidInput(
                "unknown risk factor id "@ + signed_decimal_text(id as int),
            ),
        },
{
    match find_by_id(&risk_factors(), id) {
        Some(name) => Ok(name),
        None => Err(unknown("unknown risk factor id ", Some(id), "")),
    }
}

/// The canonical name that a risk-factor name stands for: four legacy
/// aliases are mapped to the names they replaced, any other name to itself.
pub open spec fn canonical_risk_factor_name(name: Seq<char>) -> Seq<char> {
    if name == "dlyfrzthw"@ {
        "daily_freezethaw_cycles"@
    } else if name == "cflood_rp50"@ {
        "cflood"@
    } else if name == "rflood_rp50"@ {
        "rflood"@
    } else if name == "slr"@ {
        "inundation"@
    } else {
        name
    }
}

fn canonical_name<'a>(name: &'a str) -> (r: &'a str)
    ensures
        r@ == canonical_risk_factor_name(name@),
{
    if text_eq(name, "dlyfrzthw") {
        "daily_freezethaw_cycles"
    } else if text_eq(name, "cflood_rp50") {
        "cflood"
    } else if text_eq(name, "rflood_rp50") {
        "rflood"
    } else if text_eq(name, "slr") {
        "inundation"
    } else {
        name
    }
}

/// The identifier of the risk factor named `name`, or of the factor that
/// the legacy alias `name` stands for.
pub fn risk_factor_id(name: &str) -> (r: Result<i32, CrcError>)
    ensures
        match r {
            Ok(id) => id_for_name(risk_factor_table(), canonical_risk_factor_name(name@)) == Some(id),
            Err(e) => id_for_name(risk_factor_table(), canonical_risk_factor_name(name@)) is None
                && e@ == CrcErrorView::InvalidInput("unknown risk factor name "@ + name@),
        },
{
    let canonical = canonical_name(name);
    match find_by_name(&risk_factors(), canonical) {
        Some(id) => Ok(id),
        None => Err(unknown("unknown risk factor name ", None, name)),
    }
}

/// `horizon` itself when it is one of the supported horizons.
pub fn validate_horizon(horizon: i32) -> (r: Result<i32, CrcError>)
    ensures
        match r {
            Ok(h) => h == horizon && horizon_table().contains(horizon),
            Err(e) => !horizon_table().contains(horizon) && e@ == CrcErrorView::InvalidInput(
                "unsupported horizon "@ + signed_decimal_text(horizon as int),
            ),
        },
{
    let table = horizons();
    let mut i: usize = 0;
    while i < table.len()
        invariant
            i <= table@.len(),
            table@ == horizon_table(),
            forall|j: int| 0 <= j < i ==> table@[j] != horizon,
        decreases table@.len() - i,
    {
        if table[i] == horizon {
            return Ok(horizon);
        }
        i = i + 1;
    }
    Err(unknown("unsupported horizon ", Some(horizon), ""))
}

/// The supported horizons are 2010 and then every fifth year from 2025 to
/// 2100, so `validate_horizon` accepts a year exactly when it is 2010 or a
/// multiple of five between 2025 and 2100.
pub proof fn law_horizons_are_2010_and_every_fifth_year(year: i32)
    ensures
        horizon_table().len() == 17,
        horizon_table()[0] == 2010,
        forall|i: int| 1 <= i <= 16 ==> #[trigger] horizon_table()[i] == 2020 + 5 * i,
        horizon_table().contains(year) <==> (year == 2010 || (2025 <= year <= 2100 && year % 5
            == 0)),
{
    let t = horizon_table();
    assert forall|i: int| 1 <= i <= 16 implies #[trigger] t[i] == 2020 + 5 * i by {
        assert(t[1] == 2025 && t[2] == 2030 && t[3] == 2035 && t[4] == 2040);
        assert(t[5] == 2045 && t[6] == 2050 && t[7] == 2055 && t[8] == 2060);
        assert(t[9] == 2065 && t[10] == 2070 && t[11] == 2075 && t[12] == 2080);
        assert(t[13] == 2085 && t[14] == 2090 && t[15] == 2095 && t[16] == 2100);
    }
    if t.contains(year) {
        let i = choose|i: int| 0 <= i < t.len() && t[i] == year;
        if i > 0 {
            assert(t[i] == 2020 + 5 * i);
        }
    }
    if year == 2010 {
        assert(t[0] == year);
    }
    if 2025 <= year <= 2100 && year % 5 == 0 {
        let i: int = (year - 2020) / 5;
        assert(1 <= i <= 16);
        assert(t[i] == 2020 + 5 * i);
        assert(t[i] == year);
    }
}


/// The identifiers of a table increase strictly from each entry to the next.
pub open spec fn ids_increasing(t: Seq<(i32, Seq<char>)>) -> bool {
    forall|i: int| 0 <= i < t.len() - 1 ==> (#[trigger] t[i]).0 < t[i + 1].0
}

/// No two entries of a table share a name.
pub open spec fn names_distinct(t: Seq<(i32, Seq<char>)>) -> bool {
    forall|i: int, j: int| 0 <= i < j < t.len() ==> (#[trigger] t[i]).1 != (#[trigger] t[j]).1
}

proof fn lemma_increasing_ids_distinct(t: Seq<(i32, Seq<char>)>, i: int, j: int)
    requires
        ids_increasing(t),
        0 <= i < j < t.len(),
    ensures
        t[i].0 < t[j].0,
    decreases j - i,
{
    if i + 1 < j {
        lemma_increasing_ids_distinct(t, i + 1, j);
    }
    assert(t[i].0 < t[i + 1].0);
}

proof fn lemma_pathway_ids_increasing()
    ensures
        ids_increasing(pathway_table()),
{
    assert(pathway_table()[0].0 < pathway_table()[1].0);
    assert(pathway_table()[1].0 < pathway_table()[2].0);
    assert(pathway_table()[2].0 < pathway_table()[3].0);
    assert(pathway_table()[3].0 < pathway_table()[4].0);
    assert(pathway_table()[4].0 < pathway_table()[5].0);
    assert(pathway_table()[5].0 < pathway_table()[6].0);
    assert(pathway_table()[6].0 < pathway_table()[7].0);
    assert(pathway_table()[7].0 < pathway_table()[8].0);
    assert(pathway_table()[8].0 < pathway_table()[9].0);
    assert(pathway_table()[9].0 < pathway_table()[10].0);
    assert(pathway_table()[10].0 < pathway_table()[11].0);
    assert(pathway_table()[11].0 < pathway_table()[12].0);
    assert(pathway_table()[12].0 < pathway_table()[13].0);
    assert(pathway_table()[13].0 < pathway_table()[14].0);
    assert(pathway_table()[14].0 < pathway_table()[15].0);
}

proof fn lemma_risk_factor_ids_increasing()
    ensures
        ids_increasing(risk_factor_table()),
{
    assert(risk_factor_table()[0].0 < risk_factor_table()[1].0);
    assert(risk_factor_table()[1].0 < risk_factor_table()[2].0);
    assert(risk_factor_table()[2].0 < risk_factor_table()[3].0);
    assert(risk_factor_table()[3].0 < risk_factor_table()[4].0);
    assert(risk_factor_table()[4].0 < risk_factor_table()[5].0);
    assert(risk_factor_table()[5].0 < risk_factor_table()[6].0);
    assert(risk_factor_table()[6].0 < risk_factor_table()[7].0);
    assert(risk_factor_table()[7].0 < risk_factor_table()[8].0);
    assert(risk_factor_table()[8].0 < risk_factor_table()[9].0);
    assert(risk_factor_table()[9].0 < risk_factor_table()[10].0);
    assert(risk_factor_table()[10].0 < risk_factor_table()[11].0);
    assert(risk_factor_table()[11].0 < risk_factor_table()[12].0);
    assert(risk_factor_table()[12].0 < risk_factor_table()[13].0);
    assert(risk_factor_table()[13].0 < risk_factor_table()[14].0);
    assert(risk_factor_table()[14].0 < risk_factor_table()[15].0);
    assert(risk_factor_table()[15].0 < risk_factor_table()[16].0);
    assert(risk_factor_table()[16].0 < risk_factor_table()[17].0);
    assert(risk_factor_table()[17].0 < risk_factor_table()[18].0);
    assert(risk_factor_table()[18].0 < risk_factor_table()[19].0);
    assert(risk_factor_table()[19].0 < risk_factor_table()[20].0);
    assert(risk_factor_table()[20].0 < risk_factor_table()[21].0);
    assert(risk_factor_table()[21].0 < risk_factor_table()[22].0);
    assert(risk_factor_table()[22].0 < risk_factor_table()[23].0);
    assert(risk_factor_table()[23].0 < risk_factor_table()[24].0);
    assert(risk_factor_table()[24].0 < risk_factor_table()[25].0);
    assert(risk_factor_table()[25].0 < risk_factor_table()[26].0);
    assert(risk_factor_table()[26].0 < risk_factor_table()[27].0);
    assert(risk_factor_table()[27].0 < risk_factor_table()[28].0);
    assert(risk_factor_table()[28].0 < risk_factor_table()[29].0);
    assert(risk_factor_table()[29].0 < risk_factor_table()[30].0);
    assert(risk_factor_table()[30].0 < risk_factor_table()[31].0);
    assert(risk_factor_table()[31].0 < risk_factor_table()[32].0);
    assert(risk_factor_table()[32].0 < risk_factor_table()[33].0);
    assert(risk_factor_table()[33].0 < risk_factor_table()[34].0);
    assert(risk_factor_table()[34].0 < risk_factor_table()[35].0);
    assert(risk_factor_table()[35].0 < risk_factor_table()[36].0);
    assert(risk_factor_table()[36].0 < risk_factor_table()[37].0);
    assert(risk_factor_table()[37].0 < risk_factor_table()[38].0);
    assert(risk_factor_table()[38].0 < risk_factor_table()[39].0);
    assert(risk_factor_table()[39].0 < risk_factor_table()[40].0);
    assert(risk_factor_table()[40].0 < risk_factor_table()[41].0);
    assert(risk_factor_table()[41].0 < risk_factor_table()[42].0);
    assert(risk_factor_table()[42].0 < risk_factor_table()[43].0);
    assert(risk_factor_table()[43].0 < risk_factor_table()[44].0);
    assert(risk_factor_table()[44].0 < risk_factor_table()[45].0);
    assert(risk_factor_table()[45].0 < risk_factor_table()[46].0);
    assert(risk_factor_table()[46].0 < risk_factor_table()[47].0);
    assert(risk_factor_table()[47].0 < risk_factor_table()[48].0);
    assert(risk_factor_table()[48].0 < risk_factor_table()[49].0);
    assert(risk_factor_table()[49].0 < risk_factor_table()[50].0);
    assert(risk_factor_table()[50].0 < risk_factor_table()[51].0);
    assert(risk_factor_table()[51].0 < risk_factor_table()[52].0);
    assert(risk_factor_table()[52].0 < risk_factor_table()[53].0);
    assert(risk_factor_table()[53].0 < risk_factor_table()[54].0);
    assert(risk_factor_table()[54].0 < risk_factor_table()[55].0);
    assert(risk_factor_table()[55].0 < risk_factor_table()[56].0);
    assert(risk_factor_table()[56].0 < risk_factor_table()[57].0);
    assert(risk_factor_table()[57].0 < risk_factor_table()[58].0);
    assert(risk_factor_table()[58].0 < risk_factor_table()[59].0);
    assert(risk_factor_table()[59].0 < risk_factor_table()[60].0);
    assert(risk_factor_table()[60].0 < risk_factor_table()[61].0);
    assert(risk_factor_table()[61].0 < risk_factor_table()[62].0);
    assert(risk_factor_table()[62].0 < risk_factor_table()[63].0);
}

proof fn lemma_name_then_id(t: Seq<(i32, Seq<char>)>, name: Seq<char>, id: i32)
    requires
        ids_increasing(t),
        id_for_name(t, name) == Some(id),
    ensures
        name_for_id(t, id) == Some(name),
{
    let i = choose|i: int| first_with_name(t, i, name);
    assert forall|j: int| 0 <= j < i implies (#[trigger] t[j]).0 != id by {
        lemma_increasing_ids_distinct(t, j, i);
    }
    assert(first_with_id(t, i, id));
    let c = choose|c: int| first_with_id(t, c, id);
    lemma_first_with_id_unique(t, i, c, id);
}

proof fn lemma_id_then_name(t: Seq<(i32, Seq<char>)>, id: i32, name: Seq<char>)
    requires
        names_distinct(t),
        name_for_id(t, id) == Some(name),
    ensures
        id_for_name(t, name) == Some(id),
{
    let i = choose|i: int| first_with_id(t, i, id);
    assert forall|j: int| 0 <= j < i implies (#[trigger] t[j]).1 != name by {
        assert(t[j].1 != t[i].1);
    }
    assert(first_with_name(t, i, name));
    let c = choose|c: int| first_with_name(t, c, name);
    lemma_first_with_name_unique(t, i, c, name);
}

/// Looking a pathway up by name and then its identifier up again gives the
/// name back: `pathway_name(pathway_id(n)) == n`.
pub proof fn law_pathway_name_of_id_of_name(name: Seq<char>, id: i32)
    requires
        id_for_name(pathway_table(), name) == Some(id),
    ensures
        name_for_id(pathway_table(), id) == Some(name),
{
    lemma_pathway_ids_increasing();
    lemma_name_then_id(pathway_table(), name, id);
}

/// Looking a risk factor up by name (or alias) and then its identifier up
/// again gives the canonical name: `risk_factor_name(risk_factor_id(n))`
/// is the canonical form of `n`.
pub proof fn law_risk_factor_name_of_id_of_name(name: Seq<char>, id: i32)
    requires
        id_for_name(risk_factor_table(), canonical_risk_factor_name(name)) == Some(id),
    ensures
        name_for_id(risk_factor_table(), id) == Some(canonical_risk_factor_name(name)),
{
    lemma_risk_factor_ids_increasing();
    lemma_name_then_id(risk_factor_table(), canonical_risk_factor_name(name), id);
}

proof fn lemma_pathway_names_distinct()
    ensures
        names_distinct(pathway_table()),
{
    reveal_strlit("SV");
    reveal_strlit("Hot House");
    reveal_strlit("Paris");
    reveal_strlit("NDC");
    reveal_strlit("ssp126");
    reveal_strlit("ssp245");
    reveal_strlit("ssp370");
    reveal_strlit("ssp585");
    reveal_strlit("<2 degrees");
    reveal_strlit("2-3 degrees");
    reveal_strlit("3-4 degrees");
    reveal_strlit(">4 degrees");
    reveal_strlit("historic");
    reveal_strlit("ssp434");
    reveal_strlit("ssp119");
    reveal_strlit("ssp460");
    assert(pathway_table()[0].1 == "SV"@);
    assert(pathway_table()[1].1 == "Hot House"@);
    assert(pathway_table()[2].1 == "Paris"@);
    assert(pathway_table()[3].1 == "NDC"@);
    assert(pathway_table()[4].1 == "ssp126"@);
    assert(pathway_table()[5].1 == "ssp245"@);
    assert(pathway_table()[6].1 == "ssp370"@);
    assert(pathway_table()[7].1 == "ssp585"@);
    assert(pathway_table()[8].1 == "<2 degrees"@);
    assert(pathway_table()[9].1 == "2-3 degrees"@);
    assert(pathway_table()[10].1 == "3-4 degrees"@);
    assert(pathway_table()[11].1 == ">4 degrees"@);
    assert(pathway_table()[12].1 == "historic"@);
    assert(pathway_table()[13].1 == "ssp434"@);
    assert(pathway_table()[14].1 == "ssp119"@);
    assert(pathway_table()[15].1 == "ssp460"@);
    assert("SV"@ != "Hot House"@);
    assert("SV"@ != "Paris"@);
    assert("SV"@ != "NDC"@);
    assert("SV"@ != "ssp126"@);
    assert("SV"@ != "ssp245"@);
    assert("SV"@ != "ssp370"@);
    assert("SV"@ != "ssp585"@);
    assert("SV"@ != "<2 degrees"@);
    assert("SV"@ != "2-3 degrees"@);
    assert("SV"@ != "3-4 degrees"@);
    assert("SV"@ != ">4 degrees"@);
    assert("SV"@ != "historic"@);
    assert("SV"@ != "ssp434"@);
    assert("SV"@ != "ssp119"@);
    assert("SV"@ != "ssp460"@);
    assert("Hot House"@ != "Paris"@);
    assert("Hot House"@ != "NDC"@);
    assert("Hot House"@ != "ssp126"@);
    assert("Hot House"@ != "ssp245"@);
    assert("Hot House"@ != "ssp370"@);
    assert("Hot House"@ != "ssp585"@);
    assert("Hot House"@ != "<2 degrees"@);
    assert("Hot House"@ != "2-3 degrees"@);
    assert("Hot House"@ != "3-4 degrees"@);
    assert("Hot House"@ != ">4 degrees"@);
    assert("Hot House"@ != "historic"@);
    assert("Hot House"@ != "ssp434"@);
    assert("Hot House"@ != "ssp119"@);
    assert("Hot House"@ != "ssp460"@);
    assert("Paris"@ != "NDC"@);
    assert("Paris"@ != "ssp126"@);
    assert("Paris"@ != "ssp245"@);
    assert("Paris"@ != "ssp370"@);
    assert("Paris"@ != "ssp585"@);
    assert("Paris"@ != "<2 degrees"@);
    assert("Paris"@ != "2-3 degrees"@);
    assert("Paris"@ != "3-4 degrees"@);
    assert("Paris"@ != ">4 degrees"@);
    assert("Paris"@ != "historic"@);
    assert("Paris"@ != "ssp434"@);
    assert("Paris"@ != "ssp119"@);
    assert("Paris"@ != "ssp460"@);
    assert("NDC"@ != "ssp126"@);
    assert("NDC"@ != "ssp245"@);
    assert("NDC"@ != "ssp370"@);
    assert("NDC"@ != "ssp585"@);
    assert("NDC"@ != "<2 degrees"@);
    assert("NDC"@ != "2-3 degrees"@);
    assert("NDC"@ != "3-4 degrees"@);
    assert("NDC"@ != ">4 degrees"@);
    assert("NDC"@ != "historic"@);
    assert("NDC"@ != "ssp434"@);
    assert("NDC"@ != "ssp119"@);
    assert("NDC"@ != "ssp460"@);
    assert("ssp126"@[3] != "ssp245"@[3]);
    assert("ssp126"@ != "ssp245"@);
    assert("ssp126"@[3] != "ssp370"@[3]);
    assert("ssp126"@ != "ssp370"@);
    assert("ssp126"@[3] != "ssp585"@[3]);
    assert("ssp126"@ != "ssp585"@);
    assert("ssp126"@ != "<2 degrees"@);
    assert("ssp126"@ != "2-3 degrees"@);
    assert("ssp126"@ != "3-4 degrees"@);
    assert("ssp126"@ != ">4 degrees"@);
    assert("ssp126"@ != "historic"@);
    assert("ssp126"@[3] != "ssp434"@[3]);
    assert("ssp126"@ != "ssp434"@);
    assert("ssp126"@[4] != "ssp119"@[4]);
    assert("ssp126"@ != "ssp119"@);
    assert("ssp126"@[3] != "ssp460"@[3]);
    assert("ssp126"@ != "ssp460"@);
    assert("ssp245"@[3] != "ssp370"@[3]);
    assert("ssp245"@ != "ssp370"@);
    assert("ssp245"@[3] != "ssp585"@[3]);
    assert("ssp245"@ != "ssp585"@);
    assert("ssp245"@ != "<2 degrees"@);
    assert("ssp245"@ != "2-3 degrees"@);
    assert("ssp245"@ != "3-4 degrees"@);
    assert("ssp245"@ != ">4 degrees"@);
    assert("ssp245"@ != "historic"@);
    assert("ssp245"@[3] != "ssp434"@[3]);
    assert("ssp245"@ != "ssp434"@);
    assert("ssp245"@[3] != "ssp119"@[3]);
    assert("ssp245"@ != "ssp119"@);
    assert("ssp245"@[3] != "ssp460"@[3]);
    assert("ssp245"@ != "ssp460"@);
    assert("ssp370"@[3] != "ssp585"@[3]);
    assert("ssp370"@ != "ssp585"@);
    assert("ssp370"@ != "<2 degrees"@);
    assert("ssp370"@ != "2-3 degrees"@);
    assert("ssp370"@ != "3-4 degrees"@);
    assert("ssp370"@ != ">4 degrees"@);
    assert("ssp370"@ != "historic"@);
    assert("ssp370"@[3] != "ssp434"@[3]);
    assert("ssp370"@ != "ssp434"@);
    assert("ssp370"@[3] != "ssp119"@[3]);
    assert("ssp370"@ != "ssp119"@);
    assert("ssp370"@[3] != "ssp460"@[3]);
    assert("ssp370"@ != "ssp460"@);
    assert("ssp585"@ != "<2 degrees"@);
    assert("ssp585"@ != "2-3 degrees"@);
    assert("ssp585"@ != "3-4 degrees"@);
    assert("ssp585"@ != ">4 degrees"@);
    assert("ssp585"@ != "historic"@);
    assert("ssp585"@[3] != "ssp434"@[3]);
    assert("ssp585"@ != "ssp434"@);
    assert("ssp585"@[3] != "ssp119"@[3]);
    assert("ssp585"@ != "ssp119"@);
    assert("ssp585"@[3] != "ssp460"@[3]);
    assert("ssp585"@ != "ssp460"@);
    assert("<2 degrees"@ != "2-3 degrees"@);
    assert("<2 degrees"@ != "3-4 degrees"@);
    assert("<2 degrees"@[0] != ">4 degrees"@[0]);
    assert("<2 degrees"@ != ">4 degrees"@);
    assert("<2 degrees"@ != "historic"@);
    assert("<2 degrees"@ != "ssp434"@);
    assert("<2 degrees"@ != "ssp119"@);
    assert("<2 degrees"@ != "ssp460"@);
    assert("2-3 degrees"@[0] != "3-4 degrees"@[0]);
    assert("2-3 degrees"@ != "3-4 degrees"@);
    assert("2-3 degrees"@ != ">4 degrees"@);
    assert("2-3 degrees"@ != "historic"@);
    assert("2-3 degrees"@ != "ssp434"@);
    assert("2-3 degrees"@ != "ssp119"@);
    assert("2-3 degrees"@ != "ssp460"@);
    assert("3-4 degrees"@ != ">4 degrees"@);
    assert("3-4 degrees"@ != "historic"@);
    assert("3-4 degrees"@ != "ssp434"@);
    assert("3-4 degrees"@ != "ssp119"@);
    assert("3-4 degrees"@ != "ssp460"@);
    assert(">4 degrees"@ != "historic"@);
    assert(">4 degrees"@ != "ssp434"@);
    assert(">4 degrees"@ != "ssp119"@);
    assert(">4 degrees"@ != "ssp460"@);
    assert("historic"@ != "ssp434"@);
    assert("historic"@ != "ssp119"@);
    assert("historic"@ != "ssp460"@);
    assert("ssp434"@[3] != "ssp119"@[3]);
    assert("ssp434"@ != "ssp119"@);
    assert("ssp434"@[4] != "ssp460"@[4]);
    assert("ssp434"@ != "ssp460"@);
    assert("ssp119"@[3] != "ssp460"@[3]);
    assert("ssp119"@ != "ssp460"@);
}

/// Looking a pathway up by identifier and then its name up again gives the
/// identifier back: `pathway_id(pathway_name(id)) == id`.
pub proof fn law_pathway_id_of_name_of_id(id: i32, name: Seq<char>)
    requires
        name_for_id(pathway_table(), id) == Some(name),
    ensures
        id_for_name(pathway_table(), name) == Some(id),
{
    lemma_pathway_names_distinct();
    lemma_id_then_name(pathway_table(), id, name);
}

proof fn lemma_risk_factor_names_distinct()
    ensures
        names_distinct(risk_factor_table()),
{
    reveal_strlit("daily_freezethaw_cycles");
    reveal_strlit("frost_days");
    reveal_strlit("cyclone");
    reveal_strlit("fwi");
    reveal_strlit("rx1day");
    reveal_strlit("wind_max_daily_max");
    reveal_strlit("carbon_price");
    reveal_strlit("hot_days");
    reveal_strlit("cflood");
    reveal_strlit("rflood");
    reveal_strlit("inundation");
    reveal_strlit("spei");
    reveal_strlit("dc");
    reveal_strlit("dmc");
    reveal_strlit("ffmc");
    reveal_strlit("isi");
    reveal_strlit("bui");
    reveal_strlit("rx5day");
    reveal_strlit("wind_max_daily_mean");
    reveal_strlit("cooling_degree_days");
    reveal_strlit("tg_max");
    reveal_strlit("tg_mean");
    reveal_strlit("tg_min");
    reveal_strlit("tx_max");
    reveal_strlit("tx_mean");
    reveal_strlit("tx_min");
    reveal_strlit("tn_max");
    reveal_strlit("tn_mean");
    reveal_strlit("tn_min");
    reveal_strlit("sdii");
    reveal_strlit("liquidprcptot");
    reveal_strlit("solidprcptot");
    reveal_strlit("prcptot");
    reveal_strlit("pet");
    reveal_strlit("water_budget");
    reveal_strlit("dtrmax");
    reveal_strlit("dtrvar");
    reveal_strlit("etr");
    reveal_strlit("calm_days");
    reveal_strlit("corn_heat_units");
    reveal_strlit("wbgt");
    reveal_strlit("windchill");
    reveal_strlit("heat_index");
    reveal_strlit("heat_wave_frequency");
    reveal_strlit("heat_wave_total_length");
    reveal_strlit("heat_wave_max_length");
    reveal_strlit("heat_wave_index");
    reveal_strlit("hot_spell_frequency");
    reveal_strlit("hot_spell_max_length");
    reveal_strlit("maximum_consecutive_frost_days");
    reveal_strlit("cold_spell_days");
    reveal_strlit("cold_spell_frequency");
    reveal_strlit("maximum_consecutive_wet_days");
    reveal_strlit("maximum_consecutive_dry_days");
    reveal_strlit("at");
    reveal_strlit("summer_days");
    reveal_strlit("tropical_nights");
    reveal_strlit("humidex");
    reveal_strlit("heating_degree_days");
    reveal_strlit("growing_degree_days");
    reveal_strlit("ice_days");
    reveal_strlit("dry_days");
    reveal_strlit("wet_days");
    reveal_strlit("dtr");
    assert(risk_factor_table()[0].1 == "daily_freezethaw_cycles"@);
    assert(risk_factor_table()[1].1 == "frost_days"@);
    assert(risk_factor_table()[2].1 == "cyclone"@);
    assert(risk_factor_table()[3].1 == "fwi"@);
    assert(risk_factor_table()[4].1 == "rx1day"@);
    assert(risk_factor_table()[5].1 == "wind_max_daily_max"@);
    assert(risk_factor_table()[6].1 == "carbon_price"@);
    assert(risk_factor_table()[7].1 == "hot_days"@);
    assert(risk_factor_table()[8].1 == "cflood"@);
    assert(risk_factor_table()[9].1 == "rflood"@);
    assert(risk_factor_table()[10].1 == "inundation"@);
    assert(risk_factor_table()[11].1 == "spei"@);
    assert(risk_factor_table()[12].1 == "dc"@);
    assert(risk_factor_table()[13].1 == "dmc"@);
    assert(risk_factor_table()[14].1 == "ffmc"@);
    assert(risk_factor_table()[15].1 == "isi"@);
    assert(risk_factor_table()[16].1 == "bui"@);
    assert(risk_factor_table()[17].1 == "rx5day"@);
    assert(risk_factor_table()[18].1 == "wind_max_daily_mean"@);
    assert(risk_factor_table()[19].1 == "cooling_degree_days"@);
    assert(risk_factor_table()[20].1 == "tg_max"@);
    assert(risk_factor_table()[21].1 == "tg_mean"@);
    assert(risk_factor_table()[22].1 == "tg_min"@);
    assert(risk_factor_table()[23].1 == "tx_max"@);
    assert(risk_factor_table()[24].1 == "tx_mean"@);
    assert(risk_factor_table()[25].1 == "tx_min"@);
    assert(risk_factor_table()[26].1 == "tn_max"@);
    assert(risk_factor_table()[27].1 == "tn_mean"@);
    assert(risk_factor_table()[28].1 == "tn_min"@);
    assert(risk_factor_table()[29].1 == "sdii"@);
    assert(risk_factor_table()[30].1 == "liquidprcptot"@);
    assert(risk_factor_table()[31].1 == "solidprcptot"@);
    assert(risk_factor_table()[32].1 == "prcptot"@);
    assert(risk_factor_table()[33].1 == "pet"@);
    assert(risk_factor_table()[34].1 == "water_budget"@);
    assert(risk_factor_table()[35].1 == "dtrmax"@);
    assert(risk_factor_table()[36].1 == "dtrvar"@);
    assert(risk_factor_table()[37].1 == "etr"@);
    assert(risk_factor_table()[38].1 == "calm_days"@);
    assert(risk_factor_table()[39].1 == "corn_heat_units"@);
    assert(risk_factor_table()[40].1 == "wbgt"@);
    assert(risk_factor_table()[41].1 == "windchill"@);
    assert(risk_factor_table()[42].1 == "heat_index"@);
    assert(risk_factor_table()[43].1 == "heat_wave_frequency"@);
    assert(risk_factor_table()[44].1 == "heat_wave_total_length"@);
    assert(risk_factor_table()[45].1 == "heat_wave_max_length"@);
    assert(risk_factor_table()[46].1 == "heat_wave_index"@);
    assert(risk_factor_table()[47].1 == "hot_spell_frequency"@);
    assert(risk_factor_table()[48].1 == "hot_spell_max_length"@);
    assert(risk_factor_table()[49].1 == "maximum_consecutive_frost_days"@);
    assert(risk_factor_table()[50].1 == "cold_spell_days"@);
    assert(risk_factor_table()[51].1 == "cold_spell_frequency"@);
    assert(risk_factor_table()[52].1 == "maximum_consecutive_wet_days"@);
    assert(risk_factor_table()[53].1 == "maximum_consecutive_dry_days"@);
    assert(risk_factor_table()[54].1 == "at"@);
    assert(risk_factor_table()[55].1 == "summer_days"@);
    assert(risk_factor_table()[56].1 == "tropical_nights"@);
    assert(risk_factor_table()[57].1 == "humidex"@);
    assert(risk_factor_table()[58].1 == "heating_degree_days"@);
    assert(risk_factor_table()[59].1 == "growing_degree_days"@);
    assert(risk_factor_table()[60].1 == "ice_days"@);
    assert(risk_factor_table()[61].1 == "dry_days"@);
    assert(risk_factor_table()[62].1 == "wet_days"@);
    assert(risk_factor_table()[63].1 == "dtr"@);
    assert("daily_freezethaw_cycles"@.len() == 23);
    assert("frost_days"@.len() == 10);
    assert("cyclone"@.len() == 7);
    assert("fwi"@.len() == 3);
    assert("rx1day"@.len() == 6);
    assert("wind_max_daily_max"@.len() == 18);
    assert("carbon_price"@.len() == 12);
    assert("hot_days"@.len() == 8);
    assert("cflood"@.len() == 6);
    assert("rflood"@.len() == 6);
    assert("inundation"@.len() == 10);
    assert("spei"@.len() == 4);
    assert("dc"@.len() == 2);
    assert("dmc"@.len() == 3);
    assert("ffmc"@.len() == 4);
    assert("isi"@.len() == 3);
    assert("bui"@.len() == 3);
    assert("rx5day"@.len() == 6);
    assert("wind_max_daily_mean"@.len() == 19);
    assert("cooling_degree_days"@.len() == 19);
    assert("tg_max"@.len() == 6);
    assert("tg_mean"@.len() == 7);
    assert("tg_min"@.len() == 6);
    assert("tx_max"@.len() == 6);
    assert("tx_mean"@.len() == 7);
    assert("tx_min"@.len() == 6);
    assert("tn_max"@.len() == 6);
    assert("tn_mean"@.len() == 7);
    assert("tn_min"@.len() == 6);
    assert("sdii"@.len() == 4);
    assert("liquidprcptot"@.len() == 13);
    assert("solidprcptot"@.len() == 12);
    assert("prcptot"@.len() == 7);
    assert("pet"@.len() == 3);
    assert("water_budget"@.len() == 12);
    assert("dtrmax"@.len() == 6);
    assert("dtrvar"@.len() == 6);
    assert("etr"@.len() == 3);
    assert("calm_days"@.len() == 9);
    assert("corn_heat_units"@.len() == 15);
    assert("wbgt"@.len() == 4);
    assert("windchill"@.len() == 9);
    assert("heat_index"@.len() == 10);
    assert("heat_wave_frequency"@.len() == 19);
    assert("heat_wave_total_length"@.len() == 22);
    assert("heat_wave_max_length"@.len() == 20);
    assert("heat_wave_index"@.len() == 15);
    assert("hot_spell_frequency"@.len() == 19);
    assert("hot_spell_max_length"@.len() == 20);
    assert("maximum_consecutive_frost_days"@.len() == 30);
    assert("cold_spell_days"@.len() == 15);
    assert("cold_spell_frequency"@.len() == 20);
    assert("maximum_consecutive_wet_days"@.len() == 28);
    assert("maximum_consecutive_dry_days"@.len() == 28);
    assert("at"@.len() == 2);
    assert("summer_days"@.len() == 11);
    assert("tropical_nights"@.len() == 15);
    assert("humidex"@.len() == 7);
    assert("heating_degree_days"@.len() == 19);
    assert("growing_degree_days"@.len() == 19);
    assert("ice_days"@.len() == 8);
    assert("dry_days"@.len() == 8);
    assert("wet_days"@.len() == 8);
    assert("dtr"@.len() == 3);
    assert("frost_days"@[0] != "inundation"@[0]);
    assert("frost_days"@[0] != "heat_index"@[0]);
    assert("cyclone"@[0] != "tg_mean"@[0]);
    assert("cyclone"@[0] != "tx_mean"@[0]);
    assert("cyclone"@[0] != "tn_mean"@[0]);
    assert("cyclone"@[0] != "prcptot"@[0]);
    assert("cyclone"@[0] != "humidex"@[0]);
    assert("fwi"@[0] != "dmc"@[0]);
    assert("fwi"@[0] != "isi"@[0]);
    assert("fwi"@[0] != "bui"@[0]);
    assert("fwi"@[0] != "pet"@[0]);
    assert("fwi"@[0] != "etr"@[0]);
    assert("fwi"@[0] != "dtr"@[0]);
    assert("rx1day"@[0] != "cflood"@[0]);
    assert("rx1day"@[1] != "rflood"@[1]);
    assert("rx1day"@[2] != "rx5day"@[2]);
    assert("rx1day"@[0] != "tg_max"@[0]);
    assert("rx1day"@[0] != "tg_min"@[0]);
    assert("rx1day"@[0] != "tx_max"@[0]);
    assert("rx1day"@[0] != "tx_min"@[0]);
    assert("rx1day"@[0] != "tn_max"@[0]);
    assert("rx1day"@[0] != "tn_min"@[0]);
    assert("rx1day"@[0] != "dtrmax"@[0]);
    assert("rx1day"@[0] != "dtrvar"@[0]);
    assert("carbon_price"@[0] != "solidprcptot"@[0]);
    assert("carbon_price"@[0] != "water_budget"@[0]);
    assert("hot_days"@[0] != "ice_days"@[0]);
    assert("hot_days"@[0] != "dry_days"@[0]);
    assert("hot_days"@[0] != "wet_days"@[0]);
    assert("cflood"@[0] != "rflood"@[0]);
    assert("cflood"@[0] != "rx5day"@[0]);
    assert("cflood"@[0] != "tg_max"@[0]);
    assert("cflood"@[0] != "tg_min"@[0]);
    assert("cflood"@[0] != "tx_max"@[0]);
    assert("cflood"@[0] != "tx_min"@[0]);
    assert("cflood"@[0] != "tn_max"@[0]);
    assert("cflood"@[0] != "tn_min"@[0]);
    assert("cflood"@[0] != "dtrmax"@[0]);
    assert("cflood"@[0] != "dtrvar"@[0]);
    assert("rflood"@[1] != "rx5day"@[1]);
    assert("rflood"@[0] != "tg_max"@[0]);
    assert("rflood"@[0] != "tg_min"@[0]);
    assert("rflood"@[0] != "tx_max"@[0]);
    assert("rflood"@[0] != "tx_min"@[0]);
    assert("rflood"@[0] != "tn_max"@[0]);
    assert("rflood"@[0] != "tn_min"@[0]);
    assert("rflood"@[0] != "dtrmax"@[0]);
    assert("rflood"@[0] != "dtrvar"@[0]);
    assert("inundation"@[0] != "heat_index"@[0]);
    assert("spei"@[0] != "ffmc"@[0]);
    assert("spei"@[1] != "sdii"@[1]);
    assert("spei"@[0] != "wbgt"@[0]);
    assert("dc"@[0] != "at"@[0]);
    assert("dmc"@[0] != "isi"@[0]);
    assert("dmc"@[0] != "bui"@[0]);
    assert("dmc"@[0] != "pet"@[0]);
    assert("dmc"@[0] != "etr"@[0]);
    assert("dmc"@[1] != "dtr"@[1]);
    assert("ffmc"@[0] != "sdii"@[0]);
    assert("ffmc"@[0] != "wbgt"@[0]);
    assert("isi"@[0] != "bui"@[0]);
    assert("isi"@[0] != "pet"@[0]);
    assert("isi"@[0] != "etr"@[0]);
    assert("isi"@[0] != "dtr"@[0]);
    assert("bui"@[0] != "pet"@[0]);
    assert("bui"@[0] != "etr"@[0]);
    assert("bui"@[0] != "dtr"@[0]);
    assert("rx5day"@[0] != "tg_max"@[0]);
    assert("rx5day"@[0] != "tg_min"@[0]);
    assert("rx5day"@[0] != "tx_max"@[0]);
    assert("rx5day"@[0] != "tx_min"@[0]);
    assert("rx5day"@[0] != "tn_max"@[0]);
    assert("rx5day"@[0] != "tn_min"@[0]);
    assert("rx5day"@[0] != "dtrmax"@[0]);
    assert("rx5day"@[0] != "dtrvar"@[0]);
    assert("wind_max_daily_mean"@[0] != "cooling_degree_days"@[0]);
    assert("wind_max_daily_mean"@[0] != "heat_wave_frequency"@[0]);
    assert("wind_max_daily_mean"@[0] != "hot_spell_frequency"@[0]);
    assert("wind_max_daily_mean"@[0] != "heating_degree_days"@[0]);
    assert("wind_max_daily_mean"@[0] != "growing_degree_days"@[0]);
    assert("cooling_degree_days"@[0] != "heat_wave_frequency"@[0]);
    assert("cooling_degree_days"@[0] != "hot_spell_frequency"@[0]);
    assert("cooling_degree_days"@[0] != "heating_degree_days"@[0]);
    assert("cooling_degree_days"@[0] != "growing_degree_days"@[0]);
    assert("tg_max"@[4] != "tg_min"@[4]);
    assert("tg_max"@[1] != "tx_max"@[1]);
    assert("tg_max"@[1] != "tx_min"@[1]);
    assert("tg_max"@[1] != "tn_max"@[1]);
    assert("tg_max"@[1] != "tn_min"@[1]);
    assert("tg_max"@[0] != "dtrmax"@[0]);
    assert("tg_max"@[0] != "dtrvar"@[0]);
    assert("tg_mean"@[1] != "tx_mean"@[1]);
    assert("tg_mean"@[1] != "tn_mean"@[1]);
    assert("tg_mean"@[0] != "prcptot"@[0]);
    assert("tg_mean"@[0] != "humidex"@[0]);
    assert("tg_min"@[1] != "tx_max"@[1]);
    assert("tg_min"@[1] != "tx_min"@[1]);
    assert("tg_min"@[1] != "tn_max"@[1]);
    assert("tg_min"@[1] != "tn_min"@[1]);
    assert("tg_min"@[0] != "dtrmax"@[0]);
    assert("tg_min"@[0] != "dtrvar"@[0]);
    assert("tx_max"@[4] != "tx_min"@[4]);
    assert("tx_max"@[1] != "tn_max"@[1]);
    assert("tx_max"@[1] != "tn_min"@[1]);
    assert("tx_max"@[0] != "dtrmax"@[0]);
    assert("tx_max"@[0] != "dtrvar"@[0]);
    assert("tx_mean"@[1] != "tn_mean"@[1]);
    assert("tx_mean"@[0] != "prcptot"@[0]);
    assert("tx_mean"@[0] != "humidex"@[0]);
    assert("tx_min"@[1] != "tn_max"@[1]);
    assert("tx_min"@[1] != "tn_min"@[1]);
    assert("tx_min"@[0] != "dtrmax"@[0]);
    assert("tx_min"@[0] != "dtrvar"@[0]);
    assert("tn_max"@[4] != "tn_min"@[4]);
    assert("tn_max"@[0] != "dtrmax"@[0]);
    assert("tn_max"@[0] != "dtrvar"@[0]);
    assert("tn_mean"@[0] != "prcptot"@[0]);
    assert("tn_mean"@[0] != "humidex"@[0]);
    assert("tn_min"@[0] != "dtrmax"@[0]);
    assert("tn_min"@[0] != "dtrvar"@[0]);
    assert("sdii"@[0] != "wbgt"@[0]);
    assert("solidprcptot"@[0] != "water_budget"@[0]);
    assert("prcptot"@[0] != "humidex"@[0]);
    assert("pet"@[0] != "etr"@[0]);
    assert("pet"@[0] != "dtr"@[0]);
    assert("dtrmax"@[3] != "dtrvar"@[3]);
    assert("etr"@[0] != "dtr"@[0]);
    assert("calm_days"@[0] != "windchill"@[0]);
    assert("corn_heat_units"@[0] != "heat_wave_index"@[0]);
    assert("corn_heat_units"@[2] != "cold_spell_days"@[2]);
    assert("corn_heat_units"@[0] != "tropical_nights"@[0]);
    assert("heat_wave_frequency"@[1] != "hot_spell_frequency"@[1]);
    assert("heat_wave_frequency"@[4] != "heating_degree_days"@[4]);
    assert("heat_wave_frequency"@[0] != "growing_degree_days"@[0]);
    assert("heat_wave_max_length"@[1] != "hot_spell_max_length"@[1]);
    assert("heat_wave_max_length"@[0] != "cold_spell_frequency"@[0]);
    assert("heat_wave_index"@[0] != "cold_spell_days"@[0]);
    assert("heat_wave_index"@[0] != "tropical_nights"@[0]);
    assert("hot_spell_frequency"@[1] != "heating_degree_days"@[1]);
    assert("hot_spell_frequency"@[0] != "growing_degree_days"@[0]);
    assert("hot_spell_max_length"@[0] != "cold_spell_frequency"@[0]);
    assert("cold_spell_days"@[0] != "tropical_nights"@[0]);
    assert("maximum_consecutive_wet_days"@[20] != "maximum_consecutive_dry_days"@[20]);
    assert("heating_degree_days"@[0] != "growing_degree_days"@[0]);
    assert("ice_days"@[0] != "dry_days"@[0]);
    assert("ice_days"@[0] != "wet_days"@[0]);
    assert("dry_days"@[0] != "wet_days"@[0]);
}

proof fn lemma_risk_factor_names_canonical()
    ensures
        forall|k: int|
            0 <= k < risk_factor_table().len() ==> canonical_risk_factor_name(
                #[trigger] risk_factor_table()[k].1,
            ) == risk_factor_table()[k].1,
{
    reveal_strlit("daily_freezethaw_cycles");
    reveal_strlit("frost_days");
    reveal_strlit("cyclone");
    reveal_strlit("fwi");
    reveal_strlit("rx1day");
    reveal_strlit("wind_max_daily_max");
    reveal_strlit("carbon_price");
    reveal_strlit("hot_days");
    reveal_strlit("cflood");
    reveal_strlit("rflood");
    reveal_strlit("inundation");
    reveal_strlit("spei");
    reveal_strlit("dc");
    reveal_strlit("dmc");
    reveal_strlit("ffmc");
    reveal_strlit("isi");
    reveal_strlit("bui");
    reveal_strlit("rx5day");
    reveal_strlit("wind_max_daily_mean");
    reveal_strlit("cooling_degree_days");
    reveal_strlit("tg_max");
    reveal_strlit("tg_mean");
    reveal_strlit("tg_min");
    reveal_strlit("tx_max");
    reveal_strlit("tx_mean");
    reveal_strlit("tx_min");
    reveal_strlit("tn_max");
    reveal_strlit("tn_mean");
    reveal_strlit("tn_min");
    reveal_strlit("sdii");
    reveal_strlit("liquidprcptot");
    reveal_strlit("solidprcptot");
    reveal_strlit("prcptot");
    reveal_strlit("pet");
    reveal_strlit("water_budget");
    reveal_strlit("dtrmax");
    reveal_strlit("dtrvar");
    reveal_strlit("etr");
    reveal_strlit("calm_days");
    reveal_strlit("corn_heat_units");
    reveal_strlit("wbgt");
    reveal_strlit("windchill");
    reveal_strlit("heat_index");
    reveal_strlit("heat_wave_frequency");
    reveal_strlit("heat_wave_total_length");
    reveal_strlit("heat_wave_max_length");
    reveal_strlit("heat_wave_index");
    reveal_strlit("hot_spell_frequency");
    reveal_strlit("hot_spell_max_length");
    reveal_strlit("maximum_consecutive_frost_days");
    reveal_strlit("cold_spell_days");
    reveal_strlit("cold_spell_frequency");
    reveal_strlit("maximum_consecutive_wet_days");
    reveal_strlit("maximum_consecutive_dry_days");
    reveal_strlit("at");
    reveal_strlit("summer_days");
    reveal_strlit("tropical_nights");
    reveal_strlit("humidex");
    reveal_strlit("heating_degree_days");
    reveal_strlit("growing_degree_days");
    reveal_strlit("ice_days");
    reveal_strlit("dry_days");
    reveal_strlit("wet_days");
    reveal_strlit("dtr");
    reveal_strlit("dlyfrzthw");
    reveal_strlit("cflood_rp50");
    reveal_strlit("rflood_rp50");
    reveal_strlit("slr");
    assert(risk_factor_table()[0].1 == "daily_freezethaw_cycles"@);
    assert(risk_factor_table()[1].1 == "frost_days"@);
    assert(risk_factor_table()[2].1 == "cyclone"@);
    assert(risk_factor_table()[3].1 == "fwi"@);
    assert(risk_factor_table()[4].1 == "rx1day"@);
    assert(risk_factor_table()[5].1 == "wind_max_daily_max"@);
    assert(risk_factor_table()[6].1 == "carbon_price"@);
    assert(risk_factor_table()[7].1 == "hot_days"@);
    assert(risk_factor_table()[8].1 == "cflood"@);
    assert(risk_factor_table()[9].1 == "rflood"@);
    assert(risk_factor_table()[10].1 == "inundation"@);
    assert(risk_factor_table()[11].1 == "spei"@);
    assert(risk_factor_table()[12].1 == "dc"@);
    assert(risk_factor_table()[13].1 == "dmc"@);
    assert(risk_factor_table()[14].1 == "ffmc"@);
    assert(risk_factor_table()[15].1 == "isi"@);
    assert(risk_factor_table()[16].1 == "bui"@);
    assert(risk_factor_table()[17].1 == "rx5day"@);
    assert(risk_factor_table()[18].1 == "wind_max_daily_mean"@);
    assert(risk_factor_table()[19].1 == "cooling_degree_days"@);
    assert(risk_factor_table()[20].1 == "tg_max"@);
    assert(risk_factor_table()[21].1 == "tg_mean"@);
    assert(risk_factor_table()[22].1 == "tg_min"@);
    assert(risk_factor_table()[23].1 == "tx_max"@);
    assert(risk_factor_table()[24].1 == "tx_mean"@);
    assert(risk_factor_table()[25].1 == "tx_min"@);
    assert(risk_factor_table()[26].1 == "tn_max"@);
    assert(risk_factor_table()[27].1 == "tn_mean"@);
    assert(risk_factor_table()[28].1 == "tn_min"@);
    assert(risk_factor_table()[29].1 == "sdii"@);
    assert(risk_factor_table()[30].1 == "liquidprcptot"@);
    assert(risk_factor_table()[31].1 == "solidprcptot"@);
    assert(risk_factor_table()[32].1 == "prcptot"@);
    assert(risk_factor_table()[33].1 == "pet"@);
    assert(risk_factor_table()[34].1 == "water_budget"@);
    assert(risk_factor_table()[35].1 == "dtrmax"@);
    assert(risk_factor_table()[36].1 == "dtrvar"@);
    assert(risk_factor_table()[37].1 == "etr"@);
    assert(risk_factor_table()[38].1 == "calm_days"@);
    assert(risk_factor_table()[39].1 == "corn_heat_units"@);
    assert(risk_factor_table()[40].1 == "wbgt"@);
    assert(risk_factor_table()[41].1 == "windchill"@);
    assert(risk_factor_table()[42].1 == "heat_index"@);
    assert(risk_factor_table()[43].1 == "heat_wave_frequency"@);
    assert(risk_factor_table()[44].1 == "heat_wave_total_length"@);
    assert(risk_factor_table()[45].1 == "heat_wave_max_length"@);
    assert(risk_factor_table()[46].1 == "heat_wave_index"@);
    assert(risk_factor_table()[47].1 == "hot_spell_frequency"@);
    assert(risk_factor_table()[48].1 == "hot_spell_max_length"@);
    assert(risk_factor_table()[49].1 == "maximum_consecutive_frost_days"@);
    assert(risk_factor_table()[50].1 == "cold_spell_days"@);
    assert(risk_factor_table()[51].1 == "cold_spell_frequency"@);
    assert(risk_factor_table()[52].1 == "maximum_consecutive_wet_days"@);
    assert(risk_factor_table()[53].1 == "maximum_consecutive_dry_days"@);
    assert(risk_factor_table()[54].1 == "at"@);
    assert(risk_factor_table()[55].1 == "summer_days"@);
    assert(risk_factor_table()[56].1 == "tropical_nights"@);
    assert(risk_factor_table()[57].1 == "humidex"@);
    assert(risk_factor_table()[58].1 == "heating_degree_days"@);
    assert(risk_factor_table()[59].1 == "growing_degree_days"@);
    assert(risk_factor_table()[60].1 == "ice_days"@);
    assert(risk_factor_table()[61].1 == "dry_days"@);
    assert(risk_factor_table()[62].1 == "wet_days"@);
    assert(risk_factor_table()[63].1 == "dtr"@);
    assert("daily_freezethaw_cycles"@.len() == 23);
    assert("frost_days"@.len() == 10);
    assert("cyclone"@.len() == 7);
    assert("fwi"@.len() == 3);
    assert("rx1day"@.len() == 6);
    assert("wind_max_daily_max"@.len() == 18);
    assert("carbon_price"@.len() == 12);
    assert("hot_days"@.len() == 8);
    assert("cflood"@.len() == 6);
    assert("rflood"@.len() == 6);
    assert("inundation"@.len() == 10);
    assert("spei"@.len() == 4);
    assert("dc"@.len() == 2);
    assert("dmc"@.len() == 3);
    assert("ffmc"@.len() == 4);
    assert("isi"@.len() == 3);
    assert("bui"@.len() == 3);
    assert("rx5day"@.len() == 6);
    assert("wind_max_daily_mean"@.len() == 19);
    assert("cooling_degree_days"@.len() == 19);
    assert("tg_max"@.len() == 6);
    assert("tg_mean"@.len() == 7);
    assert("tg_min"@.len() == 6);
    assert("tx_max"@.len() == 6);
    assert("tx_mean"@.len() == 7);
    assert("tx_min"@.len() == 6);
    assert("tn_max"@.len() == 6);
    assert("tn_mean"@.len() == 7);
    assert("tn_min"@.len() == 6);
    assert("sdii"@.len() == 4);
    assert("liquidprcptot"@.len() == 13);
    assert("solidprcptot"@.len() == 12);
    assert("prcptot"@.len() == 7);
    assert("pet"@.len() == 3);
    assert("water_budget"@.len() == 12);
    assert("dtrmax"@.len() == 6);
    assert("dtrvar"@.len() == 6);
    assert("etr"@.len() == 3);
    assert("calm_days"@.len() == 9);
    assert("corn_heat_units"@.len() == 15);
    assert("wbgt"@.len() == 4);
    assert("windchill"@.len() == 9);
    assert("heat_index"@.len() == 10);
    assert("heat_wave_frequency"@.len() == 19);
    assert("heat_wave_total_length"@.len() == 22);
    assert("heat_wave_max_length"@.len() == 20);
    assert("heat_wave_index"@.len() == 15);
    assert("hot_spell_frequency"@.len() == 19);
    assert("hot_spell_max_length"@.len() == 20);
    assert("maximum_consecutive_frost_days"@.len() == 30);
    assert("cold_spell_days"@.len() == 15);
    assert("cold_spell_frequency"@.len() == 20);
    assert("maximum_consecutive_wet_days"@.len() == 28);
    assert("maximum_consecutive_dry_days"@.len() == 28);
    assert("at"@.len() == 2);
    assert("summer_days"@.len() == 11);
    assert("tropical_nights"@.len() == 15);
    assert("humidex"@.len() == 7);
    assert("heating_degree_days"@.len() == 19);
    assert("growing_degree_days"@.len() == 19);
    assert("ice_days"@.len() == 8);
    assert("dry_days"@.len() == 8);
    assert("wet_days"@.len() == 8);
    assert("dtr"@.len() == 3);
    assert("dlyfrzthw"@.len() == 9);
    assert("cflood_rp50"@.len() == 11);
    assert("rflood_rp50"@.len() == 11);
    assert("slr"@.len() == 3);
    assert("fwi"@[0] != "slr"@[0]);
    assert("dmc"@[0] != "slr"@[0]);
    assert("isi"@[0] != "slr"@[0]);
    assert("bui"@[0] != "slr"@[0]);
    assert("pet"@[0] != "slr"@[0]);
    assert("etr"@[0] != "slr"@[0]);
    assert("calm_days"@[0] != "dlyfrzthw"@[0]);
    assert("windchill"@[0] != "dlyfrzthw"@[0]);
    assert("summer_days"@[0] != "cflood_rp50"@[0]);
    assert("summer_days"@[0] != "rflood_rp50"@[0]);
    assert("dtr"@[0] != "slr"@[0]);
}

/// Looking a risk factor up by identifier and then its name up again gives
/// the identifier back: `risk_factor_id(risk_factor_name(id)) == id`.
pub proof fn law_risk_factor_id_of_name_of_id(id: i32, name: Seq<char>)
    requires
        name_for_id(risk_factor_table(), id) == Some(name),
    ensures
        canonical_risk_factor_name(name) == name,
        id_for_name(risk_factor_table(), canonical_risk_factor_name(name)) == Some(id),
{
    let t = risk_factor_table();
    lemma_risk_factor_names_distinct();
    lemma_risk_factor_names_canonical();
    let i = choose|i: int| first_with_id(t, i, id);
    assert(canonical_risk_factor_name(t[i].1) == t[i].1);
    lemma_id_then_name(t, id, name);
}

/// Canonicalising a risk-factor name twice changes nothing more than doing
/// it once, so an alias and the name it stands for look up the same factor.
pub proof fn law_canonical_name_idempotent(name: Seq<char>)
    ensures
        canonical_risk_factor_name(canonical_risk_factor_name(name)) == canonical_risk_factor_name(
            name,
        ),
{
    reveal_strlit("dlyfrzthw");
    reveal_strlit("cflood_rp50");
    reveal_strlit("rflood_rp50");
    reveal_strlit("slr");
    reveal_strlit("daily_freezethaw_cycles");
    reveal_strlit("cflood");
    reveal_strlit("rflood");
    reveal_strlit("inundation");
    assert("daily_freezethaw_cycles"@.len() == 23);
    assert("cflood"@.len() == 6);
    assert("rflood"@.len() == 6);
    assert("inundation"@.len() == 10);
    assert("dlyfrzthw"@.len() == 9);
    assert("cflood_rp50"@.len() == 11);
    assert("rflood_rp50"@.len() == 11);
    assert("slr"@.len() == 3);
}

} // verus!
