use crc_framework::spatial::{
    cell_from_u64, lookup_continent, lookup_geography, lookup_ipcc_region, parent_at, parse_cell,
    CellRange, CellRanges, GeographyPayload, GeographyTable,
};

const CELL_RES10: u64 = 0x8a1fb46622dffff;
const README_CELL: u64 = 600550049193132031;

#[test]
fn valid_indices_become_cells() {
    let cell = cell_from_u64(CELL_RES10).unwrap();
    assert_eq!(cell.index(), CELL_RES10);
    let cell = cell_from_u64(README_CELL).unwrap();
    assert_eq!(cell.index(), README_CELL);
}

#[test]
fn invalid_indices_are_rejected_in_hexadecimal() {
    assert_eq!(
        cell_from_u64(0).unwrap_err().message(),
        "invalid input: invalid H3 cell 0"
    );
    assert_eq!(
        cell_from_u64(0x8a1fb46622dfff0).unwrap_err().message(),
        "invalid input: invalid H3 cell 8a1fb46622dfff0"
    );
}

#[test]
fn cells_parse_from_hexadecimal_text() {
    assert_eq!(parse_cell("8a1fb46622dffff").unwrap().index(), CELL_RES10);
    assert_eq!(parse_cell("0x8a1fb46622dffff").unwrap().index(), CELL_RES10);
    assert_eq!(parse_cell("0x0x8a1fb46622dffff").unwrap().index(), CELL_RES10);
    assert_eq!(parse_cell("8A1FB46622DFFFF").unwrap().index(), CELL_RES10);
    assert_eq!(parse_cell("+8a1fb46622dffff").unwrap().index(), CELL_RES10);
    assert_eq!(parse_cell(&format!("{:x}", README_CELL)).unwrap().index(), README_CELL);
}

#[test]
fn malformed_text_is_rejected_with_the_text() {
    assert_eq!(
        parse_cell("0xzz").unwrap_err().message(),
        "invalid input: invalid H3 cell 0xzz"
    );
    assert!(parse_cell("").is_err());
    assert!(parse_cell("0x").is_err());
    assert!(parse_cell("0X8a1fb46622dffff").is_err());
    assert!(parse_cell(" 8a1fb46622dffff").is_err());
    assert!(parse_cell("-8a1fb46622dffff").is_err());
    assert!(parse_cell("1ffffffffffffffff").is_err());
    assert_eq!(
        parse_cell("0").unwrap_err().message(),
        "invalid input: invalid H3 cell 0"
    );
}

#[test]
fn parents_match_h3() {
    let cell = cell_from_u64(CELL_RES10).unwrap();
    assert_eq!(parent_at(&cell, 5).unwrap(), 0x851fb467fffffff);
    assert_eq!(parent_at(&cell, 4).unwrap(), 0x841fb47ffffffff);
    assert_eq!(parent_at(&cell, 10).unwrap(), CELL_RES10);
    let parent = cell_from_u64(parent_at(&cell, 4).unwrap()).unwrap();
    assert_eq!(parent_at(&parent, 4).unwrap(), 0x841fb47ffffffff);
}

#[test]
fn finer_resolutions_than_the_cell_are_refused() {
    let cell = cell_from_u64(0x851fb467fffffff).unwrap();
    assert_eq!(
        parent_at(&cell, 6).unwrap_err().message(),
        "invalid input: H3 cell resolution 5 is below required resolution 6"
    );
}

fn continents() -> CellRanges<&'static str> {
    CellRanges::new(vec![
        CellRange { start: 0x8400000ffffffff, end: 0x841fb3fffffffff, payload: "Africa" },
        CellRange { start: 0x841fb40ffffffff, end: 0x841fb4fffffffff, payload: "Europe" },
        CellRange { start: 0x8459500ffffffff, end: 0x84595ffffffffff, payload: "Asia" },
    ])
    .unwrap()
}

#[test]
fn continent_lookup_uses_the_resolution_four_parent() {
    let table = continents();
    assert_eq!(table.len(), 3);
    let cell = cell_from_u64(CELL_RES10).unwrap();
    assert_eq!(lookup_continent(&cell, &table).unwrap(), Some("Europe"));
    let readme = cell_from_u64(README_CELL).unwrap();
    assert_eq!(lookup_continent(&readme, &table).unwrap(), Some("Asia"));
    assert_eq!(lookup_ipcc_region(&cell, &table).unwrap(), Some("Europe"));
    assert_eq!(table.find(0x841fb47ffffffff), Some(1));
    assert_eq!(table.find(0x841fb40fffffffe), None);
    assert_eq!(table.find(0x8400000ffffffff), Some(0));
    assert_eq!(table.find(0x84595ffffffffff), Some(2));
    assert_eq!(table.find(u64::MAX), None);
}

#[test]
fn missing_ranges_give_none_and_coarse_cells_fail() {
    let table = CellRanges::new(vec![CellRange { start: 1, end: 2, payload: "Nowhere" }]).unwrap();
    let cell = cell_from_u64(CELL_RES10).unwrap();
    assert_eq!(lookup_continent(&cell, &table).unwrap(), None);
    let coarse = cell_from_u64(0x8009fffffffffff).unwrap();
    assert_eq!(
        lookup_continent(&coarse, &table).unwrap_err().message(),
        "invalid input: H3 cell resolution 0 is below required resolution 4"
    );
}

#[test]
fn unordered_ranges_are_refused() {
    let overlapping = CellRanges::new(vec![
        CellRange { start: 1, end: 5, payload: 0usize },
        CellRange { start: 5, end: 9, payload: 1usize },
    ]);
    assert_eq!(
        overlapping.err().unwrap().message(),
        "invalid input: cell ranges must be ordered and disjoint"
    );
    assert!(CellRanges::new(vec![CellRange { start: 3, end: 2, payload: 0usize }]).is_err());
    assert!(CellRanges::<usize>::new(vec![]).is_ok());
}

fn europe_table() -> GeographyTable {
    let ranges = CellRanges::new(vec![
        CellRange { start: 0x8400000ffffffff, end: 0x841fb46ffffffff, payload: 1usize },
        CellRange { start: 0x841fb47ffffffff, end: 0x841fb47ffffffff, payload: 0usize },
    ])
    .unwrap();
    GeographyTable::new(
        ranges,
        vec![
            GeographyPayload { continent: "Europe", start: 1, end: 3 },
            GeographyPayload { continent: "Africa", start: 0, end: 1 },
        ],
        vec!["DZA", "FRA", "ITA"],
    )
    .unwrap()
}

#[test]
fn geography_lookup_slices_the_country_list() {
    let ranges = CellRanges::new(vec![
        CellRange { start: 0x8400000ffffffff, end: 0x841fb47ffffffff, payload: 1usize },
        CellRange { start: 0x841fb47ffffffff, end: 0x841fb47ffffffff, payload: 0usize },
    ]);
    assert!(ranges.is_err());
    let table = europe_table();
    let cell = cell_from_u64(CELL_RES10).unwrap();
    let geography = lookup_geography(&cell, &table).unwrap().unwrap();
    assert_eq!(geography.continent, "Europe");
    assert_eq!(geography.countries, vec!["FRA".to_string(), "ITA".to_string()]);
    let other = cell_from_u64(README_CELL).unwrap();
    assert_eq!(lookup_geography(&other, &table).unwrap(), None);
    let africa = cell_from_u64(0x841fb43ffffffff).unwrap();
    let geography = lookup_geography(&africa, &table).unwrap().unwrap();
    assert_eq!(geography.continent, "Africa");
    assert_eq!(geography.countries, vec!["DZA".to_string()]);
}

#[test]
fn geography_lookup_accepts_resolution_four_and_refuses_coarser() {
    let table = europe_table();
    let res4 = cell_from_u64(0x841fb47ffffffff).unwrap();
    let geography = lookup_geography(&res4, &table).unwrap().unwrap();
    assert_eq!(geography.continent, "Europe");
    let coarse = cell_from_u64(0x8009fffffffffff).unwrap();
    assert_eq!(
        lookup_geography(&coarse, &table).unwrap_err().message(),
        "invalid input: H3 cell resolution 0 is below required resolution 4"
    );
}

#[test]
fn cells_with_one_resolution_four_ancestor_share_their_geography() {
    let table = europe_table();
    let fine = cell_from_u64(CELL_RES10).unwrap();
    let middle = cell_from_u64(0x851fb467fffffff).unwrap();
    assert_eq!(parent_at(&fine, 4).unwrap(), parent_at(&middle, 4).unwrap());
    assert_eq!(
        lookup_geography(&fine, &table).unwrap(),
        lookup_geography(&middle, &table).unwrap()
    );
    let ranges = continents();
    assert_eq!(
        lookup_continent(&fine, &ranges).unwrap(),
        lookup_continent(&middle, &ranges).unwrap()
    );
}

#[test]
fn the_ancestor_of_an_ancestor_is_the_ancestor() {
    let cell = cell_from_u64(CELL_RES10).unwrap();
    for fine in 4u8..=10 {
        let mid = cell_from_u64(parent_at(&cell, fine).unwrap()).unwrap();
        for coarse in 0u8..=fine {
            assert_eq!(parent_at(&mid, coarse).unwrap(), parent_at(&cell, coarse).unwrap());
        }
    }
}

#[test]
fn inconsistent_geography_tables_are_refused() {
    let ranges = CellRanges::new(vec![CellRange { start: 1, end: 2, payload: 3usize }]).unwrap();
    let table = GeographyTable::new(
        ranges,
        vec![GeographyPayload { continent: "Europe", start: 0, end: 1 }],
        vec!["FRA"],
    );
    assert_eq!(
        table.err().unwrap().message(),
        "invalid input: geography ranges and payloads must refer to existing entries"
    );
    let ranges = CellRanges::new(vec![CellRange { start: 1, end: 2, payload: 0usize }]).unwrap();
    let table = GeographyTable::new(
        ranges,
        vec![GeographyPayload { continent: "Europe", start: 0, end: 2 }],
        vec!["FRA"],
    );
    assert!(table.is_err());
}
