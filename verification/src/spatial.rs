//! H3 cells: parsing, normalisation to a coarser resolution, and lookups of
//! reference data keyed by ranges of cell indices.
use vstd::prelude::*;

use crate::error::{CrcError, CrcErrorView};
use crate::text::{
    append_decimal, append_lower_hex, decimal_text, lower_hex_text, parse_hex_from,
    parse_hex_u64, strip_hex_prefixes,
};

verus! {

/// Whether h3o accepts `raw` as the index of a cell (`CellIndex::try_from`).
pub uninterp spec fn h3_is_cell(raw: u64) -> bool;

/// The resolution that an H3 index encodes (bits 52 to 55).
pub open spec fn cell_resolution(raw: u64) -> u8 {
    ((raw >> 52u64) & 15u64) as u8
}

/// The index of the ancestor at `resolution` of the cell `raw`: the
/// resolution bits replaced by `resolution`, and the digits of every finer
/// resolution set to the unused pattern (all ones).
pub open spec fn cell_parent(raw: u64, resolution: u8) -> u64 {
    let bits = (raw & !(15u64 << 52u64)) | ((resolution as u64) << 52u64);
    bits | (((1u64 << ((15 - resolution) * 3) as u64) - 1) as u64)
}

/// `h3o::CellIndex::try_from(raw)`: whether h3o accepts `raw` as a cell.
/// What it checks (reserved and mode bits, base cell, direction digits,
/// deleted pentagon subsequences) is left to the name `h3_is_cell`.
#[verifier::external_body]
fn h3_check_cell(raw: u64) -> (r: bool)
    ensures
        r == h3_is_cell(raw),
{
    h3o::CellIndex::try_from(raw).is_ok()
}

/// `h3o::CellIndex::resolution` of a valid cell: h3o reads the four
/// resolution bits of the index.
#[verifier::external_body]
fn h3_resolution(raw: u64) -> (r: Option<u8>)
    requires
        h3_is_cell(raw),
    ensures
        r == Some(cell_resolution(raw)),
{
    match h3o::CellIndex::try_from(raw) {
        Ok(cell) => Some(u8::from(cell.resolution())),
        Err(_) => None,
    }
}

/// `h3o::CellIndex::parent` of a valid cell at a resolution from 0 to 15:
/// h3o gives no parent at a finer resolution than the cell's, and otherwise
/// rewrites the resolution bits and fills the finer digits with ones.
#[verifier::external_body]
pub(crate) fn h3_parent(raw: u64, resolution: u8) -> (r: Option<u64>)
    requires
        h3_is_cell(raw),
        resolution <= 15,
    ensures
        r == (if resolution <= cell_resolution(raw) {
            Some(cell_parent(raw, resolution))
        } else {
            None
        }),
{
    let cell = match h3o::CellIndex::try_from(raw) {
        Ok(cell) => cell,
        Err(_) => return None,
    };
    let resolution = match h3o::Resolution::try_from(resolution) {
        Ok(resolution) => resolution,
        Err(_) => return None,
    };
    match cell.parent(resolution) {
        Some(parent) => Some(u64::from(parent)),
        None => None,
    }
}

/// A valid H3 cell index.
#[derive(Debug)]
pub struct H3Cell {
    index: u64,
}

impl H3Cell {
    #[verifier::type_invariant]
    spec fn valid(self) -> bool {
        h3_is_cell(self.index)
    }

    /// The raw 64-bit index of the cell.
    pub closed spec fn index_view(self) -> u64 {
        self.index
    }

    /// The raw 64-bit index of the cell.
    pub fn index(&self) -> (r: u64)
        ensures
            r == self.index_view(),
            h3_is_cell(r),
    {
        proof {
            use_type_invariant(self);
        }
        self.index
    }
}

/// The message of a rejected cell index.
pub open spec fn invalid_cell_message(detail: Seq<char>) -> Seq<char> {
    "invalid H3 cell "@ + detail
}

/// The cell whose index is `value`.
pub fn cell_from_u64(value: u64) -> (r: Result<H3Cell, CrcError>)
    ensures
        match r {
            Ok(cell) => h3_is_cell(value) && cell.index_view() == value,
            Err(e) => !h3_is_cell(value) && e@ == CrcErrorView::InvalidInput(
                invalid_cell_message(lower_hex_text(value as nat)),
            ),
        },
{
    if h3_check_cell(value) {
        Ok(H3Cell { index: value })
    } else {
        let mut m = String::from_str("invalid H3 cell ");
        append_lower_hex(&mut m, value);
        Err(CrcError::InvalidInput(m))
    }
}

fn hex_prefix_end(s: &str) -> (k: usize)
    ensures
        k <= s@.len(),
        strip_hex_prefixes(s@) == s@.skip(k as int),
{
    let len = s.unicode_len();
    let mut k: usize = 0;
    assert(s@.skip(0) =~= s@);
    while len - k >= 2 && s.get_char(k) == '0' && s.get_char(k + 1) == 'x'
        invariant
            len == s@.len(),
            k <= len,
            strip_hex_prefixes(s@) == strip_hex_prefixes(s@.skip(k as int)),
        decreases len - k,
    {
        assert(s@.skip(k as int).skip(2) =~= s@.skip(k + 2));
        k = k + 2;
    }
    k
}

/// The cell whose index `value` writes in hexadecimal, after any number of
/// leading `0x` (and an optional `+` before the digits).
pub fn parse_cell(value: &str) -> (r: Result<H3Cell, CrcError>)
    ensures
        match r {
            Ok(cell) => parse_hex_u64(strip_hex_prefixes(value@)) == Some(cell.index_view())
                && h3_is_cell(cell.index_view()),
            Err(e) => (parse_hex_u64(strip_hex_prefixes(value@)) matches Some(v) ==> !h3_is_cell(
                v,
            )) && e@ == CrcErrorView::InvalidInput(invalid_cell_message(value@)),
        },
{
    let start = hex_prefix_end(value);
    match parse_hex_from(value, start) {
        Some(raw) => {
            if h3_check_cell(raw) {
                return Ok(H3Cell { index: raw });
            }
        },
        None => {},
    }
    let mut m = String::from_str("invalid H3 cell ");
    m.append(value);
    Err(CrcError::InvalidInput(m))
}

/// The message of a cell that is coarser than a lookup needs.
pub open spec fn coarse_cell_message(have: u8, need: u8) -> Seq<char> {
    "H3 cell resolution "@ + decimal_text(have as nat) + " is below required resolution "@
        + decimal_text(need as nat)
}

/// The index of the ancestor of `cell` at `resolution`.
pub fn parent_at(cell: &H3Cell, resolution: u8) -> (r: Result<u64, CrcError>)
    requires
        resolution <= 15,
    ensures
        match r {
            Ok(p) => resolution <= cell_resolution(cell.index_view()) && p == cell_parent(
                cell.index_view(),
                resolution,
            ),
            Err(e) => cell_resolution(cell.index_view()) < resolution && e@
                == CrcErrorView::InvalidInput(
                coarse_cell_message(cell_resolution(cell.index_view()), resolution),
            ),
        },
{
    let raw = cell.index();
    let have = match h3_resolution(raw) {
        Some(have) => have,
        None => 0,
    };
    if have < resolution {
        let mut m = String::from_str("H3 cell resolution ");
        append_decimal(&mut m, have as u64);
        m.append(" is below required resolution ");
        append_decimal(&mut m, resolution as u64);
        return Err(CrcError::InvalidInput(m));
    }
    match h3_parent(raw, resolution) {
        Some(p) => Ok(p),
        None => {
            let mut m = String::from_str("could not normalize H3 cell to resolution ");
            append_decimal(&mut m, resolution as u64);
            Err(CrcError::InvalidInput(m))
        },
    }
}

/// A range of reference data: the cell indices from `start` to `end`, both
/// included, and the value they map to.
#[derive(Debug, Clone, Copy)]
pub struct CellRange<T> {
    pub start: u64,
    pub end: u64,
    pub payload: T,
}

/// `value` lies in the range `r`.
pub open spec fn covers<T>(r: CellRange<T>, value: u64) -> bool {
    r.start <= value && value <= r.end
}

/// Each range is non-empty and ends before the next one starts.
pub open spec fn ranges_ordered<T>(r: Seq<CellRange<T>>) -> bool {
    &&& forall|i: int| 0 <= i < r.len() ==> (#[trigger] r[i]).start <= r[i].end
    &&& forall|i: int, j: int| 0 <= i < j < r.len() ==> (#[trigger] r[i]).end < (#[trigger] r[j]).start
}

/// The value of the range that holds `value`, if any.
pub open spec fn range_lookup<T>(r: Seq<CellRange<T>>, value: u64) -> Option<T> {
    if exists|i: int| 0 <= i < r.len() && covers(#[trigger] r[i], value) {
        Some(r[choose|i: int| 0 <= i < r.len() && covers(#[trigger] r[i], value)].payload)
    } else {
        None
    }
}

/// In ordered ranges a value lies in at most one range.
pub proof fn law_ordered_ranges_cover_once<T>(r: Seq<CellRange<T>>, value: u64, i: int, j: int)
    requires
        ranges_ordered(r),
        0 <= i < r.len(),
        0 <= j < r.len(),
        covers(r[i], value),
        covers(r[j], value),
    ensures
        i == j,
{
    if i < j {
        assert(r[i].end < r[j].start);
    } else if j < i {
        assert(r[j].end < r[i].start);
    }
}

proof fn lemma_adjacent_ordered<T>(r: Seq<CellRange<T>>, i: int, j: int)
    requires
        forall|k: int| 0 <= k < r.len() ==> (#[trigger] r[k]).start <= r[k].end,
        forall|k: int| 0 <= k < r.len() - 1 ==> (#[trigger] r[k]).end < r[k + 1].start,
        0 <= i < j < r.len(),
    ensures
        r[i].end < r[j].start,
    decreases j - i,
{
    assert(r[i].end < r[i + 1].start);
    if i + 1 < j {
        lemma_adjacent_ordered(r, i + 1, j);
        assert(r[i + 1].start <= r[i + 1].end);
    }
}

/// Reference data keyed by ordered, disjoint ranges of cell indices.
#[derive(Debug)]
pub struct CellRanges<T: Copy> {
    ranges: Vec<CellRange<T>>,
}

impl<T: Copy> CellRanges<T> {
    #[verifier::type_invariant]
    spec fn ordered(self) -> bool {
        ranges_ordered(self.ranges@)
    }

    /// The ranges, in order.
    pub closed spec fn ranges_view(self) -> Seq<CellRange<T>> {
        self.ranges@
    }

    /// The table of `ranges`, which must be ordered and disjoint.
    pub fn new(ranges: Vec<CellRange<T>>) -> (r: Result<CellRanges<T>, CrcError>)
        ensures
            match r {
                Ok(t) => ranges_ordered(ranges@) && t.ranges_view() == ranges@,
                Err(e) => !ranges_ordered(ranges@) && e@ == CrcErrorView::InvalidInput(
                    "cell ranges must be ordered and disjoint"@,
                ),
            },
    {
        let n = ranges.len();
        let mut i: usize = 0;
        while i < n
            invariant
                n == ranges@.len(),
                i <= n,
                forall|k: int| 0 <= k < i ==> (#[trigger] ranges@[k]).start <= ranges@[k].end,
                forall|k: int| 0 <= k < i && k + 1 < n ==> (#[trigger] ranges@[k]).end < ranges@[k
                    + 1].start,
            decreases n - i,
        {
            let bad = ranges[i].start > ranges[i].end || (i + 1 < n && ranges[i].end
                >= ranges[i + 1].start);
            if bad {
                return Err(
                    CrcError::InvalidInput(
                        String::from_str("cell ranges must be ordered and disjoint"),
                    ),
                );
            }
            i = i + 1;
        }
        assert forall|a: int, b: int| 0 <= a < b < ranges@.len() implies (#[trigger] ranges@[a]).end
            < (#[trigger] ranges@[b]).start by {
            lemma_adjacent_ordered(ranges@, a, b);
        }
        Ok(CellRanges { ranges })
    }

    /// The number of ranges.
    pub fn len(&self) -> (n: usize)
        ensures
            n == self.ranges_view().len(),
    {
        self.ranges.len()
    }

    /// The position of the range that holds `value`, if any (by binary
    /// search).
    pub fn find(&self, value: u64) -> (r: Option<usize>)
        ensures
            ranges_ordered(self.ranges_view()),
            match r {
                Some(i) => i < self.ranges_view().len() && covers(self.ranges_view()[i as int], value),
                None => forall|i: int|
                    0 <= i < self.ranges_view().len() ==> !covers(
                        #[trigger] self.ranges_view()[i],
                        value,
                    ),
            },
    {
        proof {
            use_type_invariant(self);
        }
        let ghost r = self.ranges@;
        let mut lo: usize = 0;
        let mut hi: usize = self.ranges.len();
        while lo < hi
            invariant
                r == self.ranges@,
                ranges_ordered(r),
                lo <= hi <= r.len(),
                forall|i: int| 0 <= i < lo ==> (#[trigger] r[i]).end < value,
                forall|i: int| hi <= i < r.len() ==> value < (#[trigger] r[i]).start,
            decreases hi - lo,
        {
            let mid = lo + (hi - lo) / 2;
            let range = &self.ranges[mid];
            if value < range.start {
                assert forall|i: int| mid <= i < r.len() implies value < (#[trigger] r[i]).start by {
                    if i > mid {
                        assert(r[mid as int].end < r[i].start);
                    }
                }
                hi = mid;
            } else if value > range.end {
                assert forall|i: int| 0 <= i <= mid implies (#[trigger] r[i]).end < value by {
                    if i < mid {
                        assert(r[i].end < r[mid as int].start);
                    }
                }
                lo = mid + 1;
            } else {
                return Some(mid);
            }
        }
        None
    }

    /// The range at position `i`.
    pub fn get(&self, i: usize) -> (range: &CellRange<T>)
        requires
            i < self.ranges_view().len(),
        ensures
            *range == self.ranges_view()[i as int],
    {
        &self.ranges[i]
    }

    /// The value of the range that holds `value`, if any.
    pub fn lookup(&self, value: u64) -> (r: Option<T>)
        ensures
            r == range_lookup(self.ranges_view(), value),
    {
        let ghost t = self.ranges_view();
        match self.find(value) {
            Some(i) => {
                proof {
                    let c = choose|c: int| 0 <= c < t.len() && covers(#[trigger] t[c], value);
                    law_ordered_ranges_cover_once(t, value, i as int, c);
                }
                Some(self.ranges[i].payload)
            },
            None => None,
        }
    }
}

/// The IPCC climate region of the resolution-4 ancestor of `cell`, from the
/// region table `regions`.
pub fn lookup_ipcc_region(cell: &H3Cell, regions: &CellRanges<&'static str>) -> (r: Result<
    Option<&'static str>,
    CrcError,
>)
    ensures
        match r {
            Ok(found) => 4 <= cell_resolution(cell.index_view()) && found == range_lookup(
                regions.ranges_view(),
                cell_parent(cell.index_view(), 4),
            ),
            Err(e) => cell_resolution(cell.index_view()) < 4 && e@ == CrcErrorView::InvalidInput(
                coarse_cell_message(cell_resolution(cell.index_view()), 4),
            ),
        },
{
    let parent = parent_at(cell, 4)?;
    Ok(regions.lookup(parent))
}

/// The continent of the resolution-4 ancestor of `cell`, from the continent
/// table `continents`.
pub fn lookup_continent(cell: &H3Cell, continents: &CellRanges<&'static str>) -> (r: Result<
    Option<&'static str>,
    CrcError,
>)
    ensures
        match r {
            Ok(found) => 4 <= cell_resolution(cell.index_view()) && found == range_lookup(
                continents.ranges_view(),
                cell_parent(cell.index_view(), 4),
            ),
            Err(e) => cell_resolution(cell.index_view()) < 4 && e@ == CrcErrorView::InvalidInput(
                coarse_cell_message(cell_resolution(cell.index_view()), 4),
            ),
        },
{
    let parent = parent_at(cell, 4)?;
    Ok(continents.lookup(parent))
}

/// The continent and the ISO3 codes of the countries that a cell intersects.
#[derive(Debug, Clone, PartialEq, Eq)]
pub struct Geography {
    pub continent: String,
    pub countries: Vec<String>,
}

/// What a range of the geography table maps to: a continent and the
/// countries at positions `start` (included) to `end` (excluded) of the
/// country list.
#[derive(Debug, Clone, Copy)]
pub struct GeographyPayload {
    pub continent: &'static str,
    pub start: usize,
    pub end: usize,
}

/// The reference data of the geography lookup: ranges of resolution-4 cell
/// indices, each naming a payload; the payloads; and the country list that
/// the payloads slice.
#[derive(Debug)]
pub struct GeographyTable {
    ranges: CellRanges<usize>,
    payloads: Vec<GeographyPayload>,
    countries: Vec<&'static str>,
}

/// Every range names an existing payload and every payload an existing
/// slice of the country list.
pub open spec fn geography_consistent(
    ranges: Seq<CellRange<usize>>,
    payloads: Seq<GeographyPayload>,
    countries: Seq<&'static str>,
) -> bool {
    &&& forall|i: int| 0 <= i < ranges.len() ==> (#[trigger] ranges[i]).payload < payloads.len()
    &&& forall|k: int|
        0 <= k < payloads.len() ==> (#[trigger] payloads[k]).start <= payloads[k].end
            <= countries.len()
}

/// The country codes of a slice of the country list, as characters.
pub open spec fn country_codes(countries: Seq<&'static str>, start: int, end: int) -> Seq<
    Seq<char>,
> {
    countries.subrange(start, end).map_values(|c: &'static str| c@)
}

/// A geography as characters: the continent and the country codes.
pub open spec fn geography_view(g: Option<Geography>) -> Option<(Seq<char>, Seq<Seq<char>>)> {
    match g {
        Some(g) => Some((g.continent@, g.countries@.map_values(|c: String| c@))),
        None => None,
    }
}

/// What the geography table gives for the resolution-4 index `parent`: the
/// continent and countries of the payload of the range that holds it.
pub open spec fn geography_of_index(table: GeographyTable, parent: u64) -> Option<
    (Seq<char>, Seq<Seq<char>>),
> {
    match range_lookup(table.ranges_view(), parent) {
        None => None,
        Some(k) => {
            let p = table.payloads_view()[k as int];
            Some(
                (
                    p.continent@,
                    country_codes(table.countries_view(), p.start as int, p.end as int),
                ),
            )
        },
    }
}

impl GeographyTable {
    #[verifier::type_invariant]
    spec fn consistent(self) -> bool {
        geography_consistent(self.ranges.ranges_view(), self.payloads@, self.countries@)
    }

    /// The cell ranges of the table.
    pub closed spec fn ranges_view(self) -> Seq<CellRange<usize>> {
        self.ranges.ranges_view()
    }

    /// The payloads of the table.
    pub closed spec fn payloads_view(self) -> Seq<GeographyPayload> {
        self.payloads@
    }

    /// The country list of the table.
    pub closed spec fn countries_view(self) -> Seq<&'static str> {
        self.countries@
    }

    /// The table made of `ranges`, `payloads` and `countries`, which must be
    /// consistent with one another.
    pub fn new(
        ranges: CellRanges<usize>,
        payloads: Vec<GeographyPayload>,
        countries: Vec<&'static str>,
    ) -> (r: Result<GeographyTable, CrcError>)
        ensures
            match r {
                Ok(t) => geography_consistent(ranges.ranges_view(), payloads@, countries@)
                    && t.ranges_view() == ranges.ranges_view() && t.payloads_view() == payloads@
                    && t.countries_view() == countries@,
                Err(e) => !geography_consistent(ranges.ranges_view(), payloads@, countries@) && e@
                    == CrcErrorView::InvalidInput(
                    "geography ranges and payloads must refer to existing entries"@,
                ),
            },
    {
        let n = ranges.len();
        let mut i: usize = 0;
        while i < n
            invariant
                n == ranges.ranges_view().len(),
                i <= n,
                forall|k: int|
                    0 <= k < i ==> (#[trigger] ranges.ranges_view()[k]).payload < payloads@.len(),
            decreases n - i,
        {
            if ranges.get(i).payload >= payloads.len() {
                return Err(
                    CrcError::InvalidInput(
                        String::from_str(
                            "geography ranges and payloads must refer to existing entries",
                        ),
                    ),
                );
            }
            i = i + 1;
        }
        let mut k: usize = 0;
        while k < payloads.len()
            invariant
                k <= payloads@.len(),
                forall|j: int|
                    0 <= j < k ==> (#[trigger] payloads@[j]).start <= payloads@[j].end
                        <= countries@.len(),
            decreases payloads@.len() - k,
        {
            let p = payloads[k];
            if p.start > p.end || p.end > countries.len() {
                return Err(
                    CrcError::InvalidInput(
                        String::from_str(
                            "geography ranges and payloads must refer to existing entries",
                        ),
                    ),
                );
            }
            k = k + 1;
        }
        Ok(GeographyTable { ranges, payloads, countries })
    }

    /// The geography of the range that holds `value`, if any.
    fn geography_of(&self, value: u64) -> (r: Option<Geography>)
        ensures
            geography_view(r) == geography_of_index(*self, value),
    {
        proof {
            use_type_invariant(self);
        }
        let payload = match self.ranges.lookup(value) {
            Some(k) => {
                proof {
                    let t = self.ranges.ranges_view();
                    let c = choose|c: int| 0 <= c < t.len() && covers(#[trigger] t[c], value);
                    assert(t[c].payload < self.payloads@.len());
                }
                self.payloads[k]
            },
            None => return None,
        };
        let mut countries: Vec<String> = Vec::new();
        let mut j: usize = payload.start;
        while j < payload.end
            invariant
                payload.start <= j <= payload.end <= self.countries@.len(),
                countries@.map_values(|c: String| c@) == country_codes(
                    self.countries@,
                    payload.start as int,
                    j as int,
                ),
            decreases payload.end - j,
        {
            countries.push(self.countries[j].to_owned());
            assert(country_codes(self.countries@, payload.start as int, j + 1) =~= country_codes(
                self.countries@,
                payload.start as int,
                j as int,
            ).push(self.countries@[j as int]@));
            assert(countries@.map_values(|c: String| c@) =~= country_codes(
                self.countries@,
                payload.start as int,
                j as int,
            ).push(self.countries@[j as int]@));
            j = j + 1;
        }
        Some(Geography { continent: payload.continent.to_owned(), countries })
    }
}

/// The continent and countries of the resolution-4 ancestor of `cell`, from
/// the geography table `table`.
pub fn lookup_geography(cell: &H3Cell, table: &GeographyTable) -> (r: Result<
    Option<Geography>,
    CrcError,
>)
    ensures
        match r {
            Ok(found) => 4 <= cell_resolution(cell.index_view()) && geography_view(found)
                == geography_of_index(*table, cell_parent(cell.index_view(), 4)),
            Err(e) => cell_resolution(cell.index_view()) < 4 && e@ == CrcErrorView::InvalidInput(
                coarse_cell_message(cell_resolution(cell.index_view()), 4),
            ),
        },
{
    let parent = parent_at(cell, 4)?;
    Ok(table.geography_of(parent))
}

/// Two cells of resolution 4 or finer with the same resolution-4 ancestor
/// get the same answer from every lookup: the same continent and IPCC
/// region from a range table, and the same geography.
pub proof fn law_lookups_depend_only_on_resolution_four_parent(
    a: u64,
    b: u64,
    ranges: CellRanges<&'static str>,
    table: GeographyTable,
)
    requires
        4 <= cell_resolution(a),
        4 <= cell_resolution(b),
        cell_parent(a, 4) == cell_parent(b, 4),
    ensures
        range_lookup(ranges.ranges_view(), cell_parent(a, 4)) == range_lookup(
            ranges.ranges_view(),
            cell_parent(b, 4),
        ),
        geography_of_index(table, cell_parent(a, 4)) == geography_of_index(
            table,
            cell_parent(b, 4),
        ),
{
}

/// A cell and each of its ancestors at resolution 4 or finer share their
/// resolution-4 ancestor, so lookups give a cell the answer of its parents.
pub proof fn law_ancestor_of_ancestor(raw: u64, fine: u8, coarse: u8)
    requires
        coarse <= fine <= 15,
    ensures
        cell_parent(cell_parent(raw, fine), coarse) == cell_parent(raw, coarse),
{
    let f = fine as u64;
    let c = coarse as u64;
    let fs = ((15 - fine) * 3) as u64;
    let cs = ((15 - coarse) * 3) as u64;
    let p = ((raw & !(15u64 << 52u64)) | (f << 52u64)) | (((1u64 << fs) - 1) as u64);
    let q = ((p & !(15u64 << 52u64)) | (c << 52u64)) | (((1u64 << cs) - 1) as u64);
    let d = ((raw & !(15u64 << 52u64)) | (c << 52u64)) | (((1u64 << cs) - 1) as u64);
    assert(p == cell_parent(raw, fine));
    assert(q == cell_parent(p, coarse));
    assert(d == cell_parent(raw, coarse));
    assert(q == d) by (bit_vector)
        requires
            c <= f <= 15,
            fs == 45 - 3 * f,
            cs == 45 - 3 * c,
            p == ((raw & !(15u64 << 52u64)) | (f << 52u64)) | (((1u64 << fs) - 1) as u64),
            q == ((p & !(15u64 << 52u64)) | (c << 52u64)) | (((1u64 << cs) - 1) as u64),
            d == ((raw & !(15u64 << 52u64)) | (c << 52u64)) | (((1u64 << cs) - 1) as u64),
    ;
}

/// The hexadecimal text of an index, with or without a `0x` prefix, reads
/// back as that index, so `parse_cell` of it accepts exactly what
/// `cell_from_u64` accepts and gives the same cell.
pub proof fn law_parse_cell_reads_formatted_index(v: u64)
    ensures
        parse_hex_u64(strip_hex_prefixes(lower_hex_text(v as nat))) == Some(v),
        parse_hex_u64(strip_hex_prefixes("0x"@ + lower_hex_text(v as nat))) == Some(v),
{
    crate::text::law_hex_round_trip(v);
    reveal_strlit("0x");
    let h = lower_hex_text(v as nat);
    let t = "0x"@ + h;
    assert(t.skip(2) =~= h);
    assert(t[0] == '0' && t[1] == 'x');
}

/// The ancestor of a cell at a resolution encodes that resolution, and
/// normalising it again to the same resolution changes nothing.
pub proof fn law_parent_is_normalized(raw: u64, resolution: u8)
    requires
        resolution <= 15,
    ensures
        cell_resolution(cell_parent(raw, resolution)) == resolution,
        cell_parent(cell_parent(raw, resolution), resolution) == cell_parent(raw, resolution),
{
    let r = resolution as u64;
    let shift = ((15 - resolution) * 3) as u64;
    assert(shift == 45 - 3 * r);
    let p = ((raw & !(15u64 << 52u64)) | (r << 52u64)) | (((1u64 << shift) - 1) as u64);
    assert(p == cell_parent(raw, resolution));
    assert(((p >> 52u64) & 15u64) == r) by (bit_vector)
        requires
            r <= 15,
            shift == 45 - 3 * r,
            p == ((raw & !(15u64 << 52u64)) | (r << 52u64)) | (((1u64 << shift) - 1) as u64),
    ;
    let q = ((p & !(15u64 << 52u64)) | (r << 52u64)) | (((1u64 << shift) - 1) as u64);
    assert(q == p) by (bit_vector)
        requires
            r <= 15,
            shift == 45 - 3 * r,
            p == ((raw & !(15u64 << 52u64)) | (r << 52u64)) | (((1u64 << shift) - 1) as u64),
            q == ((p & !(15u64 << 52u64)) | (r << 52u64)) | (((1u64 << shift) - 1) as u64),
    ;
}

} // verus!
