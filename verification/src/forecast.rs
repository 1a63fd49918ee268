//! Per-office temperature forecasts: the office-code redirect used when
//! requesting a forecast document, the legacy observation-point rename
//! table, and selection of the day's low and high figures from the
//! temperature time-series by local hour.

use vstd::prelude::*;

use chrono::Timelike;

use crate::text::str_eq;

verus! {

/// The office code actually used in a forecast request: two offices are
/// published under a neighbouring code, and a request under their own
/// code is not found.
pub open spec fn office_for_url_spec(code: Seq<char>) -> Seq<char> {
    if code == "014030"@ {
        "014100"@
    } else if code == "460040"@ {
        "460100"@
    } else {
        code
    }
}

/// Redirect an office code to the one the service publishes under.
pub fn office_for_url<'a>(offices: &'a str) -> (r: &'a str)
    ensures
        r@ == office_for_url_spec(offices@),
{
    if str_eq(offices, "014030") {
        "014100"
    } else if str_eq(offices, "460040") {
        "460100"
    } else {
        offices
    }
}

/// The current municipality name for a discontinued observation-point
/// name or numeric code, if the table knows it.
pub open spec fn find_newcity_spec(s: Seq<char>) -> Option<Seq<char>> {
    if s == "古川"@ {
        Some("大崎市"@)
    } else if s == "鷹巣"@ {
        Some("北秋田市"@)
    } else if s == "小名浜"@ {
        Some("いわき市"@)
    } else if s == "若松"@ {
        Some("会津若松市"@)
    } else if s == "田島"@ {
        Some("南会津町"@)
    } else if s == "八丈島"@ {
        Some("八丈町"@)
    } else if s == "父島"@ {
        Some("小笠原村"@)
    } else if s == "高田"@ {
        Some("上越市"@)
    } else if s == "相川"@ {
        Some("佐渡市"@)
    } else if s == "津川"@ {
        Some("阿賀町"@)
    } else if s == "伏木"@ {
        Some("高岡市"@)
    } else if s == "河口湖"@ {
        Some("富士河口湖町"@)
    } else if s == "網代"@ {
        Some("熱海市"@)
    } else if s == "石廊崎"@ {
        Some("南伊豆町"@)
    } else if s == "風屋"@ {
        Some("十津川村"@)
    } else if s == "潮岬"@ {
        Some("串本町"@)
    } else if s == "日和佐"@ {
        Some("美波町"@)
    } else if s == "室戸岬"@ {
        Some("室戸市"@)
    } else if s == "厳原"@ {
        Some("対馬市"@)
    } else if s == "福江"@ {
        Some("五島市"@)
    } else if s == "阿蘇乙姫"@ {
        Some("阿蘇市"@)
    } else if s == "牛深"@ {
        Some("天草市"@)
    } else if s == "油津"@ {
        Some("日南市"@)
    } else if s == "種子島"@ {
        Some("西之表市"@)
    } else if s == "沖永良部"@ {
        Some("和泊町"@)
    } else if s == "石垣島"@ {
        Some("石垣市"@)
    } else if s == "与那国島"@ {
        Some("与那国町"@)
    } else if s == "東京"@ {
        Some("千代田区"@)
    } else if s == "名瀬"@ {
        Some("奄美市"@)
    } else if s == "八幡"@ {
        Some("北九州市"@)
    } else if s == "34216"@ {
        Some("大崎市"@)
    } else if s == "32126"@ {
        Some("北秋田市"@)
    } else if s == "36846"@ {
        Some("いわき市"@)
    } else if s == "36361"@ {
        Some("会津若松市"@)
    } else if s == "36641"@ {
        Some("南会津町"@)
    } else if s == "44263"@ {
        Some("八丈町"@)
    } else if s == "44301"@ {
        Some("小笠原村"@)
    } else if s == "54651"@ {
        Some("上越市"@)
    } else if s == "54157"@ {
        Some("佐渡市"@)
    } else if s == "54421"@ {
        Some("阿賀町"@)
    } else if s == "55091"@ {
        Some("高岡市"@)
    } else if s == "49251"@ {
        Some("富士河口湖町"@)
    } else if s == "50281"@ {
        Some("熱海市"@)
    } else if s == "50561"@ {
        Some("南伊豆町"@)
    } else if s == "64227"@ {
        Some("十津川村"@)
    } else if s == "65356"@ {
        Some("串本町"@)
    } else if s == "71266"@ {
        Some("美波町"@)
    } else if s == "74372"@ {
        Some("室戸市"@)
    } else if s == "84072"@ {
        Some("対馬市"@)
    } else if s == "84536"@ {
        Some("五島市"@)
    } else if s == "86111"@ {
        Some("阿蘇市"@)
    } else if s == "86491"@ {
        Some("天草市"@)
    } else if s == "87492"@ {
        Some("日南市"@)
    } else if s == "88612"@ {
        Some("西之表市"@)
    } else if s == "88971"@ {
        Some("和泊町"@)
    } else if s == "94081"@ {
        Some("石垣市"@)
    } else if s == "94017"@ {
        Some("与那国町"@)
    } else if s == "44132"@ {
        Some("千代田区"@)
    } else if s == "88837"@ {
        Some("奄美市"@)
    } else if s == "82056"@ {
        Some("北九州市"@)
    } else {
        None
    }
}

/// Convert the old name (or numeric code) of a weather-forecast region
/// to the current city name; used for presentation only.
pub fn find_newcity(oldcity: &str) -> (r: Option<String>)
    ensures
        r matches Some(x) ==> Some(x@) == find_newcity_spec(oldcity@),
        r is None <==> find_newcity_spec(oldcity@) is None,
{
    if str_eq(oldcity, "古川") {
        Some("大崎市".to_owned())
    } else if str_eq(oldcity, "鷹巣") {
        Some("北秋田市".to_owned())
    } else if str_eq(oldcity, "小名浜") {
        Some("いわき市".to_owned())
    } else if str_eq(oldcity, "若松") {
        Some("会津若松市".to_owned())
    } else if str_eq(oldcity, "田島") {
        Some("南会津町".to_owned())
    } else if str_eq(oldcity, "八丈島") {
        Some("八丈町".to_owned())
    } else if str_eq(oldcity, "父島") {
        Some("小笠原村".to_owned())
    } else if str_eq(oldcity, "高田") {
        Some("上越市".to_owned())
    } else if str_eq(oldcity, "相川") {
        Some("佐渡市".to_owned())
    } else if str_eq(oldcity, "津川") {
        Some("阿賀町".to_owned())
    } else if str_eq(oldcity, "伏木") {
        Some("高岡市".to_owned())
    } else if str_eq(oldcity, "河口湖") {
        Some("富士河口湖町".to_owned())
    } else if str_eq(oldcity, "網代") {
        Some("熱海市".to_owned())
    } else if str_eq(oldcity, "石廊崎") {
        Some("南伊豆町".to_owned())
    } else if str_eq(oldcity, "風屋") {
        Some("十津川村".to_owned())
    } else if str_eq(oldcity, "潮岬") {
        Some("串本町".to_owned())
    } else if str_eq(oldcity, "日和佐") {
        Some("美波町".to_owned())
    } else if str_eq(oldcity, "室戸岬") {
        Some("室戸市".to_owned())
    } else if str_eq(oldcity, "厳原") {
        Some("対馬市".to_owned())
    } else if str_eq(oldcity, "福江") {
        Some("五島市".to_owned())
    } else if str_eq(oldcity, "阿蘇乙姫") {
        Some("阿蘇市".to_owned())
    } else if str_eq(oldcity, "牛深") {
        Some("天草市".to_owned())
    } else if str_eq(oldcity, "油津") {
        Some("日南市".to_owned())
    } else if str_eq(oldcity, "種子島") {
        Some("西之表市".to_owned())
    } else if str_eq(oldcity, "沖永良部") {
        Some("和泊町".to_owned())
    } else if str_eq(oldcity, "石垣島") {
        Some("石垣市".to_owned())
    } else if str_eq(oldcity, "与那国島") {
        Some("与那国町".to_owned())
    } else if str_eq(oldcity, "東京") {
        Some("千代田区".to_owned())
    } else if str_eq(oldcity, "名瀬") {
        Some("奄美市".to_owned())
    } else if str_eq(oldcity, "八幡") {
        Some("北九州市".to_owned())
    } else if str_eq(oldcity, "34216") {
        Some("大崎市".to_owned())
    } else if str_eq(oldcity, "32126") {
        Some("北秋田市".to_owned())
    } else if str_eq(oldcity, "36846") {
        Some("いわき市".to_owned())
    } else if str_eq(oldcity, "36361") {
        Some("会津若松市".to_owned())
    } else if str_eq(oldcity, "36641") {
        Some("南会津町".to_owned())
    } else if str_eq(oldcity, "44263") {
        Some("八丈町".to_owned())
    } else if str_eq(oldcity, "44301") {
        Some("小笠原村".to_owned())
    } else if str_eq(oldcity, "54651") {
        Some("上越市".to_owned())
    } else if str_eq(oldcity, "54157") {
        Some("佐渡市".to_owned())
    } else if str_eq(oldcity, "54421") {
        Some("阿賀町".to_owned())
    } else if str_eq(oldcity, "55091") {
        Some("高岡市".to_owned())
    } else if str_eq(oldcity, "49251") {
        Some("富士河口湖町".to_owned())
    } else if str_eq(oldcity, "50281") {
        Some("熱海市".to_owned())
    } else if str_eq(oldcity, "50561") {
        Some("南伊豆町".to_owned())
    } else if str_eq(oldcity, "64227") {
        Some("十津川村".to_owned())
    } else if str_eq(oldcity, "65356") {
        Some("串本町".to_owned())
    } else if str_eq(oldcity, "71266") {
        Some("美波町".to_owned())
    } else if str_eq(oldcity, "74372") {
        Some("室戸市".to_owned())
    } else if str_eq(oldcity, "84072") {
        Some("対馬市".to_owned())
    } else if str_eq(oldcity, "84536") {
        Some("五島市".to_owned())
    } else if str_eq(oldcity, "86111") {
        Some("阿蘇市".to_owned())
    } else if str_eq(oldcity, "86491") {
        Some("天草市".to_owned())
    } else if str_eq(oldcity, "87492") {
        Some("日南市".to_owned())
    } else if str_eq(oldcity, "88612") {
        Some("西之表市".to_owned())
    } else if str_eq(oldcity, "88971") {
        Some("和泊町".to_owned())
    } else if str_eq(oldcity, "94081") {
        Some("石垣市".to_owned())
    } else if str_eq(oldcity, "94017") {
        Some("与那国町".to_owned())
    } else if str_eq(oldcity, "44132") {
        Some("千代田区".to_owned())
    } else if str_eq(oldcity, "88837") {
        Some("奄美市".to_owned())
    } else if str_eq(oldcity, "82056") {
        Some("北九州市".to_owned())
    } else {
        None
    }
}

/// The area label of one temperature point: an observation-site code and
/// its display name.
pub struct TempsArea {
    pub code: String,
    pub name: String,
}

/// The mathematical value of a [`TempsArea`].
pub struct TempsAreaV {
    pub code: Seq<char>,
    pub name: Seq<char>,
}

impl View for TempsArea {
    type V = TempsAreaV;

    open spec fn view(&self) -> TempsAreaV {
        TempsAreaV { code: self.code@, name: self.name@ }
    }
}

impl DeepView for TempsArea {
    type V = TempsAreaV;

    open spec fn deep_view(&self) -> TempsAreaV {
        self.view()
    }
}

/// One temperature point of the short-range series: its area label and
/// the figures, one per time define.
pub struct Temps {
    pub area: TempsArea,
    pub temps: Vec<String>,
}

/// The mathematical value of a [`Temps`].
pub struct TempsV {
    pub area: TempsAreaV,
    pub temps: Seq<Seq<char>>,
}

impl View for Temps {
    type V = TempsV;

    open spec fn view(&self) -> TempsV {
        TempsV { area: self.area@, temps: self.temps.deep_view() }
    }
}

impl DeepView for Temps {
    type V = TempsV;

    open spec fn deep_view(&self) -> TempsV {
        self.view()
    }
}

/// The temperature time-series of a forecast document: its time defines
/// and the per-area temperature points.
pub struct PeakTemps {
    pub time_defines: Vec<String>,
    pub areas: Vec<Temps>,
}

/// The mathematical value of a [`PeakTemps`].
pub struct PeakTempsV {
    pub time_defines: Seq<Seq<char>>,
    pub areas: Seq<TempsV>,
}

impl View for PeakTemps {
    type V = PeakTempsV;

    open spec fn view(&self) -> PeakTempsV {
        PeakTempsV { time_defines: self.time_defines.deep_view(), areas: self.areas.deep_view() }
    }
}

/// The selected extremes for one area: the report time, the area label,
/// and the low and high figures with their time defines.
pub struct PeakTemp {
    pub report_datetime: String,
    pub area_name: String,
    pub area_code: String,
    pub lowest: String,
    pub lowest_datetime: String,
    pub highest: String,
    pub highest_datetime: String,
}

/// The mathematical value of a [`PeakTemp`].
pub struct PeakTempV {
    pub report_datetime: Seq<char>,
    pub area_name: Seq<char>,
    pub area_code: Seq<char>,
    pub lowest: Seq<char>,
    pub lowest_datetime: Seq<char>,
    pub highest: Seq<char>,
    pub highest_datetime: Seq<char>,
}

impl View for PeakTemp {
    type V = PeakTempV;

    open spec fn view(&self) -> PeakTempV {
        PeakTempV {
            report_datetime: self.report_datetime@,
            area_name: self.area_name@,
            area_code: self.area_code@,
            lowest: self.lowest@,
            lowest_datetime: self.lowest_datetime@,
            highest: self.highest@,
            highest_datetime: self.highest_datetime@,
        }
    }
}

/// The series index read as the day's low: in the late-night window the
/// first define is the coming low, in daytime the overnight low has
/// passed and the third define holds it.
pub open spec fn lowest_index(hour: u32) -> int {
    if 5 <= hour < 17 {
        2
    } else {
        0
    }
}

/// The series index read as the day's high.
pub open spec fn highest_index(hour: u32) -> int {
    if 5 <= hour < 17 {
        0
    } else {
        1
    }
}

/// The first temperature point whose area code equals `code`, if any.
pub open spec fn find_area(areas: Seq<TempsV>, code: Seq<char>) -> Option<TempsV>
    decreases areas.len(),
{
    if areas.len() == 0 {
        None
    } else if areas[0].area.code == code {
        Some(areas[0])
    } else {
        find_area(areas.skip(1), code)
    }
}

/// The extremes selected for an area at a given local hour: absent when
/// the area code is not in the series or an expected index is out of
/// range.
pub open spec fn peak_temperature_spec(
    p: PeakTempsV,
    report_dt: Seq<char>,
    area_code: Seq<char>,
    hour: u32,
) -> Option<PeakTempV> {
    let lo = lowest_index(hour);
    let hi = highest_index(hour);
    if p.time_defines.len() <= lo || p.time_defines.len() <= hi {
        None
    } else {
        match find_area(p.areas, area_code) {
            None => None,
            Some(a) => if a.temps.len() <= lo || a.temps.len() <= hi {
                None
            } else {
                Some(
                    PeakTempV {
                        report_datetime: report_dt,
                        area_name: a.area.name,
                        area_code: a.area.code,
                        lowest: a.temps[lo],
                        lowest_datetime: p.time_defines[lo],
                        highest: a.temps[hi],
                        highest_datetime: p.time_defines[hi],
                    },
                )
            },
        }
    }
}

proof fn lemma_find_area_skip(areas: Seq<TempsV>, code: Seq<char>, i: int)
    requires
        0 <= i <= areas.len(),
        forall|j: int| 0 <= j < i ==> areas[j].area.code != code,
    ensures
        find_area(areas, code) == find_area(areas.skip(i), code),
    decreases i,
{
    if i > 0 {
        lemma_find_area_skip(areas.skip(1), code, i - 1);
        assert(areas.skip(1).skip(i - 1) =~= areas.skip(i));
    } else {
        assert(areas.skip(0) =~= areas);
    }
}

/// Select the low and high figures for an area from the temperature
/// series, reading the indices for the given local hour.
pub fn peak_temperature(
    peaks: &PeakTemps,
    report_datetime: &str,
    area_code: &str,
    hour: u32,
) -> (r: Option<PeakTemp>)
    requires
        hour < 24,
    ensures
        r matches Some(p) ==> Some(p@) == peak_temperature_spec(
            peaks@,
            report_datetime@,
            area_code@,
            hour,
        ),
        r is None <==> peak_temperature_spec(peaks@, report_datetime@, area_code@, hour) is None,
{
    let lo: usize = if 5 <= hour && hour < 17 {
        2
    } else {
        0
    };
    let hi: usize = if 5 <= hour && hour < 17 {
        0
    } else {
        1
    };
    if lo >= peaks.time_defines.len() || hi >= peaks.time_defines.len() {
        return None;
    }
    let lowest_datetime = peaks.time_defines[lo].clone();
    let highest_datetime = peaks.time_defines[hi].clone();
    proof {
        assert(lowest_datetime@ == peaks@.time_defines[lo as int]);
        assert(highest_datetime@ == peaks@.time_defines[hi as int]);
    }
    let ghost av = peaks@.areas;
    let mut i: usize = 0;
    while i < peaks.areas.len()
        invariant
            i <= peaks.areas.len(),
            av == peaks@.areas,
            av.len() == peaks.areas@.len(),
            lo as int == lowest_index(hour),
            hi as int == highest_index(hour),
            lo < peaks@.time_defines.len(),
            hi < peaks@.time_defines.len(),
            lowest_datetime@ == peaks@.time_defines[lo as int],
            highest_datetime@ == peaks@.time_defines[hi as int],
            forall|j: int| 0 <= j < i ==> av[j].area.code != area_code@,
        decreases peaks.areas.len() - i,
    {
        let a = &peaks.areas[i];
        proof {
            assert(a.deep_view() == av[i as int]);
        }
        if str_eq(a.area.code.as_str(), area_code) {
            proof {
                lemma_find_area_skip(av, area_code@, i as int);
                assert(av.skip(i as int)[0] == av[i as int]);
            }
            if lo >= a.temps.len() || hi >= a.temps.len() {
                return None;
            }
            return Some(
                PeakTemp {
                    report_datetime: report_datetime.to_owned(),
                    area_name: a.area.name.clone(),
                    area_code: a.area.code.clone(),
                    lowest: a.temps[lo].clone(),
                    lowest_datetime,
                    highest: a.temps[hi].clone(),
                    highest_datetime,
                },
            );
        }
        i += 1;
    }
    proof {
        lemma_find_area_skip(av, area_code@, av.len() as int);
    }
    None
}

/// Whether an extremes result is exactly what the series yields for the
/// given local hour.
pub open spec fn peak_result_matches(
    r: Option<PeakTemp>,
    p: PeakTempsV,
    report_dt: Seq<char>,
    area_code: Seq<char>,
    hour: u32,
) -> bool {
    &&& (r matches Some(x) ==> Some(x@) == peak_temperature_spec(p, report_dt, area_code, hour))
    &&& (r is None <==> peak_temperature_spec(p, report_dt, area_code, hour) is None)
}

/// Relies on chrono's `Local::now` and `Timelike::hour`: whatever moment
/// the clock reports, its hour of day is below 24.
#[verifier::external_body]
fn local_hour() -> (r: u32)
    ensures
        r < 24,
{
    chrono::Local::now().hour()
}

/// Select the low and high figures for an area at the current local
/// hour. The clock only picks which series indices are read; for
/// whatever hour it reports, the result is exactly what the series
/// yields at that hour.
pub fn temperature_forecast(peaks: &PeakTemps, report_datetime: &str, area_code: &str) -> (r:
    Option<PeakTemp>)
    ensures
        exists|h: u32|
            h < 24 && #[trigger] peak_result_matches(
                r,
                peaks@,
                report_datetime@,
                area_code@,
                h,
            ),
{
    let hour = local_hour();
    let r = peak_temperature(peaks, report_datetime, area_code, hour);
    proof {
        assert(peak_result_matches(r, peaks@, report_datetime@, area_code@, hour));
    }
    r
}

} // verus!
