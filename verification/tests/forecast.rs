use jma::forecast::{
    find_newcity, office_for_url, peak_temperature, temperature_forecast, PeakTemps, Temps,
    TempsArea,
};

fn sample_peaks() -> PeakTemps {
    PeakTemps {
        time_defines: vec![
            "2025-03-29T00:00:00+09:00".to_string(),
            "2025-03-29T09:00:00+09:00".to_string(),
            "2025-03-30T00:00:00+09:00".to_string(),
        ],
        areas: vec![
            Temps {
                area: TempsArea {
                    code: "31312".to_string(),
                    name: "青森".to_string(),
                },
                temps: vec!["3".to_string(), "9".to_string(), "1".to_string()],
            },
            Temps {
                area: TempsArea {
                    code: "14163".to_string(),
                    name: "札幌".to_string(),
                },
                temps: vec!["-1".to_string(), "2".to_string(), "-4".to_string()],
            },
        ],
    }
}

#[test]
fn office_for_url_redirects_unpublished_codes() {
    assert_eq!(office_for_url("014030"), "014100");
    assert_eq!(office_for_url("460040"), "460100");
    assert_eq!(office_for_url("016000"), "016000");
    assert_eq!(office_for_url(""), "");
}

#[test]
fn find_newcity_by_name_and_code() {
    assert_eq!(find_newcity("古川"), Some("大崎市".to_string()));
    assert_eq!(find_newcity("34216"), Some("大崎市".to_string()));
    assert_eq!(find_newcity("東京"), Some("千代田区".to_string()));
    assert_eq!(find_newcity("94017"), Some("与那国町".to_string()));
    assert_eq!(find_newcity("札幌"), None);
    assert_eq!(find_newcity(""), None);
}

#[test]
fn peak_temperature_daytime_indices() {
    // In the daytime window the overnight low has passed: the third
    // define holds the low, the first the high.
    let peaks = sample_peaks();
    let p = peak_temperature(&peaks, "2025-03-28T17:00:00+09:00", "31312", 10).unwrap();
    assert_eq!(p.report_datetime, "2025-03-28T17:00:00+09:00");
    assert_eq!(p.area_name, "青森");
    assert_eq!(p.area_code, "31312");
    assert_eq!(p.lowest, "1");
    assert_eq!(p.lowest_datetime, "2025-03-30T00:00:00+09:00");
    assert_eq!(p.highest, "3");
    assert_eq!(p.highest_datetime, "2025-03-29T00:00:00+09:00");
}

#[test]
fn peak_temperature_nighttime_indices() {
    // Outside the daytime window the first define is the coming low and
    // the second the high.
    let peaks = sample_peaks();
    let p = peak_temperature(&peaks, "2025-03-28T17:00:00+09:00", "14163", 20).unwrap();
    assert_eq!(p.area_name, "札幌");
    assert_eq!(p.lowest, "-1");
    assert_eq!(p.lowest_datetime, "2025-03-29T00:00:00+09:00");
    assert_eq!(p.highest, "2");
    assert_eq!(p.highest_datetime, "2025-03-29T09:00:00+09:00");
}

#[test]
fn peak_temperature_unknown_area_is_absent() {
    let peaks = sample_peaks();
    assert!(peak_temperature(&peaks, "2025-03-28T17:00:00+09:00", "00000", 10).is_none());
}

#[test]
fn peak_temperature_short_series_is_absent() {
    // A daytime request needs three defines; only two are present.
    let mut peaks = sample_peaks();
    peaks.time_defines.pop();
    assert!(peak_temperature(&peaks, "2025-03-28T17:00:00+09:00", "31312", 10).is_none());
    // The nighttime indices still fit.
    assert!(peak_temperature(&peaks, "2025-03-28T17:00:00+09:00", "31312", 20).is_some());
    // An area with too few figures is absent as well.
    let mut peaks = sample_peaks();
    peaks.areas[0].temps.pop();
    assert!(peak_temperature(&peaks, "2025-03-28T17:00:00+09:00", "31312", 10).is_none());
}

#[test]
fn temperature_forecast_follows_the_clock() {
    // Whatever the current hour, the result must be one of the two
    // selections the series allows.
    let peaks = sample_peaks();
    let p = temperature_forecast(&peaks, "2025-03-28T17:00:00+09:00", "31312").unwrap();
    let day = peak_temperature(&peaks, "2025-03-28T17:00:00+09:00", "31312", 10).unwrap();
    let night = peak_temperature(&peaks, "2025-03-28T17:00:00+09:00", "31312", 20).unwrap();
    let matches_day = p.lowest == day.lowest && p.highest == day.highest;
    let matches_night = p.lowest == night.lowest && p.highest == night.highest;
    assert!(matches_day || matches_night);
}
