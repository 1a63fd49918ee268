use jma::amedas::{
    create_amedas_url, station_information, svg_url, weather_emoji, amedas_weather_emoji_discord,
    amedas_weather_emoji_slack, Amedas, AmedasData, AmedasError, AmedasRawData, AmedasStation,
    StationEntry,
};

fn reading(weather: Option<(u32, u32)>, snow1h: Option<(i64, u32)>, temp: i64) -> AmedasRawData {
    AmedasRawData {
        pressure: (10051, 0),
        temp: (temp, 0),
        humidity: (690, 0),
        visibility: (200000, 0),
        weather,
        snow1h,
        precipitation10m: (0, 0),
        wind_direction: (Some(3), 0),
        wind: (Some(20), 0),
    }
}

#[test]
fn test_create_amedas_url() {
    let amedas_code = "12345";

    let latest_time_str = "2025-10-10T02:15:35+09:00";
    let normal0 = create_amedas_url(amedas_code, latest_time_str).unwrap();
    assert_eq!(
        normal0,
        "https://www.jma.go.jp/bosai/amedas/data/point/12345/20251010_00.json"
    );

    let latest_time_str = "2025-10-10T23:15:35+09:00";
    let normal21 = create_amedas_url(amedas_code, latest_time_str).unwrap();
    assert_eq!(
        normal21,
        "https://www.jma.go.jp/bosai/amedas/data/point/12345/20251010_21.json"
    );

    let latest_time_parse_error_str = "2025-10-10";
    assert!(create_amedas_url(amedas_code, latest_time_parse_error_str).is_err());
}

#[test]
fn create_amedas_url_buckets_every_hour() {
    // Hour bucket is the hour rounded down to a multiple of three.
    let cases = [
        (0, "00"),
        (2, "00"),
        (3, "03"),
        (5, "03"),
        (8, "06"),
        (11, "09"),
        (12, "12"),
        (16, "15"),
        (17, "15"),
        (20, "18"),
        (21, "21"),
        (23, "21"),
    ];
    for (hour, bucket) in cases {
        let ts = format!("2025-01-31T{:02}:59:00+09:00", hour);
        let url = create_amedas_url("44132", &ts).unwrap();
        let expected = format!(
            "https://www.jma.go.jp/bosai/amedas/data/point/44132/20250131_{}.json",
            bucket
        );
        assert_eq!(url, expected);
    }
}

#[test]
fn create_amedas_url_malformed_is_parse_error() {
    let err = create_amedas_url("12345", "not a timestamp").unwrap_err();
    assert!(matches!(err, AmedasError::ChronoParseError(_)));
    let err = create_amedas_url("12345", "2025-10-10T25:00:00+09:00").unwrap_err();
    assert!(matches!(err, AmedasError::ChronoParseError(_)));
}

#[test]
fn latest_reading_merges_sparse_weather() {
    // The later entry carries no weather; the earlier one does. The
    // numeric fields come from the later entry, the weather fields from
    // the earlier one.
    let earlier = reading(Some((1, 0)), Some((30, 0)), 4);
    let later = reading(None, None, 100);
    let amedas = Amedas {
        amedas_code: "14163".to_string(),
        data: vec![(20251010100000, later), (20251010070000, earlier)],
        latest_time: "2025-10-10T10:40:00+09:00".to_string(),
    };
    let merged = amedas.get_latest_data().unwrap();
    assert_eq!(merged.temp, (100, 0));
    assert_eq!(merged.pressure, (10051, 0));
    assert_eq!(merged.weather, Some((1, 0)));
    assert_eq!(merged.snow1h, Some((30, 0)));
}

#[test]
fn latest_reading_picks_earliest_weather_entry() {
    let a = reading(Some((2, 0)), None, 1);
    let b = reading(Some((9, 0)), None, 2);
    let c = reading(None, None, 3);
    let amedas = Amedas {
        amedas_code: "14163".to_string(),
        data: vec![(3, c), (2, b), (1, a)],
        latest_time: String::new(),
    };
    let merged = amedas.get_latest_data().unwrap();
    // Latest numeric entry is key 3; weather comes from key 1, the
    // earliest entry that carries a code.
    assert_eq!(merged.temp, (3, 0));
    assert_eq!(merged.weather, Some((2, 0)));
}

#[test]
fn latest_reading_empty_is_absent() {
    let amedas = Amedas {
        amedas_code: "14163".to_string(),
        data: vec![],
        latest_time: String::new(),
    };
    assert!(amedas.get_latest_data().is_none());
}

fn station(name: &str) -> AmedasStation {
    AmedasStation {
        station_type: "A".to_string(),
        elems: "11112010".to_string(),
        lat: (43, 36),
        lon: (141, 197),
        alt: 17,
        kanji_name: name.to_string(),
        kana_name: "サッポロ".to_string(),
        english_name: "Sapporo".to_string(),
    }
}

#[test]
fn station_information_finds_station() {
    let stations = vec![
        StationEntry {
            code: "11001".to_string(),
            station: station("宗谷岬"),
        },
        StationEntry {
            code: "14163".to_string(),
            station: station("札幌"),
        },
    ];
    let found = station_information(&stations, "14163").unwrap();
    assert_eq!(found.kanji_name, "札幌");
    assert_eq!(found.english_name, "Sapporo");
    assert_eq!(found.lat, (43, 36));
}

#[test]
fn station_information_missing_is_not_found() {
    // An absent station code is reported as missing data, not as an
    // empty or default record.
    let stations = vec![StationEntry {
        code: "14163".to_string(),
        station: station("札幌"),
    }];
    let err = station_information(&stations, "99999").unwrap_err();
    match err {
        AmedasError::NoData(msg) => assert_eq!(msg, "99999 not found"),
        other => panic!("expected NoData, got {:?}", other),
    }
    let err = station_information(&vec![], "14163").unwrap_err();
    assert!(matches!(err, AmedasError::NoData(_)));
}

#[test]
fn weather_emoji_tables() {
    assert_eq!(weather_emoji(0, amedas_weather_emoji_slack()), ":sunny:");
    assert_eq!(weather_emoji(4, amedas_weather_emoji_slack()), ":umbrella_with_rain_drops:");
    assert_eq!(weather_emoji(4, amedas_weather_emoji_discord()), ":umbrella:");
    assert_eq!(weather_emoji(100, amedas_weather_emoji_discord()), ":night_with_stars:");
    // A code absent from the table falls back to the sentinel entry.
    assert_eq!(weather_emoji(777, amedas_weather_emoji_slack()), ":construction:");
    assert_eq!(weather_emoji(999, amedas_weather_emoji_discord()), ":construction:");
}

#[test]
fn svg_url_picks_day_night_and_sentinel() {
    assert_eq!(svg_url(0, false), "https://www.jma.go.jp/bosai/forecast/img/100.svg");
    assert_eq!(svg_url(0, true), "https://www.jma.go.jp/bosai/forecast/img/500.svg");
    assert_eq!(svg_url(9, false), "https://www.jma.go.jp/bosai/forecast/img/403.svg");
    // Codes outside the table draw the sentinel icon.
    assert_eq!(svg_url(17, true), "https://www.jma.go.jp/bosai/forecast/img/308.svg");
    assert_eq!(svg_url(200, false), "https://www.jma.go.jp/bosai/forecast/img/308.svg");
}

#[test]
fn from_raw_derives_display_fields() {
    let raw = reading(Some((9, 0)), Some((120, 0)), -5);
    let data = AmedasData::from_raw(&raw);
    assert_eq!(data.pressure_hpa, 10051);
    assert_eq!(data.temp_c, -5);
    assert_eq!(data.weather, Some(9));
    assert_eq!(data.snow1h, Some(120));
    assert_eq!(data.wind_direction, 3);
    assert_eq!(data.wind_mps, 20);
    assert_eq!(data.weather_slack_emoji, ":snowflake:");
    assert_eq!(data.weather_discord_emoji, ":snowflake:");
    assert_eq!(data.wind_direction_str, "ENE");
    assert_eq!(data.wind_direction_emoji, "⇐");
}

#[test]
fn from_raw_defaults_missing_fields() {
    let mut raw = reading(None, None, 0);
    raw.wind_direction = (None, 0);
    raw.wind = (None, 0);
    let data = AmedasData::from_raw(&raw);
    assert_eq!(data.weather, None);
    // No weather code displays the sentinel label.
    assert_eq!(data.weather_slack_emoji, ":construction:");
    assert_eq!(data.weather_discord_emoji, ":construction:");
    // A missing direction or speed is treated as calm.
    assert_eq!(data.wind_direction, 0);
    assert_eq!(data.wind_mps, 0);
    assert_eq!(data.wind_direction_str, "--");
    assert_eq!(data.wind_direction_emoji, "・");
}
