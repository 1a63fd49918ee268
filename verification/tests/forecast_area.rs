use jma::forecast_area::{AmedasObservationSite, ForecastArea, OfficeEntry};

fn site(class10: &str, amedas: &[&str], class20: &str) -> AmedasObservationSite {
    AmedasObservationSite {
        class10: class10.to_string(),
        amedas: amedas.iter().map(|s| s.to_string()).collect(),
        class20: class20.to_string(),
    }
}

/// The Nagano office rows, as the cross-reference document lists them.
fn sample() -> ForecastArea {
    ForecastArea {
        offices: vec![
            OfficeEntry {
                code: "200000".to_string(),
                sites: vec![
                    site("200010", &["48156"], "2020100"),
                    site("200020", &["48361", "48491", "48331"], "2020201"),
                ],
            },
            OfficeEntry {
                code: "016000".to_string(),
                sites: vec![site("016010", &["14163"], "0110000")],
            },
        ],
    }
}

#[test]
fn offices_hold_their_rows() {
    let forecast_area = sample();
    assert_eq!(forecast_area.offices[0].sites[0].class10, "200010");
    assert_eq!(forecast_area.offices[0].sites[1].class10, "200020");
    assert_eq!(forecast_area.offices[0].sites[1].amedas[0], "48361");
    assert_eq!(forecast_area.offices[0].sites[1].amedas[1], "48491");
    assert_eq!(forecast_area.offices[0].sites[1].amedas[2], "48331");
    assert_eq!(forecast_area.offices[0].sites[1].class20, "2020201");
}

#[test]
fn amedas_by_class10_lists_sites() {
    let forecast_area = sample();
    let amedas = forecast_area.get_amedas_by_class10("200020").unwrap();
    assert_eq!(amedas.len(), 3);
    assert_eq!(amedas[0], "48361");
    assert_eq!(amedas[1], "48491");
    assert_eq!(amedas[2], "48331");
    assert!(forecast_area.get_amedas_by_class10("999999").is_none());
}

#[test]
fn office_by_amedas_finds_the_office() {
    let forecast_area = sample();
    assert_eq!(forecast_area.get_office_by_amedas("48491"), Some("200000".to_string()));
    assert_eq!(forecast_area.get_office_by_amedas("14163"), Some("016000".to_string()));
    assert_eq!(forecast_area.get_office_by_amedas("00000"), None);
}
