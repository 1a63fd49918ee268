use jma::area::{Area, AreaEntry, Areas, JmaAreaClass, RawArea};

fn raw(name: &str, en_name: &str, kana: Option<&str>, parent: Option<&str>) -> RawArea {
    RawArea {
        name: name.to_string(),
        en_name: en_name.to_string(),
        kana: kana.map(|s| s.to_string()),
        parent: parent.map(|s| s.to_string()),
        office_name: None,
        children: None,
    }
}

fn entry(code: &str, area: RawArea) -> AreaEntry {
    AreaEntry {
        code: code.to_string(),
        area,
    }
}

/// A small hierarchy around Maebashi City, as the service publishes it.
fn sample_areas() -> Areas {
    let centers = vec![entry("010300", raw("関東甲信地方", "Kanto Koshin", None, None))];
    let mut gunma = raw("群馬県", "Gunma", None, Some("010300"));
    gunma.office_name = Some("前橋地方気象台".to_string());
    gunma.children = Some(vec!["100010".to_string(), "100020".to_string()]);
    let offices = vec![entry("100000", gunma)];
    let class10s = vec![entry(
        "100010",
        raw("南部", "Southern Region", None, Some("100000")),
    )];
    let class15s = vec![entry(
        "100011",
        raw("前橋・桐生地域", "Maebashi Kiryu Area", None, Some("100010")),
    )];
    let class20s = vec![entry(
        "1020100",
        raw("前橋市", "Maebashi City", Some("まえばしし"), Some("100011")),
    )];
    Areas::new(centers, offices, class10s, class15s, class20s)
}

#[test]
fn values_returns_record_under_its_code() {
    let areas = sample_areas();
    let v = areas.values(&JmaAreaClass::Class20, "1020100").unwrap();
    assert_eq!(v.area.name, "前橋市");
    assert_eq!(v.area.en_name, "Maebashi City");
    assert_eq!(v.area.kana, Some("まえばしし".to_string()));
    assert_eq!(v.area.parent, Some("100011".to_string()));
    assert_eq!(v.area.office_name, None);
    assert_eq!(v.area.children, None);
    assert_eq!(v.class, JmaAreaClass::Class20);
    assert_eq!(v.code, "1020100");
}

#[test]
fn values_is_level_scoped() {
    let areas = sample_areas();
    // A Class20 code must never resolve against another level's table.
    assert!(areas.values(&JmaAreaClass::Office, "1020100").is_none());
    assert!(areas.values(&JmaAreaClass::Class20, "100000").is_none());
    assert!(areas.values(&JmaAreaClass::Class20, "missing").is_none());
}

#[test]
fn ancestor_walks_to_office() {
    let areas = sample_areas();
    let v = areas.values(&JmaAreaClass::Class20, "1020100").unwrap();
    let a = areas.ancestor(&v, &JmaAreaClass::Office).unwrap();
    assert_eq!(a.area.name, "群馬県");
    assert_eq!(a.area.en_name, "Gunma");
    assert_eq!(a.area.office_name, Some("前橋地方気象台".to_string()));
    assert_eq!(a.class, JmaAreaClass::Office);
    assert_eq!(a.code, "100000");
}

#[test]
fn ancestor_at_own_class_is_identity() {
    let areas = sample_areas();
    let v = areas.values(&JmaAreaClass::Office, "100000").unwrap();
    let a = areas.ancestor(&v, &JmaAreaClass::Office).unwrap();
    assert_eq!(a.area.name, "群馬県");
    assert_eq!(a.class, JmaAreaClass::Office);
    assert_eq!(a.code, "100000");
}

#[test]
fn ancestor_below_never_found() {
    let areas = sample_areas();
    // Walking upward can never reach a lower level.
    let v = areas.values(&JmaAreaClass::Office, "100000").unwrap();
    assert!(areas.ancestor(&v, &JmaAreaClass::Class20).is_none());
}

#[test]
fn ancestor_stops_on_missing_parent() {
    let areas = sample_areas();
    // A record without a parent code ends the walk with no result.
    let orphan = Area::new(
        &JmaAreaClass::Class15,
        "999999",
        &raw("どこか", "Nowhere", None, None),
    );
    assert!(areas.ancestor(&orphan, &JmaAreaClass::Center).is_none());
    // A parent code that resolves nowhere also ends the walk.
    let dangling = Area::new(
        &JmaAreaClass::Class15,
        "999998",
        &raw("どこか", "Nowhere", None, Some("888888")),
    );
    assert!(areas.ancestor(&dangling, &JmaAreaClass::Center).is_none());
}

#[test]
fn search_finds_exact_code() {
    let areas = sample_areas();
    let k = areas.search("100011");
    assert_eq!(k.len(), 1);
    assert_eq!(k[0].code, "100011");
    assert_eq!(k[0].area.name, "前橋・桐生地域");
    assert_eq!(k[0].area.en_name, "Maebashi Kiryu Area");
    assert_eq!(k[0].class, JmaAreaClass::Class15);
}

#[test]
fn search_matches_name_and_english_name_prefixes() {
    let areas = sample_areas();
    // The localized name starts with the keyword.
    let k = areas.search("前橋市");
    assert_eq!(k.len(), 1);
    assert_eq!(k[0].code, "1020100");
    // The English name is matched case-insensitively.
    let k = areas.search("MAEBASHI K");
    assert_eq!(k.len(), 1);
    assert_eq!(k[0].code, "100011");
    let k = areas.search("nothing matches this");
    assert!(k.is_empty());
}

#[test]
fn search_keeps_one_hit_per_criterion() {
    // A record matching several criteria appears once per criterion.
    let class20s = vec![entry("abc", raw("abc", "Abcville", None, None))];
    let areas = Areas::new(vec![], vec![], vec![], vec![], class20s);
    let k = areas.search("abc");
    // Code match, localized-name prefix, and English-name prefix all hit.
    assert_eq!(k.len(), 3);
    assert!(k.iter().all(|a| a.code == "abc"));
}

#[test]
fn search_class20s_only_scans_cities() {
    let areas = sample_areas();
    assert_eq!(areas.search_class20s("前橋市").len(), 1);
    assert!(areas.search_class20s("100011").is_empty());
}

#[test]
fn class_parent_child_adjacency() {
    assert_eq!(JmaAreaClass::Center.parent(), None);
    assert_eq!(JmaAreaClass::Office.parent(), Some(JmaAreaClass::Center));
    assert_eq!(JmaAreaClass::Class20.parent(), Some(JmaAreaClass::Class15));
    assert_eq!(JmaAreaClass::Center.child(), Some(JmaAreaClass::Office));
    assert_eq!(JmaAreaClass::Class15.child(), Some(JmaAreaClass::Class20));
    assert_eq!(JmaAreaClass::Class20.child(), None);
}

#[test]
fn class_names_parse_case_insensitively() {
    assert_eq!(JmaAreaClass::to_jma_area_class("offices"), Some(JmaAreaClass::Office));
    assert_eq!(JmaAreaClass::to_jma_area_class("Office"), Some(JmaAreaClass::Office));
    assert_eq!(JmaAreaClass::to_jma_area_class("CENTERS"), Some(JmaAreaClass::Center));
    assert_eq!(JmaAreaClass::to_jma_area_class("class10"), Some(JmaAreaClass::Class10));
    assert_eq!(JmaAreaClass::to_jma_area_class("class15s"), Some(JmaAreaClass::Class15));
    assert_eq!(JmaAreaClass::to_jma_area_class("Class20"), Some(JmaAreaClass::Class20));
    assert_eq!(JmaAreaClass::to_jma_area_class("county"), None);
}

#[test]
fn parent_resolves_one_level_up() {
    let areas = sample_areas();
    let v = areas.values(&JmaAreaClass::Class20, "1020100").unwrap();
    let p = areas.parent(&v).unwrap();
    assert_eq!(p.class, JmaAreaClass::Class15);
    assert_eq!(p.code, "100011");
    // The root level has no parent.
    let c = areas.values(&JmaAreaClass::Center, "010300").unwrap();
    assert!(areas.parent(&c).is_none());
}

#[test]
fn areas_accessor_returns_level_table() {
    let areas = sample_areas();
    let offices = areas.areas(&JmaAreaClass::Office);
    assert_eq!(offices.len(), 1);
    assert_eq!(offices[0].code, "100000");
    assert_eq!(areas.areas(&JmaAreaClass::Class20)[0].code, "1020100");
}
