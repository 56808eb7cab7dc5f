use osms::errors::DarwinError;
use osms::forecasts::{DisruptionReason, PlatformData, PlatformSource, Ts, TsLocation, TsTimeData};
use osms::text::{parse_bool, parse_u32, str_eq};
use osms::time::{parse_date, parse_time, Date, Time};
use osms::xml::{XmlAttribute, XmlElement, XmlNode};

fn el(name: &str, attrs: &[(&str, &str)], children: Vec<XmlNode>) -> XmlElement {
    XmlElement {
        name: name.to_string(),
        attributes: attrs
            .iter()
            .map(|(n, v)| XmlAttribute { name: n.to_string(), value: v.to_string() })
            .collect(),
        children,
    }
}

fn text(t: &str) -> XmlNode {
    XmlNode::Text(t.to_string())
}

fn child(e: XmlElement) -> XmlNode {
    XmlNode::Element(e)
}

fn hms(h: u32, m: u32, s: u32) -> Time {
    Time { hour: h, minute: m, second: s, nanosecond: 0 }
}

#[test]
fn platform_source_codes() {
    assert_eq!(PlatformSource::from_str("P").unwrap(), PlatformSource::Planned);
    assert_eq!(PlatformSource::from_str("A").unwrap(), PlatformSource::Automatic);
    assert_eq!(PlatformSource::from_str("M").unwrap(), PlatformSource::Manual);
    match PlatformSource::from_str("X") {
        Err(DarwinError::Expected(what, found)) => {
            assert_eq!(what, "one of P, A, or M");
            assert_eq!(found, "X");
        }
        other => panic!("unexpected {:?}", other),
    }
    assert!(PlatformSource::from_str("p").is_err());
    assert!(PlatformSource::from_str("").is_err());
}

#[test]
fn platform_source_default_is_planned() {
    assert_eq!(PlatformSource::default(), PlatformSource::Planned);
}

#[test]
fn platform_data_reads_flags_and_number() {
    let e = el(
        "plat",
        &[("platsup", "true"), ("platsrc", "A"), ("conf", "true"), ("cisPlatsup", "false"), ("other", "x")],
        vec![text("1"), text("12")],
    );
    let p = PlatformData::from_xml_element(&e).unwrap();
    assert_eq!(p.platform, "12");
    assert!(p.platsup);
    assert!(!p.cis_platsup);
    assert_eq!(p.platsrc, PlatformSource::Automatic);
    assert!(p.conf);
}

#[test]
fn platform_data_defaults() {
    let p = PlatformData::from_xml_element(&el("plat", &[], vec![text("3a")])).unwrap();
    assert_eq!(p.platform, "3a");
    assert!(!p.platsup && !p.cis_platsup && !p.conf);
    assert_eq!(p.platsrc, PlatformSource::Planned);
}

#[test]
fn platform_data_errors() {
    match PlatformData::from_xml_element(&el("plat", &[], vec![])) {
        Err(DarwinError::Missing(f)) => assert_eq!(f, "platform"),
        other => panic!("unexpected {:?}", other),
    }
    match PlatformData::from_xml_element(&el("plat", &[("conf", "yes")], vec![text("1")])) {
        Err(DarwinError::InvalidBool(v)) => assert_eq!(v, "yes"),
        other => panic!("unexpected {:?}", other),
    }
    match PlatformData::from_xml_element(&el("plat", &[("platsrc", "Q")], vec![text("1")])) {
        Err(DarwinError::Expected(_, v)) => assert_eq!(v, "Q"),
        other => panic!("unexpected {:?}", other),
    }
    // The first failing attribute decides the error.
    match PlatformData::from_xml_element(&el("plat", &[("conf", "1"), ("platsrc", "Q")], vec![text("1")])) {
        Err(DarwinError::InvalidBool(v)) => assert_eq!(v, "1"),
        other => panic!("unexpected {:?}", other),
    }
}

#[test]
fn darwin_times_and_dates() {
    assert_eq!(parse_time("12:34"), Some(hms(12, 34, 0)));
    assert_eq!(parse_time("07:05:30"), Some(hms(7, 5, 30)));
    assert_eq!(parse_time("24:00"), None);
    assert_eq!(parse_time("noon"), None);
    assert_eq!(parse_date("2018-03-01"), Some(Date { year: 2018, month: 3, day: 1 }));
    assert_eq!(parse_date("2018-02-30"), None);
}

#[test]
fn ts_time_data_reads_attributes() {
    let e = el(
        "arr",
        &[
            ("et", "10:15"),
            ("wet", "10:14:30"),
            ("at", "10:16"),
            ("etmin", "10:00"),
            ("atRemoved", "true"),
            ("etUnknown", "true"),
            ("delayed", "false"),
            ("src", "TD"),
            ("srcInst", "at09"),
            ("atClass", "Automatic"),
        ],
        vec![text("ignored")],
    );
    let d = TsTimeData::from_xml_element(&e).unwrap();
    assert_eq!(d.et, Some(hms(10, 15, 0)));
    assert_eq!(d.wet, Some(hms(10, 14, 30)));
    assert_eq!(d.at, Some(hms(10, 16, 0)));
    assert_eq!(d.etmin, Some(hms(10, 0, 0)));
    assert!(d.at_removed && d.et_unknown && !d.delayed);
    assert_eq!(d.src.as_deref(), Some("TD"));
    assert_eq!(d.src_inst.as_deref(), Some("at09"));
    assert_eq!(d.at_class.as_deref(), Some("Automatic"));
}

#[test]
fn ts_time_data_default_and_errors() {
    let d = TsTimeData::from_xml_element(&el("dep", &[], vec![])).unwrap();
    assert_eq!(d.et, None);
    assert!(!d.at_removed);
    assert_eq!(d.src, None);
    match TsTimeData::from_xml_element(&el("dep", &[("et", "25:00")], vec![])) {
        Err(DarwinError::InvalidTime(v)) => assert_eq!(v, "25:00"),
        other => panic!("unexpected {:?}", other),
    }
}

#[test]
fn ts_location_reads_children() {
    let e = el(
        "Location",
        &[("tpl", "EUSTON"), ("wtd", "09:00:30"), ("ptd", "09:00")],
        vec![
            child(el("dep", &[("et", "09:02")], vec![])),
            child(el("plat", &[("conf", "true")], vec![text("14")])),
            child(el("length", &[], vec![text("12")])),
            child(el("suppr", &[], vec![text("true")])),
            child(el("detachFront", &[], vec![text("false")])),
            child(el("unknown", &[], vec![])),
            text("  "),
        ],
    );
    let l = TsLocation::from_xml_element(&e).unwrap();
    assert_eq!(l.tiploc, "EUSTON");
    assert_eq!(l.timings.wtd, Some(hms(9, 0, 30)));
    assert_eq!(l.timings.ptd, Some(hms(9, 0, 0)));
    assert_eq!(l.timings.wta, None);
    assert_eq!(l.dep.unwrap().et, Some(hms(9, 2, 0)));
    assert!(l.arr.is_none() && l.pass.is_none());
    assert_eq!(l.plat.unwrap().platform, "14");
    assert_eq!(l.length, 12);
    assert!(l.suppr);
    assert!(!l.detach_front);
}

#[test]
fn ts_location_errors() {
    match TsLocation::from_xml_element(&el("Location", &[], vec![])) {
        Err(DarwinError::Missing(f)) => assert_eq!(f, "tiploc"),
        other => panic!("unexpected {:?}", other),
    }
    let bad_len = el("Location", &[("tpl", "X")], vec![child(el("length", &[], vec![text("-1")]))]);
    match TsLocation::from_xml_element(&bad_len) {
        Err(DarwinError::InvalidInt(v)) => assert_eq!(v, "-1"),
        other => panic!("unexpected {:?}", other),
    }
    let empty_len = el("Location", &[("tpl", "X")], vec![child(el("length", &[], vec![]))]);
    match TsLocation::from_xml_element(&empty_len) {
        Err(DarwinError::Missing(f)) => assert_eq!(f, "value"),
        other => panic!("unexpected {:?}", other),
    }
    // A child error comes before the missing TIPLOC.
    let both = el("Location", &[], vec![child(el("suppr", &[], vec![text("maybe")]))]);
    assert!(matches!(TsLocation::from_xml_element(&both), Err(DarwinError::InvalidBool(_))));
}

#[test]
fn train_status_reads_locations_in_order() {
    let e = el(
        "TS",
        &[("rid", "201803011234567"), ("uid", "C12345"), ("ssd", "2018-03-01"), ("isReverseFormation", "true")],
        vec![
            child(el("LateReason", &[("tiploc", "CREWE"), ("near", "true")], vec![text("104")])),
            child(el("Location", &[("tpl", "A")], vec![])),
            child(el("Location", &[("tpl", "B")], vec![])),
        ],
    );
    let ts = Ts::from_xml_element(&e).unwrap();
    assert_eq!(ts.rid, "201803011234567");
    assert_eq!(ts.uid, "C12345");
    assert_eq!(ts.start_date, Date { year: 2018, month: 3, day: 1 });
    assert!(ts.is_reverse_formation);
    let names: Vec<&str> = ts.locations.iter().map(|l| l.tiploc.as_str()).collect();
    assert_eq!(names, vec!["A", "B"]);
    // No length given: zero, the unknown length.
    assert_eq!(ts.locations[0].length, 0);
    assert!(!ts.locations[1].suppr);
    let r = ts.late_reason.unwrap();
    assert_eq!(r.reason, 104);
    assert_eq!(r.tiploc.as_deref(), Some("CREWE"));
    assert!(r.near);
}

#[test]
fn train_status_required_fields() {
    match Ts::from_xml_element(&el("TS", &[("uid", "U"), ("ssd", "2018-03-01")], vec![])) {
        Err(DarwinError::Missing(f)) => assert_eq!(f, "rid"),
        other => panic!("unexpected {:?}", other),
    }
    match Ts::from_xml_element(&el("TS", &[("rid", "R"), ("ssd", "2018-03-01")], vec![])) {
        Err(DarwinError::Missing(f)) => assert_eq!(f, "uid"),
        other => panic!("unexpected {:?}", other),
    }
    match Ts::from_xml_element(&el("TS", &[("rid", "R"), ("uid", "U")], vec![])) {
        Err(DarwinError::Missing(f)) => assert_eq!(f, "start_date"),
        other => panic!("unexpected {:?}", other),
    }
    match Ts::from_xml_element(&el("TS", &[("rid", "R"), ("uid", "U"), ("ssd", "01/03/2018")], vec![])) {
        Err(DarwinError::InvalidDate(v)) => assert_eq!(v, "01/03/2018"),
        other => panic!("unexpected {:?}", other),
    }
    let ts = Ts::from_xml_element(&el("TS", &[("rid", "R"), ("uid", "U"), ("ssd", "2020-12-31")], vec![])).unwrap();
    assert!(ts.locations.is_empty());
    assert!(ts.late_reason.is_none());
    assert!(!ts.is_reverse_formation);
}

#[test]
fn disruption_reason_errors() {
    match DisruptionReason::from_xml_element(&el("LateReason", &[], vec![])) {
        Err(DarwinError::Missing(f)) => assert_eq!(f, "reason"),
        other => panic!("unexpected {:?}", other),
    }
    let r = DisruptionReason::from_xml_element(&el("LateReason", &[], vec![text("7")])).unwrap();
    assert_eq!(r.reason, 7);
    assert_eq!(r.tiploc, None);
    assert!(!r.near);
}

#[test]
fn standard_number_and_boolean_rules() {
    assert_eq!(parse_u32("0"), Some(0));
    assert_eq!(parse_u32("+42"), Some(42));
    assert_eq!(parse_u32("007"), Some(7));
    assert_eq!(parse_u32("4294967295"), Some(u32::MAX));
    assert_eq!(parse_u32("4294967296"), None);
    assert_eq!(parse_u32("99999999999999999999"), None);
    assert_eq!(parse_u32(""), None);
    assert_eq!(parse_u32("+"), None);
    assert_eq!(parse_u32("-1"), None);
    assert_eq!(parse_u32("1 "), None);
    for s in ["0", "+1", "12", "4294967295", "4294967296", "", "+", "-0", "a1", "1a"] {
        assert_eq!(parse_u32(s), s.parse::<u32>().ok(), "{}", s);
    }
    assert_eq!(parse_bool("true"), Some(true));
    assert_eq!(parse_bool("false"), Some(false));
    assert_eq!(parse_bool("True"), None);
    assert_eq!(parse_bool("1"), None);
    assert!(str_eq("abc", "abc"));
    assert!(!str_eq("abc", "abd"));
}
