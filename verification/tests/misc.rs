use osms::schedule::{AssociationType, CreateOrDelete, DateIndicator, Days, LocationRecord, OriginatingLocation, RecordIdentity, YesOrNo};
use osms::time::{Date, DateTime, Time};
use osms::tmpl::TemplateContext;
use osms::updater_config::Config;

#[test]
fn weekday_values() {
    let d = Days { mon: true, tue: false, wed: true, thu: false, fri: true, sat: false, sun: true };
    assert_eq!(d.value_for_iso_weekday(1), Some(true));
    assert_eq!(d.value_for_iso_weekday(2), Some(false));
    assert_eq!(d.value_for_iso_weekday(5), Some(true));
    assert_eq!(d.value_for_iso_weekday(7), Some(true));
    assert_eq!(d.value_for_iso_weekday(0), None);
    assert_eq!(d.value_for_iso_weekday(8), None);
    assert_eq!(Days::default().value_for_iso_weekday(3), Some(false));
}

#[test]
fn days_type_sql() {
    let sql = Days::create_type();
    assert!(sql.contains("CREATE TYPE \"Days\" AS ("));
    assert!(sql.contains("sun BOOL"));
    assert!(sql.trim_end().ends_with("END$$;"));
}

#[test]
fn enum_variant_queries() {
    assert_eq!(YesOrNo::default(), YesOrNo::Y);
    assert!(YesOrNo::Y.is_y() && !YesOrNo::Y.is_n());
    assert!(CreateOrDelete::Delete.is_delete() && !CreateOrDelete::Delete.is_create());
    assert!(RecordIdentity::Intermediate.is_intermediate());
    assert!(!RecordIdentity::Terminating.is_originating());
    assert!(AssociationType::NoAssociation.is_none());
    assert!(AssociationType::Divide.is_divide());
    assert!(DateIndicator::NextMidnight.is_next_midnight());
    let lo = LocationRecord::Originating {
        record_identity: OriginatingLocation::Originating,
        tiploc_code: "EUSTON".to_string(),
        departure: Time { hour: 9, minute: 0, second: 0, nanosecond: 0 },
        public_departure: None,
        platform: None,
        line: None,
        engineering_allowance: None,
        pathing_allowance: None,
        performance_allowance: None,
    };
    assert!(lo.is_originating() && !lo.is_pass() && !lo.is_terminating() && !lo.is_intermediate());
}

#[test]
fn date_time_parts() {
    let dt = DateTime {
        date: Date { year: 2019, month: 12, day: 31 },
        time: Time { hour: 23, minute: 59, second: 59, nanosecond: 500 },
    };
    assert_eq!(dt.date(), Date { year: 2019, month: 12, day: 31 });
    assert_eq!(dt.time().nanosecond, 500);
}

#[test]
fn template_context_title() {
    let c = TemplateContext::title("index", "Home".to_string());
    assert_eq!(c.template, "index");
    assert_eq!(c.title, "Home");
    assert_eq!(c.body, ());
}

#[test]
fn updater_settings_name() {
    assert_eq!(Config::crate_name(), "tspl-fahrplan-updater");
}
