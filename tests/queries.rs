use timedate::{Instant, TimeDateServer, TimeError, add_hours, parse_instant, resolve, select_zones};

fn instant(secs: i64) -> Instant {
    Instant::from_parts(secs, 0).unwrap()
}

// 2024-07-01T12:00:00Z
const JULY_NOON: i64 = 1_719_835_200;

#[test]
fn date_only_is_local_midnight_in_new_york() {
    let server = TimeDateServer::new();
    let info = server
        .get_time_at("2024-07-01".to_string(), Some("America/New_York".to_string()), instant(0))
        .unwrap();
    assert_eq!(info.format_24h, "00:00:00");
    assert_eq!(info.format_12h, "12:00:00 AM");
    assert_eq!(info.utc_offset, "-0400");
    assert_eq!(info.timezone, "EDT");
    assert_eq!(info.timestamp, "2024-07-01T00:00:00-04:00");
    assert!(!info.is_dst);
}

#[test]
fn unreadable_text_is_invalid_time_format() {
    let server = TimeDateServer::new();
    let r = server.get_time_at("not-a-date".to_string(), None, instant(0));
    assert!(matches!(r, Err(TimeError::InvalidTimeFormat(ref t)) if t == "not-a-date"));
}

#[test]
fn unknown_zone_is_refused() {
    let server = TimeDateServer::new();
    let r = server.get_current_time(Some("Mars/Phobos".to_string()), instant(0));
    assert!(matches!(r, Err(TimeError::UnknownTimezone(ref t)) if t == "Mars/Phobos"));
    assert!(matches!(resolve(Some("america/new_york")), Err(TimeError::UnknownTimezone(_))));
}

#[test]
fn utc_resolves_without_lookup() {
    assert!(matches!(resolve(None), Ok(timedate::ZoneId::Utc)));
    assert!(matches!(resolve(Some("UTC")), Ok(timedate::ZoneId::Utc)));
}

#[test]
fn now_in_any_case_reads_the_clock() {
    let zone = resolve(None).unwrap();
    let now = Instant::from_parts(JULY_NOON, 123).unwrap();
    for word in ["now", "NOW", "Now", "nOw"] {
        assert_eq!(parse_instant(word, &zone, now, true).unwrap(), now);
    }
    assert!(parse_instant("nowx", &zone, now, true).is_err());
}

#[test]
fn rfc3339_reads_its_exact_instant() {
    let zone = resolve(Some("Europe/Paris")).unwrap();
    let i = parse_instant("2024-01-15T10:30:00+02:00", &zone, instant(0), false).unwrap();
    assert_eq!(i.secs, 1_705_307_400);
    let j = parse_instant("2024-01-15T08:30:00.5Z", &zone, instant(0), false).unwrap();
    assert_eq!(j.secs, 1_705_307_400);
    assert_eq!(j.nanos, 500_000_000);
}

#[test]
fn rfc3339_rendered_through_zone() {
    let server = TimeDateServer::new();
    let info = server
        .get_time_at("2024-01-15T10:30:00+02:00".to_string(), Some("Asia/Tokyo".to_string()), instant(0))
        .unwrap();
    assert_eq!(info.timestamp, "2024-01-15T17:30:00+09:00");
    assert_eq!(info.format_24h, "17:30:00");
    assert_eq!(info.format_12h, "05:30:00 PM");
    assert_eq!(info.utc_offset, "+0900");
    assert_eq!(info.timezone, "JST");
}

#[test]
fn wall_clock_text_uses_zone_rules_at_that_time() {
    let zone = resolve(Some("America/New_York")).unwrap();
    let winter = parse_instant("2024-01-15 10:30:00", &zone, instant(0), false).unwrap();
    assert_eq!(winter.secs, 1_705_332_600);
    let summer = parse_instant("2024-07-15 10:30:00", &zone, instant(0), false).unwrap();
    assert_eq!(summer.secs, 1_721_053_800);
}

#[test]
fn bare_date_only_where_enabled() {
    let zone = resolve(None).unwrap();
    assert_eq!(parse_instant("2024-07-01", &zone, instant(0), true).unwrap().secs, 1_719_792_000);
    assert!(matches!(
        parse_instant("2024-07-01", &zone, instant(0), false),
        Err(TimeError::InvalidTimeFormat(_))
    ));
    let server = TimeDateServer::new();
    assert!(server.calculate_time_offset("2024-07-01".to_string(), 1, None, instant(0)).is_err());
}

#[test]
fn wall_clock_gap_is_unreadable() {
    let zone = resolve(Some("America/New_York")).unwrap();
    let r = parse_instant("2024-03-10 02:30:00", &zone, instant(0), false);
    assert!(matches!(r, Err(TimeError::InvalidTimeFormat(_))));
}

#[test]
fn convert_round_trip_keeps_instant() {
    let server = TimeDateServer::new();
    let there = server
        .convert_timezone(
            "2024-03-10 12:00:00".to_string(),
            "Europe/London".to_string(),
            "Australia/Sydney".to_string(),
            instant(0),
        )
        .unwrap();
    assert_eq!(there.timestamp, "2024-03-10T23:00:00+11:00");
    let back = server
        .convert_timezone(
            there.timestamp.clone(),
            "Australia/Sydney".to_string(),
            "Europe/London".to_string(),
            instant(0),
        )
        .unwrap();
    assert_eq!(back.timestamp, "2024-03-10T12:00:00+00:00");
    assert_eq!(back.format_24h, "12:00:00");
}

#[test]
fn convert_reports_which_zone_is_bad() {
    let server = TimeDateServer::new();
    let r = server.convert_timezone("now".to_string(), "Nowhere".to_string(), "UTC".to_string(), instant(0));
    assert!(matches!(r, Err(TimeError::InvalidSourceTimezone(ref t)) if t == "Nowhere"));
    let r = server.convert_timezone("now".to_string(), "UTC".to_string(), "Nowhere".to_string(), instant(0));
    assert!(matches!(r, Err(TimeError::InvalidTargetTimezone(ref t)) if t == "Nowhere"));
}

#[test]
fn add_hours_and_back() {
    let i = Instant::from_parts(JULY_NOON, 42).unwrap();
    for h in [0, 1, -1, 25, -1000, 100_000] {
        let j = add_hours(i, h).unwrap();
        assert_eq!(j.secs, JULY_NOON + h as i64 * 3600);
        assert_eq!(add_hours(j, -h).unwrap(), i);
    }
    let edge = instant(8_000_000_000_000);
    assert!(add_hours(edge, 1).is_none());
}

#[test]
fn offset_crosses_dst_in_real_hours() {
    let server = TimeDateServer::new();
    let info = server
        .calculate_time_offset(
            "2024-03-10T06:30:00Z".to_string(),
            1,
            Some("America/New_York".to_string()),
            instant(0),
        )
        .unwrap();
    assert_eq!(info.format_24h, "03:30:00");
    assert_eq!(info.utc_offset, "-0400");
    let before = server
        .calculate_time_offset("2024-03-10 01:30:00".to_string(), -2, None, instant(0))
        .unwrap();
    assert_eq!(before.format_24h, "23:30:00");
    assert_eq!(before.timestamp, "2024-03-09T23:30:00+00:00");
}

#[test]
fn offset_out_of_range() {
    let server = TimeDateServer::new();
    let r = server.calculate_time_offset("now".to_string(), i32::MAX, None, instant(8_000_000_000_000));
    assert!(matches!(r, Err(TimeError::OutOfRange(ref t)) if t == "now"));
}

#[test]
fn far_year_is_out_of_range() {
    let zone = resolve(None).unwrap();
    let r = parse_instant("+260000-01-01 00:00:00", &zone, instant(0), false);
    assert!(matches!(r, Err(TimeError::OutOfRange(_))));
}

#[test]
fn offset_now_zero_is_current_time() {
    let server = TimeDateServer::new();
    let now = Instant::from_parts(JULY_NOON, 7).unwrap();
    let a = server.calculate_time_offset("now".to_string(), 0, Some("Europe/Berlin".to_string()), now).unwrap();
    let b = server.get_current_time(Some("Europe/Berlin".to_string()), now).unwrap();
    assert_eq!(a.timestamp, b.timestamp);
    assert_eq!(a.format_12h, b.format_12h);
    assert_eq!(a.format_24h, "14:00:00");
    assert_eq!(a.timezone, "CEST");
    assert_eq!(a.utc_offset, "+0200");
}

#[test]
fn current_time_in_utc() {
    let server = TimeDateServer::new();
    let info = server.get_current_time(None, instant(JULY_NOON + 45)).unwrap();
    assert_eq!(info.timestamp, "2024-07-01T12:00:45+00:00");
    assert_eq!(info.timezone, "UTC");
    assert_eq!(info.utc_offset, "+0000");
    assert_eq!(info.format_12h, "12:00:45 PM");
    assert_eq!(info.format_24h, "12:00:45");
}

#[test]
fn negative_and_half_hour_offsets() {
    let server = TimeDateServer::new();
    let kolkata = server.get_current_time(Some("Asia/Kolkata".to_string()), instant(0)).unwrap();
    assert_eq!(kolkata.utc_offset, "+0530");
    assert_eq!(kolkata.format_24h, "05:30:00");
    let honolulu = server.get_current_time(Some("Pacific/Honolulu".to_string()), instant(0)).unwrap();
    assert_eq!(honolulu.utc_offset, "-1000");
    assert_eq!(honolulu.format_12h, "02:00:00 PM");
    assert_eq!(honolulu.timestamp, "1969-12-31T14:00:00-10:00");
}

#[test]
fn resource_paths() {
    let server = TimeDateServer::new();
    let local = server.current_time_resource("local".to_string(), instant(0)).unwrap();
    assert_eq!(local.timezone, "UTC");
    let tokyo = server.current_time_resource("Asia/Tokyo".to_string(), instant(0)).unwrap();
    assert_eq!(tokyo.format_24h, "09:00:00");
    let all = server.timezone_list_resource("all".to_string());
    assert_eq!(all, server.list_timezones(None));
    let eu = server.timezone_list_resource("europe".to_string());
    assert!(eu.iter().all(|n| n.to_lowercase().contains("europe")));
}

#[test]
fn listing_filters_case_insensitively() {
    let server = TimeDateServer::new();
    let names = server.list_timezones(Some("AMERICA".to_string()));
    assert!(!names.is_empty());
    assert!(names.len() <= 50);
    assert!(names.iter().all(|n| n.to_lowercase().contains("america")));
    assert!(names.contains(&"America/New_York".to_string()) || names.len() == 50);
    let catalog = server.catalog.clone();
    let expected: Vec<String> =
        catalog.iter().filter(|n| n.to_lowercase().contains("america")).take(50).cloned().collect();
    assert_eq!(names, expected);
}

#[test]
fn listing_without_filter_is_first_fifty() {
    let server = TimeDateServer::new();
    let catalog = server.catalog.clone();
    let names = server.list_timezones(None);
    assert_eq!(names.len(), 50);
    assert_eq!(names[..], catalog[..50]);
}

#[test]
fn listing_of_small_catalog() {
    let catalog = vec!["Europe/Paris".to_string(), "America/Lima".to_string(), "EUROPE/x".to_string()];
    assert_eq!(select_zones(&catalog, Some("europe")), vec!["Europe/Paris".to_string(), "EUROPE/x".to_string()]);
    assert_eq!(select_zones(&catalog, Some("zzz")), Vec::<String>::new());
    assert_eq!(select_zones(&catalog, None), catalog);
    assert_eq!(select_zones(&catalog, Some("")), catalog);
}

#[test]
fn format_preference_from_locale() {
    let server = TimeDateServer::new();
    let now = instant(JULY_NOON + 13 * 3600);
    let us = server.get_time_format("en_US.UTF-8", "", now, 0);
    assert!(us.is_12_hour);
    assert_eq!(us.detected_format, "12-hour");
    assert_eq!(us.current_time_12h, "01:00:00 AM");
    assert_eq!(us.current_time_24h, "01:00:00");
    let lang = server.get_time_format("", "en_US.UTF-8", now, 3600);
    assert!(lang.is_12_hour);
    assert_eq!(lang.current_time_24h, "02:00:00");
    let de = server.time_format_resource("de_DE", "de_DE.UTF-8", now, 0);
    assert!(!de.is_12_hour);
    assert_eq!(de.detected_format, "24-hour");
    let gb = server.get_time_format("", "en_GB", now, 0);
    assert!(!gb.is_12_hour);
}

#[test]
fn ambient_zone_description() {
    let server = TimeDateServer::new();
    let info = server.get_timezone_info(instant(JULY_NOON), -5 * 3600);
    assert_eq!(info.name, "Local");
    assert_eq!(info.current_time, "2024-07-01 07:00:00 -05:00");
    assert_eq!(info.utc_offset, "-0500");
    assert!(!info.is_dst);
    let same = server.timezone_info_resource(instant(JULY_NOON), -5 * 3600);
    assert_eq!(same.current_time, info.current_time);
}

#[test]
fn leap_second_is_carried_into_next_second() {
    let zone = resolve(None).unwrap();
    let i = parse_instant("2016-12-31T23:59:60Z", &zone, instant(0), false).unwrap();
    assert_eq!(i.secs, 1_483_228_800);
    assert_eq!(i.nanos, 0);
    let j = parse_instant("2016-12-31T23:59:60.25Z", &zone, instant(0), false).unwrap();
    assert_eq!(j.secs, 1_483_228_800);
    assert_eq!(j.nanos, 250_000_000);
}

#[test]
fn timestamp_agrees_with_other_fields() {
    let server = TimeDateServer::new();
    let info = server
        .get_time_at("2024-11-03T05:45:30.125Z".to_string(), Some("America/Chicago".to_string()), instant(0))
        .unwrap();
    assert_eq!(info.timestamp, "2024-11-03T00:45:30.125-05:00");
    assert_eq!(&info.timestamp[11..19], info.format_24h);
    assert_eq!(info.utc_offset, "-0500");
    assert_eq!(info.format_12h, "12:45:30 AM");
}

#[test]
fn only_exact_registry_names_resolve() {
    let server = TimeDateServer::new();
    for bad in ["", "america/new_york", "Mars/Phobos", "utc "] {
        let r = server.get_current_time(Some(bad.to_string()), instant(0));
        assert!(matches!(r, Err(TimeError::UnknownTimezone(ref t)) if t == bad));
    }
    for good in ["UTC", "America/New_York", "Etc/GMT+3"] {
        assert!(server.get_current_time(Some(good.to_string()), instant(0)).is_ok());
    }
}

#[test]
fn catalog_holds_every_registry_zone() {
    let server = TimeDateServer::new();
    assert_eq!(server.catalog.len(), 597);
    assert!(server.catalog.iter().all(|n| resolve(Some(n)).is_ok()));
}

#[test]
fn wall_clock_text_read_in_zone() {
    let server = TimeDateServer::new();
    let ny = server
        .get_time_at("2024-01-15 10:30:00".to_string(), Some("America/New_York".to_string()), instant(0))
        .unwrap();
    assert_eq!(ny.timestamp, "2024-01-15T10:30:00-05:00");
    assert_eq!(ny.utc_offset, "-0500");
    assert_eq!(ny.format_24h, "10:30:00");
    let berlin = server
        .calculate_time_offset("2024-01-15 10:30:00".to_string(), 2, Some("Europe/Berlin".to_string()), instant(0))
        .unwrap();
    assert_eq!(berlin.timestamp, "2024-01-15T12:30:00+01:00");
    assert_eq!(berlin.timezone, "CET");
    assert_eq!(berlin.format_24h, "12:30:00");
    let utc = server
        .convert_timezone(
            "2024-07-01 12:00:00".to_string(),
            "America/New_York".to_string(),
            "UTC".to_string(),
            instant(0),
        )
        .unwrap();
    assert_eq!(utc.timestamp, "2024-07-01T16:00:00+00:00");
    assert_eq!(utc.format_24h, "16:00:00");
    assert_eq!(utc.format_12h, "04:00:00 PM");
}

#[test]
fn rfc3339_offset_by_any_hours_succeeds() {
    let server = TimeDateServer::new();
    for h in [i32::MIN, i32::MAX, 0, -1] {
        let r = server.calculate_time_offset("9999-12-31T23:59:59Z".to_string(), h, None, instant(0));
        assert!(r.is_ok());
        let r = server.calculate_time_offset("0000-01-01T00:00:00Z".to_string(), h, Some("Asia/Tokyo".to_string()), instant(0));
        assert!(r.is_ok());
    }
}

#[test]
fn listings_name_each_zone_once() {
    let server = TimeDateServer::new();
    for f in [None, Some("america".to_string()), Some("/".to_string()), Some("e".to_string())] {
        let names = server.list_timezones(f);
        let mut sorted = names.clone();
        sorted.sort();
        sorted.dedup();
        assert_eq!(sorted.len(), names.len());
    }
}
