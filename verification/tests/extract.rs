use avfallsor::errors::RunError;
use avfallsor::pickup::PickupType;
use avfallsor::scan::scan_document;
use avfallsor::web::AddressResponse;
use avfallsor::web::Candidate;
use avfallsor::web::assemble_with_offsets;
use avfallsor::web::extract_pickups;
use avfallsor::web::get_address_page;
use avfallsor::web::heading_date;
use avfallsor::web::map_month;
use avfallsor::web::month_number;
use chrono::Offset;
use chrono::TimeZone;

fn entry(date_line: &str, tokens: &[&str]) -> String {
    let mut s = format!("<h3>{}</h3><div class=\"waste-list\">", date_line);
    for t in tokens {
        s.push_str(&format!(
            "<span class=\"waste-icon waste-icon--{}\"></span>",
            t
        ));
    }
    s.push_str("</div>");
    s
}

fn page(entries: &[String]) -> String {
    let mut s = String::from("<html><body><div class=\"pickup-days-small\">");
    for e in entries {
        s.push_str(e);
    }
    s.push_str("</div></body></html>");
    s
}

fn local_offset_string(year: i32, month: u32, day: u32, hour: u32, minute: u32) -> String {
    let naive = chrono::NaiveDate::from_ymd_opt(year, month, day)
        .unwrap()
        .and_hms_opt(hour, minute, 0)
        .unwrap();
    let localized = chrono::Local.from_local_datetime(&naive).single().unwrap();
    let secs = localized.offset().fix().local_minus_utc();
    let sign = if secs < 0 { '-' } else { '+' };
    let abs = secs.unsigned_abs() / 60;
    format!("{}{:02}:{:02}", sign, abs / 60, abs % 60)
}

#[test]
fn month_table_is_complete_and_exact() {
    let names = [
        "januar", "februar", "mars", "april", "mai", "juni", "juli", "august", "september",
        "oktober", "november", "desember",
    ];
    for (i, name) in names.iter().enumerate() {
        assert_eq!(month_number(name.as_bytes()), Some((i + 1) as u8));
        assert_eq!(map_month(name), (i + 1) as i32);
    }
    assert_eq!(month_number(b"january"), None);
    assert_eq!(month_number(b"Mars"), None);
    assert_eq!(month_number(b""), None);
}

#[test]
fn heading_date_reads_day_and_month() {
    assert_eq!(heading_date(b"Mandag 15. mars"), Some((15, 3)));
    assert_eq!(heading_date(b"Torsdag 04. april i morgen"), Some((4, 4)));
    assert_eq!(heading_date(b"Mandag 15. frimaire"), None);
    assert_eq!(heading_date(b"Mandag x5. mars"), None);
    assert_eq!(heading_date(b"Midnight"), None);
    assert_eq!(heading_date(b""), None);
}

#[test]
fn scanner_pairs_headings_with_icon_tokens() {
    let fixture = page(&[
        entry("Mandag 15. mars", &["residual", "bio"]),
        entry("Torsdag 04. april", &["cardboard"]),
    ]);
    let raw = scan_document(fixture.as_bytes());
    let pairs: Vec<(String, String)> = raw
        .iter()
        .map(|e| {
            (
                String::from_utf8(e.text.clone()).unwrap(),
                String::from_utf8(e.token.clone()).unwrap(),
            )
        })
        .collect();
    assert_eq!(
        pairs,
        vec![
            ("Mandag 15. mars".to_string(), "residual".to_string()),
            ("Mandag 15. mars".to_string(), "bio".to_string()),
            ("Torsdag 04. april".to_string(), "cardboard".to_string()),
        ]
    );
}

#[test]
fn scanner_finds_nothing_outside_the_region() {
    let no_region = "<html><h3>Mandag 15. mars</h3>waste-icon--residual</html>";
    assert_eq!(scan_document(no_region.as_bytes()).len(), 0);
    assert_eq!(scan_document(b"").len(), 0);
}

#[test]
fn extraction_keeps_well_formed_entries_and_skips_malformed_ones() {
    // Two well-formed entries among malformed ones: a bad calendar date, an
    // unknown month, an unknown category token, and a date line without its
    // three fields.
    let fixture = page(&[
        entry("Mandag 15. mars", &["residual"]),
        entry("Fredag 99. mars", &["bio"]),
        entry("Mandag 15. frimaire", &["bio"]),
        entry("Torsdag 04. april", &["styrofoam", "cardboard"]),
        entry("Midnight", &["glass"]),
    ]);
    let records = extract_pickups(fixture.as_bytes(), 2024, 6, 0);
    assert_eq!(records.len(), 2);
    assert_eq!(records[0].kind, PickupType::Garbage);
    assert_eq!(records[0].date.month, 3);
    assert_eq!(records[0].date.day, 15);
    assert_eq!(records[1].kind, PickupType::Paper);
    assert_eq!(records[1].date.month, 4);
    assert_eq!(records[1].date.day, 4);
}

#[test]
fn leap_day_is_kept_only_in_leap_years() {
    let fixture = page(&[entry("Torsdag 29. februar", &["residual"])]);
    assert_eq!(extract_pickups(fixture.as_bytes(), 2024, 6, 0).len(), 1);
    assert_eq!(extract_pickups(fixture.as_bytes(), 2023, 6, 0).len(), 0);
}

#[test]
fn address_page_resolution_follows_the_scenario() {
    // An address resolves to its schedule page's href; the page yields one
    // record whose identity and state payload are fixed by the category and
    // the localized timestamp.
    let entries = vec![AddressResponse {
        value: "Example 1".to_string(),
        href: "/schedule/123".to_string(),
    }];
    let resolved = get_address_page(entries).unwrap();
    assert_eq!(resolved.href, "/schedule/123");

    let fixture = page(&[entry("Fredag 15. mars", &["residual"])]);
    let records = extract_pickups(fixture.as_bytes(), 2024, 6, 0);
    assert_eq!(records.len(), 1);
    assert_eq!(records[0].identifier(), "avfallsor-garbage");
    let expected = format!(
        "2024-03-15T06:00:00{}",
        local_offset_string(2024, 3, 15, 6, 0)
    );
    assert_eq!(records[0].homeassistant_state_message(), expected);
}

#[test]
fn empty_address_lookup_is_address_not_found() {
    let r = get_address_page(Vec::new());
    assert_eq!(r.unwrap_err(), RunError::AddressNotFound);
}

#[test]
fn first_address_candidate_is_authoritative() {
    let entries = vec![
        AddressResponse {
            value: "Example 1".to_string(),
            href: "/schedule/123".to_string(),
        },
        AddressResponse {
            value: "Example 2".to_string(),
            href: "/schedule/456".to_string(),
        },
    ];
    assert_eq!(get_address_page(entries).unwrap().href, "/schedule/123");
}

#[test]
fn same_category_twice_keeps_both_records_and_one_sensor_identity() {
    // Two pickups of one category in a run publish to the same topics, so
    // the broker keeps the later payload: the identifier is category-only.
    let fixture = page(&[
        entry("Mandag 15. mars", &["residual"]),
        entry("Mandag 29. april", &["residual"]),
    ]);
    let records = extract_pickups(fixture.as_bytes(), 2024, 6, 0);
    assert_eq!(records.len(), 2);
    assert_eq!(records[0].config_topic(), records[1].config_topic());
    assert_eq!(records[0].state_topic(), records[1].state_topic());
    assert_ne!(records[0].date.day, records[1].date.day);
}

#[test]
fn ambiguous_localization_drops_the_record() {
    let cands = vec![
        Candidate {
            year: 2024,
            month: 3,
            day: 15,
            kind: PickupType::Garbage,
        },
        Candidate {
            year: 2024,
            month: 3,
            day: 31,
            kind: PickupType::Paper,
        },
    ];
    let offs = vec![Some(3600), None];
    let records = assemble_with_offsets(&cands, &offs, 6, 0);
    assert_eq!(records.len(), 1);
    assert_eq!(records[0].kind, PickupType::Garbage);
    assert_eq!(records[0].date.offset_seconds, 3600);
    assert_eq!(records[0].label, "Garbage");
}
