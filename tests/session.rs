use backend::date::{date_before, format_ymd, query_date, CivilDate};
use backend::fetch::{
    accept_payload, api_key_header, category_url, check_status, dated_category_url, fetch_url, fetch_url_on, identity_url,
    session_token, Category, FetchError,
};
use backend::resolver::{begin_resolution, finish_resolution, Character, ResolveStep, UserOcid};
use backend::store::CredentialStore;

fn date(year: i32, month: u32, day: u32) -> CivilDate {
    CivilDate { year, month, day }
}

fn alice() -> Character {
    Character { nick_name: "Alice".to_string() }
}

#[test]
fn store_starts_empty_and_keeps_key() {
    let store = CredentialStore::new("SECRET-REDACTED".to_string());
    assert_eq!(store.api_key(), "SECRET-REDACTED");
    assert_eq!(store.get_identity(&"abc".to_string()), None);
}

#[test]
fn store_last_write_wins() {
    let mut store = CredentialStore::new("k".to_string());
    store.set_identity("abc".to_string(), "id-1".to_string());
    store.set_identity("xyz".to_string(), "id-2".to_string());
    assert_eq!(store.get_identity(&"abc".to_string()), Some("id-1".to_string()));
    store.set_identity("abc".to_string(), "id-3".to_string());
    assert_eq!(store.get_identity(&"abc".to_string()), Some("id-3".to_string()));
    assert_eq!(store.get_identity(&"xyz".to_string()), Some("id-2".to_string()));
}

#[test]
fn resolution_looks_up_once_then_uses_cache() {
    let mut store = CredentialStore::new("k".to_string());
    let mut lookups = 0;
    for _ in 0..2 {
        match begin_resolution(&store, Some("abc".to_string()), &alice()).ok().unwrap() {
            ResolveStep::Cached(u) => assert_eq!(u.ocid, "ocid-alice"),
            ResolveStep::Lookup(url) => {
                lookups += 1;
                assert_eq!(url, "https://open.api.nexon.com/maplestory/v1/id?character_name=Alice");
                let got = finish_resolution(&mut store, "abc".to_string(), Ok(UserOcid { ocid: "ocid-alice".to_string() }));
                assert_eq!(got.ok().unwrap().ocid, "ocid-alice");
            },
        }
    }
    assert_eq!(lookups, 1);
    assert_eq!(store.get_identity(&"abc".to_string()), Some("ocid-alice".to_string()));
}

#[test]
fn failed_lookup_leaves_store_unchanged() {
    let mut store = CredentialStore::new("k".to_string());
    let got = finish_resolution(&mut store, "abc".to_string(), Err(FetchError::Rejected(400)));
    assert_eq!(got.err(), Some(FetchError::Rejected(400)));
    assert_eq!(store.get_identity(&"abc".to_string()), None);
}

#[test]
fn resolution_input_errors() {
    let store = CredentialStore::new("k".to_string());
    assert_eq!(begin_resolution(&store, None, &alice()).err(), Some(FetchError::MissingSession));
    assert_eq!(begin_resolution(&store, Some(String::new()), &alice()).err(), Some(FetchError::MissingSession));
    let nameless = Character { nick_name: String::new() };
    assert_eq!(begin_resolution(&store, Some("abc".to_string()), &nameless).err(), Some(FetchError::EmptyName));
}

#[test]
fn end_to_end_identity_then_stat() {
    let mut store = CredentialStore::new("k".to_string());
    let step = begin_resolution(&store, Some("abc".to_string()), &alice()).ok().unwrap();
    assert!(matches!(step, ResolveStep::Lookup(_)));
    let id = finish_resolution(&mut store, "abc".to_string(), Ok(UserOcid { ocid: "0f3a".to_string() }));
    assert_eq!(id.ok().unwrap().ocid, "0f3a");
    assert!(matches!(
        begin_resolution(&store, Some("abc".to_string()), &alice()).ok().unwrap(),
        ResolveStep::Cached(_)
    ));
    let url = fetch_url_on(&store, Some("abc".to_string()), Category::Stat, &date(2024, 3, 5));
    assert_eq!(
        url.ok().unwrap(),
        "https://open.api.nexon.com/maplestory/v1/character/stat?ocid=0f3a&date=2024-03-05"
    );
}

#[test]
fn fetch_url_needs_resolved_session() {
    let store = CredentialStore::new("k".to_string());
    assert_eq!(fetch_url_on(&store, Some("abc".to_string()), Category::Basic, &date(2024, 1, 1)).err(), Some(FetchError::Unresolved));
    assert_eq!(fetch_url_on(&store, None, Category::Basic, &date(2024, 1, 1)).err(), Some(FetchError::MissingSession));
    assert_eq!(fetch_url(&store, Some(String::new()), Category::Dojang).err(), Some(FetchError::MissingSession));
}

#[test]
fn fetch_url_uses_a_date() {
    let mut store = CredentialStore::new("k".to_string());
    store.set_identity("abc".to_string(), "id9".to_string());
    let url = fetch_url(&store, Some("abc".to_string()), Category::HyperStat).ok().unwrap();
    let prefix = "https://open.api.nexon.com/maplestory/v1/character/hyper-stat?ocid=id9&date=";
    assert!(url.starts_with(prefix));
    let d = &url[prefix.len()..];
    assert_eq!(d.len(), 10);
    assert_eq!(&d[4..5], "-");
    assert_eq!(&d[7..8], "-");
}

#[test]
fn skill_url_carries_grade() {
    let url = category_url(Category::Skill(6), "o1", &date(2023, 12, 31));
    assert_eq!(
        url,
        "https://open.api.nexon.com/maplestory/v1/character/skill?ocid=o1&date=2023-12-31&character_skill_grade=6"
    );
    let neg = category_url(Category::Skill(-12), "o1", &date(2023, 12, 31));
    assert!(neg.ends_with("&character_skill_grade=-12"));
}

#[test]
fn category_paths() {
    let cases = [
        (Category::Basic, "basic"),
        (Category::Propensity, "propensity"),
        (Category::Ability, "ability"),
        (Category::ItemEquipment, "item-equipment"),
        (Category::SymbolEquipment, "symbol-equipment"),
        (Category::SetEffect, "set-effect"),
        (Category::LinkSkill, "link-skill"),
        (Category::VMatrix, "vmatrix"),
        (Category::HexaMatrix, "hexamatrix"),
        (Category::Dojang, "dojang"),
    ];
    for (c, p) in cases {
        assert_eq!(c.path(), p);
    }
}

#[test]
fn identity_url_appends_name() {
    assert_eq!(identity_url("Bob"), "https://open.api.nexon.com/maplestory/v1/id?character_name=Bob");
}

#[test]
fn date_formatting() {
    assert_eq!(format_ymd(&date(2024, 3, 5)), "2024-03-05");
    assert_eq!(format_ymd(&date(2024, 11, 30)), "2024-11-30");
    assert_eq!(format_ymd(&date(5, 1, 9)), "0005-01-09");
    assert_eq!(format_ymd(&date(12345, 1, 1)), "+12345-01-01");
    assert_eq!(format_ymd(&date(-1, 1, 1)), "-0001-01-01");
}

#[test]
fn status_outcomes() {
    assert_eq!(check_status(Some(200)), Ok(()));
    assert_eq!(check_status(Some(299)), Ok(()));
    assert_eq!(check_status(Some(199)), Err(FetchError::Rejected(199)));
    assert_eq!(check_status(Some(300)), Err(FetchError::Rejected(300)));
    assert_eq!(check_status(Some(404)), Err(FetchError::Rejected(404)));
    assert_eq!(check_status(None), Err(FetchError::Unreachable));
}

#[test]
fn payload_outcomes() {
    assert_eq!(accept_payload(Some(3u8)), Ok(3u8));
    assert_eq!(accept_payload::<u8>(None), Err(FetchError::Malformed));
}

#[test]
fn session_header() {
    assert_eq!(session_token(Some("abc".to_string())), Ok("abc".to_string()));
    assert_eq!(session_token(Some(String::new())), Err(FetchError::MissingSession));
    assert_eq!(session_token(None), Err(FetchError::MissingSession));
}

#[test]
fn error_reports() {
    assert_eq!(FetchError::MissingSession.reason(), "Missing or invalid uuid header");
    assert_eq!(FetchError::Rejected(404).reason(), "Failed to fetch OCID");
    assert_eq!(FetchError::Unreachable.reason(), "Failed to fetch OCID");
    assert_eq!(FetchError::Malformed.status(), 400);
}

#[test]
fn api_key_header_validity() {
    let good = CredentialStore::new("test_abc-123".to_string());
    assert_eq!(api_key_header(&good).ok().unwrap().to_str().ok(), Some("test_abc-123"));
    let tabbed = CredentialStore::new("a\tb".to_string());
    assert!(api_key_header(&tabbed).is_ok());
    let bad = CredentialStore::new("a\nb".to_string());
    assert_eq!(api_key_header(&bad).err(), Some(FetchError::InvalidApiKey));
    let del = CredentialStore::new("a\u{7f}".to_string());
    assert_eq!(api_key_header(&del).err(), Some(FetchError::InvalidApiKey));
}

#[test]
fn cached_identity_needs_no_name() {
    let mut store = CredentialStore::new("k".to_string());
    store.set_identity("abc".to_string(), "id-7".to_string());
    let nameless = Character { nick_name: String::new() };
    match begin_resolution(&store, Some("abc".to_string()), &nameless).ok().unwrap() {
        ResolveStep::Cached(u) => assert_eq!(u.ocid, "id-7"),
        ResolveStep::Lookup(_) => panic!("a cached identity must not be looked up"),
    }
}

#[test]
fn query_date_is_a_calendar_date() {
    let d = query_date().unwrap();
    assert!((1..=12).contains(&d.month));
    assert!((1..=31).contains(&d.day));
    assert!(d.year >= 2020);
}

#[test]
fn dated_category_url_uses_todays_query_date() {
    let before = category_url(Category::SetEffect, "o5", &query_date().unwrap());
    let url = dated_category_url(Category::SetEffect, "o5").ok().unwrap();
    let after = category_url(Category::SetEffect, "o5", &query_date().unwrap());
    assert!(url == before || url == after);
}

#[test]
fn clock_error_report() {
    assert_eq!(FetchError::ClockUnavailable.reason(), "Failed to read the current date");
    assert_eq!(FetchError::ClockUnavailable.status(), 400);
}

#[test]
fn date_before_is_the_previous_seoul_day() {
    // 2024-03-05 00:00 UTC: a day earlier is 2024-03-04 09:00 in Seoul.
    assert_eq!(date_before(1709596800), Some(date(2024, 3, 4)));
    // 2024-03-05 15:00 UTC: a day earlier is 2024-03-05 00:00 in Seoul.
    assert_eq!(date_before(1709650800), Some(date(2024, 3, 5)));
    // 2024-03-01 14:59:59 UTC: a day earlier is 2024-02-29 23:59:59 in Seoul.
    assert_eq!(date_before(1709305199), Some(date(2024, 2, 29)));
}

#[test]
fn date_before_out_of_range() {
    assert_eq!(date_before(u64::MAX), None);
    assert_eq!(date_before(i64::MAX as u64), None);
}
