use happv::AppVeyor;
use happv::Error;

/// Three project records, as the projects endpoint lists them. The extra
/// field in the second record is an unknown wire field and must be ignored.
const FIXTURE: &str = r#"[
  {"projectId": 42438, "accountId": 11111, "slug": "hello-homu", "accountName": "booyaa"},
  {"projectId": 42440, "accountId": 11111, "slug": "hello-rust", "accountName": "booyaa", "builds": []},
  {"projectId": 42991, "accountId": 11111, "slug": "happv", "accountName": "booyaa"}
]"#;

#[test]
fn should_return_project_list_in_testmode() {
    let mut happv = AppVeyor::new("adsasd");
    happv.enable_test_mode();
    happv.set_fixture(FIXTURE);

    let result = happv.get_projects().unwrap();

    assert_eq!(3, result.len());
    println!("enumerate list:");
    for i in result.into_iter() {
        println!("\trepo: {}", i.slug);
    }
}

#[test]
fn testmode_projects_have_nonempty_slugs() {
    let mut happv = AppVeyor::new("adsasd");
    happv.enable_test_mode();
    happv.set_fixture(FIXTURE);

    let result = happv.get_projects().unwrap();

    assert_eq!(3, result.len());
    for p in result.iter() {
        assert!(!p.slug.is_empty());
    }
}

#[test]
fn testmode_bad_fixture_is_a_decode_failure() {
    let mut happv = AppVeyor::new("adsasd");
    happv.enable_test_mode();
    happv.set_fixture("this is not json");

    let result = happv.get_projects();

    assert!(matches!(result, Err(Error::DecodeFailure(_))));
}

#[test]
fn unreachable_remote_is_a_network_failure_on_list() {
    let mut happv = AppVeyor::new("token");
    happv.set_base_url("http://127.0.0.1:9/api/");

    let result = happv.get_projects();

    assert!(matches!(result, Err(Error::NetworkFailure(_))));
}

#[test]
fn unreachable_remote_is_a_network_failure_on_add() {
    let mut happv = AppVeyor::new("token");
    happv.set_base_url("http://127.0.0.1:9/api/");

    let result = happv.add_project(String::from("gitHub"), String::from("booyaa/hello-homu"));

    assert!(matches!(result, Err(Error::NetworkFailure(_))));
}

#[test]
fn unreachable_remote_is_a_network_failure_on_delete() {
    let mut happv = AppVeyor::new("token");
    happv.set_base_url("http://127.0.0.1:9/api/");

    let result = happv.delete_project(String::from("booyaa"), String::from("hello-homu"));

    assert!(matches!(result, Err(Error::NetworkFailure(_))));
}

#[test]
fn unsupported_scheme_is_a_network_failure_not_a_panic() {
    // The default base URL is https, which this transport cannot speak:
    // the failure must come back as a value, never end the process.
    let happv = AppVeyor::new("token");

    let result = happv.delete_project(String::from("booyaa"), String::from("hello-homu"));

    assert!(matches!(result, Err(Error::NetworkFailure(_))));
}
