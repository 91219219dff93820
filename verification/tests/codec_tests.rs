use happv::codec::decode_add_project;
use happv::codec::decode_error_response;
use happv::codec::decode_project;
use happv::codec::decode_projects;
use happv::codec::encode_add_project;
use happv::AddProject;
use happv::Error;

#[test]
fn decode_projects_reads_every_field_exactly() {
    let body = r#"[
      {"projectId": 42438, "accountId": 11111, "slug": "hello-homu", "accountName": "booyaa"},
      {"projectId": 42440, "accountId": 11111, "slug": "hello-rust", "accountName": "booyaa"}
    ]"#;
    let projects = decode_projects(body).unwrap();
    assert_eq!(2, projects.len());
    assert_eq!(42438, projects[0].project_id);
    assert_eq!(11111, projects[0].account_id);
    assert_eq!("hello-homu", projects[0].slug);
    assert_eq!("booyaa", projects[0].account_name);
    assert_eq!(42440, projects[1].project_id);
    assert_eq!("hello-rust", projects[1].slug);
}

#[test]
fn decode_projects_keeps_the_server_order() {
    let body = r#"[
      {"projectId": 3, "accountId": 1, "slug": "c", "accountName": "a"},
      {"projectId": 1, "accountId": 1, "slug": "a", "accountName": "a"},
      {"projectId": 2, "accountId": 1, "slug": "b", "accountName": "a"}
    ]"#;
    let projects = decode_projects(body).unwrap();
    let ids: Vec<usize> = projects.iter().map(|p| p.project_id).collect();
    assert_eq!(vec![3, 1, 2], ids);
}

#[test]
fn decode_projects_accepts_an_empty_list() {
    let projects = decode_projects("[]").unwrap();
    assert!(projects.is_empty());
}

#[test]
fn decode_projects_ignores_unknown_wire_fields() {
    let body = r#"[{"projectId": 5, "accountId": 6, "slug": "s", "accountName": "a", "builds": [{"x": 1}]}]"#;
    let projects = decode_projects(body).unwrap();
    assert_eq!(1, projects.len());
    assert_eq!(5, projects[0].project_id);
}

#[test]
fn decode_projects_rejects_a_missing_required_field() {
    // No fabricated defaults: a missing field is a decode failure.
    let body = r#"[{"projectId": 5, "accountId": 6, "accountName": "a"}]"#;
    assert!(matches!(decode_projects(body), Err(Error::DecodeFailure(_))));
}

#[test]
fn decode_projects_rejects_an_empty_slug() {
    let body = r#"[{"projectId": 5, "accountId": 6, "slug": "", "accountName": "a"}]"#;
    assert!(matches!(decode_projects(body), Err(Error::DecodeFailure(_))));
}

#[test]
fn decode_projects_rejects_a_mistyped_field() {
    let body = r#"[{"projectId": "five", "accountId": 6, "slug": "s", "accountName": "a"}]"#;
    assert!(matches!(decode_projects(body), Err(Error::DecodeFailure(_))));
    let negative = r#"[{"projectId": -5, "accountId": 6, "slug": "s", "accountName": "a"}]"#;
    assert!(matches!(decode_projects(negative), Err(Error::DecodeFailure(_))));
    let fractional = r#"[{"projectId": 5.5, "accountId": 6, "slug": "s", "accountName": "a"}]"#;
    assert!(matches!(decode_projects(fractional), Err(Error::DecodeFailure(_))));
}

#[test]
fn decode_projects_rejects_a_non_array_document() {
    assert!(matches!(decode_projects("{}"), Err(Error::DecodeFailure(_))));
    assert!(matches!(decode_projects("3"), Err(Error::DecodeFailure(_))));
}

#[test]
fn decode_project_reads_a_single_record() {
    let body = r#"{"projectId": 42991, "accountId": 11111, "slug": "happv", "accountName": "booyaa"}"#;
    let project = decode_project(body).unwrap();
    assert_eq!(42991, project.project_id);
    assert_eq!(11111, project.account_id);
    assert_eq!("happv", project.slug);
    assert_eq!("booyaa", project.account_name);
}

#[test]
fn encode_then_decode_returns_an_equal_request() {
    let request = AddProject {
        repository_provider: String::from("gitHub"),
        repository_name: String::from("booyaa/hello-homu"),
    };
    let wire = encode_add_project(&request).unwrap();
    let back = decode_add_project(&wire).unwrap();
    assert_eq!(request, back);
}

#[test]
fn encode_uses_the_wire_field_names() {
    let request = AddProject {
        repository_provider: String::from("gitHub"),
        repository_name: String::from("booyaa/hello-homu"),
    };
    let wire = encode_add_project(&request).unwrap();
    assert!(wire.contains("repositoryProvider"));
    assert!(wire.contains("repositoryName"));
    assert!(wire.contains("gitHub"));
    assert!(wire.contains("booyaa/hello-homu"));
}

#[test]
fn decode_add_project_reads_handwritten_wire_text() {
    let body = r#"{"repositoryProvider": "gitHub", "repositoryName": "booyaa/happv"}"#;
    let request = decode_add_project(body).unwrap();
    assert_eq!("gitHub", request.repository_provider);
    assert_eq!("booyaa/happv", request.repository_name);
}

#[test]
fn decode_add_project_rejects_a_missing_field() {
    let body = r#"{"repositoryProvider": "gitHub"}"#;
    assert!(matches!(decode_add_project(body), Err(Error::DecodeFailure(_))));
}

#[test]
fn decode_error_response_extracts_the_message() {
    let body = r#"{"message":"The build has already finished."}"#;
    let payload = decode_error_response(body).unwrap();
    assert_eq!("The build has already finished.", payload.message);
}

#[test]
fn decode_error_response_rejects_a_message_of_the_wrong_type() {
    let body = r#"{"message": 500}"#;
    assert!(matches!(decode_error_response(body), Err(Error::DecodeFailure(_))));
}

#[test]
fn error_messages_name_the_kind_and_carry_the_detail() {
    assert_eq!(
        "response included an unexpected status code",
        Error::BadStatus(500).message()
    );
    assert_eq!(
        "network error: connection refused",
        Error::NetworkFailure(String::from("connection refused")).message()
    );
    assert_eq!(
        "io error: broken pipe",
        Error::IOFailure(String::from("broken pipe")).message()
    );
    assert_eq!(
        "decode error: expected value",
        Error::DecodeFailure(String::from("expected value")).message()
    );
}

#[test]
fn decode_projects_accepts_the_largest_identifier() {
    let body = r#"[{"projectId": 18446744073709551615, "accountId": 1, "slug": "s", "accountName": "a"}]"#;
    let projects = decode_projects(body).unwrap();
    assert_eq!(u64::MAX as usize, projects[0].project_id);
}
