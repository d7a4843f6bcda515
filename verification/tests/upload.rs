use workflow_client::buckets::{File, ReqBodyFile, UploadSession};
use workflow_client::http::{HttpMethod, RequestBody};
use workflow_client::ids::Id;
use workflow_client::{get_json_response, Workflow, WorkflowError};

fn tenant() -> Id {
    Id::new([0x44; 16])
}

fn user() -> Id {
    Id::new([0x55; 16])
}

fn owner() -> Id {
    Id::new([0x66; 16])
}

fn configured() -> Workflow {
    let mut wf = Workflow::new("https://backend.test");
    wf.set_company(tenant());
    wf.set_user(user());
    wf
}

fn asset_with(files: Vec<File>) -> ReqBodyFile {
    ReqBodyFile {
        organization_id: tenant(),
        is_public: true,
        owner: (owner(), "Asset Owner".to_string()),
        description: "batch".to_string(),
        folder_id: None,
        files,
    }
}

fn plain_file(name: &str, contents: &[u8]) -> File {
    File::new("text/plain".to_string(), name.to_string(), contents.to_vec())
}

#[test]
fn upload_needs_tenant_and_user_before_any_send() {
    let wf = Workflow::new("https://backend.test");
    let buckets = wf.buckets();
    let asset = asset_with(vec![plain_file("a.txt", b"a")]);
    let mut session = UploadSession::new();
    let mut requests_handed_out = 0;
    let r = buckets.next_upload_request(&mut session, &asset);
    if let Ok(Some(_)) = r {
        requests_handed_out += 1;
    }
    assert!(matches!(r, Err(WorkflowError::InvalidHeader(_))));
    assert_eq!(requests_handed_out, 0);
}

#[test]
fn upload_needs_user_even_with_tenant_set() {
    let mut wf = Workflow::new("https://backend.test");
    wf.set_company(tenant());
    let buckets = wf.buckets();
    let asset = asset_with(vec![plain_file("a.txt", b"a")]);
    let mut session = UploadSession::new();
    let r = buckets.next_upload_request(&mut session, &asset);
    assert!(matches!(r, Err(WorkflowError::InvalidHeader(_))));
}

#[test]
fn invalid_mime_fails_before_any_send() {
    let wf = configured();
    let buckets = wf.buckets();
    let bad = File::new(String::new(), "a.txt".to_string(), b"a".to_vec());
    let asset = asset_with(vec![bad]);
    let mut session = UploadSession::new();
    let r = buckets.next_upload_request(&mut session, &asset);
    assert!(matches!(r, Err(WorkflowError::Format(_))));

    let control = File::new("text/pl\u{7}ain".to_string(), "a.txt".to_string(), b"a".to_vec());
    let asset = asset_with(vec![control]);
    let mut session = UploadSession::new();
    let r = buckets.next_upload_request(&mut session, &asset);
    assert!(matches!(r, Err(WorkflowError::Format(_))));
}

#[test]
fn upload_request_carries_form_fields_and_file() {
    let wf = configured();
    let buckets = wf.buckets();
    let asset = asset_with(vec![plain_file("a.txt", b"payload")]);
    let mut session = UploadSession::new();
    let req = buckets
        .next_upload_request(&mut session, &asset)
        .unwrap()
        .unwrap();
    assert_eq!(req.method, HttpMethod::Post);
    assert_eq!(req.url, "https://backend.test/assets");
    assert_eq!(req.headers.len(), 2);
    assert_eq!(req.headers[0].0, "x-company-id");
    assert_eq!(req.headers[0].1, tenant().to_hyphenated());
    assert_eq!(req.headers[1].0, "x-user-id");
    assert_eq!(req.headers[1].1, user().to_hyphenated());
    let form = match req.body {
        RequestBody::Multipart(f) => f,
        _ => panic!("body must be multipart"),
    };
    assert_eq!(form.texts.len(), 4);
    assert_eq!(form.texts[0].0, "organization_id");
    assert_eq!(form.texts[0].1, tenant().to_hyphenated());
    assert_eq!(form.texts[1].0, "is_public");
    assert_eq!(form.texts[1].1, "true");
    assert_eq!(form.texts[2].0, "owner");
    assert_eq!(form.texts[2].1, owner().to_hyphenated());
    assert_eq!(form.texts[3].0, "owner");
    assert_eq!(form.texts[3].1, "Asset Owner");
    assert_eq!(form.file_field, "upload");
    assert_eq!(form.file_name, "a.txt");
    assert_eq!(form.file_type, "text/plain");
    assert_eq!(form.file_data, b"payload".to_vec());
}

#[test]
fn upload_stops_at_first_failure_and_keeps_prefix() {
    let wf = configured();
    let buckets = wf.buckets();
    let asset = asset_with(vec![
        plain_file("a.txt", b"a"),
        plain_file("b.txt", b"b"),
        plain_file("c.txt", b"c"),
    ]);
    let mut session = UploadSession::new();
    let mut sent = 0;

    // first file succeeds
    let r = buckets.next_upload_request(&mut session, &asset).unwrap();
    assert!(r.is_some());
    sent += 1;
    let resp = get_json_response(200, Vec::new(), "{\"id\":1}".to_string()).unwrap();
    session.on_response(&resp);

    // second file fails
    let r = buckets.next_upload_request(&mut session, &asset).unwrap();
    assert!(r.is_some());
    sent += 1;
    let failing_headers = vec![("retry-after".to_string(), "60".to_string())];
    let resp = get_json_response(503, failing_headers, "{\"err\":true}".to_string()).unwrap();
    session.on_response(&resp);

    // the third file is never handed out
    let r = buckets.next_upload_request(&mut session, &asset).unwrap();
    assert!(r.is_none());
    assert_eq!(sent, 2);

    let envelope = session.finish();
    assert_eq!(envelope.status_code, 503);
    assert_eq!(envelope.response_headers.len(), 1);
    assert_eq!(envelope.response_headers[0].0, "retry-after");
    assert_eq!(envelope.response_headers[0].1, "60");
    // exactly the one successful body, not the failing one
    assert_eq!(envelope.response_body.text(), "[{\"id\":1}]");
}

#[test]
fn upload_collects_all_bodies_in_order_on_success() {
    let wf = configured();
    let buckets = wf.buckets();
    let asset = asset_with(vec![plain_file("a.txt", b"a"), plain_file("b.txt", b"b")]);
    let mut session = UploadSession::new();
    let mut sent = 0;
    loop {
        let req = buckets.next_upload_request(&mut session, &asset).unwrap();
        let Some(_req) = req else { break };
        sent += 1;
        let status = if sent == 1 { 200 } else { 201 };
        let body = if sent == 1 { "{\"id\":1}" } else { "{\"id\":2}" };
        let resp = get_json_response(status, Vec::new(), body.to_string()).unwrap();
        session.on_response(&resp);
    }
    assert_eq!(sent, 2);
    let envelope = session.finish();
    assert_eq!(envelope.status_code, 201);
    assert_eq!(envelope.response_body.text(), "[{\"id\":1},{\"id\":2}]");
}

#[test]
fn upload_with_no_files_yields_accepted_and_empty_array() {
    let wf = configured();
    let buckets = wf.buckets();
    let asset = asset_with(Vec::new());
    let mut session = UploadSession::new();
    let r = buckets.next_upload_request(&mut session, &asset).unwrap();
    assert!(r.is_none());
    let envelope = session.finish();
    assert_eq!(envelope.status_code, 202);
    assert!(envelope.response_headers.is_empty());
    assert_eq!(envelope.response_body.text(), "[]");
}

#[test]
fn upload_with_no_files_ignores_missing_headers() {
    // with nothing to send, no headers are needed and nothing fails
    let wf = Workflow::new("https://backend.test");
    let buckets = wf.buckets();
    let asset = asset_with(Vec::new());
    let mut session = UploadSession::new();
    let r = buckets.next_upload_request(&mut session, &asset).unwrap();
    assert!(r.is_none());
    let envelope = session.finish();
    assert_eq!(envelope.status_code, 202);
}
