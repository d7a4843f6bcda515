use workflow_client::datetime::DateTime;
use workflow_client::http::{HttpMethod, RequestBody};
use workflow_client::ids::Id;
use workflow_client::notifications::{
    MessagePlatform, MessageProviders, ReqBodyMessage, ReqBodyTemplate,
};
use workflow_client::{get_json_response, Workflow, WorkflowError};

fn tenant() -> Id {
    Id::new([0x11; 16])
}

fn user() -> Id {
    Id::new([0x22; 16])
}

fn notification_config() -> Id {
    Id::new([0x33; 16])
}

fn configured() -> Workflow {
    let mut wf = Workflow::new("https://backend.test");
    wf.set_company(tenant());
    wf.set_user(user());
    wf.set_notification_config(Some(notification_config()));
    wf
}

fn simple_message() -> ReqBodyMessage {
    ReqBodyMessage {
        company_id: tenant(),
        from: "svc".to_string(),
        to: "+15555550100".to_string(),
        subject: None,
        message: Some("hello".to_string()),
        template_id: None,
        platform: MessagePlatform::SMS,
        dynamic_data: None,
        should_schedule: None,
        schedule_for: None,
    }
}

#[test]
fn send_message_needs_tenant_user_and_notification_config() {
    let wf = Workflow::new("https://backend.test");
    let msg = simple_message();
    assert!(matches!(
        wf.notifications().send_message(&msg),
        Err(WorkflowError::InvalidHeader(_))
    ));

    let mut wf = Workflow::new("https://backend.test");
    wf.set_company(tenant());
    wf.set_user(user());
    assert!(matches!(
        wf.notifications().send_message(&msg),
        Err(WorkflowError::InvalidHeader(_))
    ));

    let mut wf = Workflow::new("https://backend.test");
    wf.set_company(tenant());
    wf.set_notification_config(Some(notification_config()));
    assert!(matches!(
        wf.notifications().send_message(&msg),
        Err(WorkflowError::InvalidHeader(_))
    ));
}

#[test]
fn fetch_contact_needs_tenant_and_user() {
    let wf = Workflow::new("https://backend.test");
    assert!(matches!(
        wf.notifications().fetch_contact(),
        Err(WorkflowError::InvalidHeader(_))
    ));
    let mut wf = Workflow::new("https://backend.test");
    wf.set_company(tenant());
    assert!(matches!(
        wf.notifications().fetch_contact(),
        Err(WorkflowError::InvalidHeader(_))
    ));
    wf.set_user(user());
    let req = wf.notifications().fetch_contact().unwrap();
    assert_eq!(req.method, HttpMethod::Get);
    assert_eq!(req.url, "https://backend.test/contact");
    assert_eq!(req.headers.len(), 2);
    assert_eq!(req.headers[0].0, "x-company-id");
    assert_eq!(req.headers[0].1, tenant().to_hyphenated());
    assert_eq!(req.headers[1].0, "x-user-id");
    assert_eq!(req.headers[1].1, user().to_hyphenated());
    assert!(matches!(req.body, RequestBody::Empty));
}

#[test]
fn send_message_builds_post_with_identity_headers() {
    let wf = configured();
    let req = wf.notifications().send_message(&simple_message()).unwrap();
    assert_eq!(req.method, HttpMethod::Post);
    assert_eq!(req.url, "https://backend.test/send-message");
    assert_eq!(req.headers.len(), 3);
    assert_eq!(req.headers[0].0, "x-company-id");
    assert_eq!(req.headers[1].0, "x-notification-id");
    assert_eq!(req.headers[1].1, notification_config().to_hyphenated());
    assert_eq!(req.headers[2].0, "x-user-id");
}

#[test]
fn broadcast_builds_the_same_request_as_send() {
    let wf = configured();
    let mut msg = simple_message();
    msg.subject = Some("news".to_string());
    msg.dynamic_data = Some(vec![("k".to_string(), "v".to_string())]);
    let a = wf.notifications().send_message(&msg).unwrap();
    let b = wf.notifications().send_broadcast_message(&msg).unwrap();
    assert_eq!(a.method, b.method);
    assert_eq!(a.url, b.url);
    assert_eq!(a.headers, b.headers);
    match (&a.body, &b.body) {
        (RequestBody::Json(x), RequestBody::Json(y)) => assert_eq!(x, y),
        _ => panic!("both bodies must be JSON"),
    }
}

#[test]
fn message_json_round_trips_literal_fields() {
    let wf = configured();
    let req = wf.notifications().send_message(&simple_message()).unwrap();
    let body = match req.body {
        RequestBody::Json(s) => s,
        _ => panic!("body must be JSON"),
    };
    // the backend echoes the document; the envelope keeps it intact
    let envelope = get_json_response(200, Vec::new(), body.clone()).unwrap();
    assert_eq!(envelope.response_body.text(), &body);
    let v: serde_json::Value = serde_json::from_str(envelope.response_body.text()).unwrap();
    assert_eq!(v["from"], "svc");
    assert_eq!(v["to"], "+15555550100");
    assert!(v["subject"].is_null());
    assert_eq!(v["message"], "hello");
    assert!(v["templateId"].is_null());
    assert_eq!(v["platform"], "SMS");
    assert!(v["dynamicData"].is_null());
    assert!(v["shouldSchedule"].is_null());
    assert!(v["scheduleFor"].is_null());
    assert_eq!(v["companyId"], tenant().to_hyphenated().as_str());
}

#[test]
fn message_json_escapes_strings() {
    let wf = configured();
    let mut msg = simple_message();
    msg.message = Some("he said \"hi\"\nnew\tline \\ done \u{1} end".to_string());
    msg.from = "s\u{e9}nder".to_string();
    let req = wf.notifications().send_message(&msg).unwrap();
    let body = match req.body {
        RequestBody::Json(s) => s,
        _ => panic!("body must be JSON"),
    };
    let v: serde_json::Value = serde_json::from_str(&body).unwrap();
    assert_eq!(v["message"], "he said \"hi\"\nnew\tline \\ done \u{1} end");
    assert_eq!(v["from"], "s\u{e9}nder");
}

#[test]
fn message_json_renders_schedule_and_options() {
    let wf = configured();
    let mut msg = simple_message();
    msg.subject = Some("subject".to_string());
    msg.template_id = Some(Id::new([0xab; 16]));
    msg.platform = MessagePlatform::WebPush;
    msg.dynamic_data = Some(vec![
        ("k1".to_string(), "v1".to_string()),
        ("k2".to_string(), "v2".to_string()),
    ]);
    msg.should_schedule = Some(true);
    msg.schedule_for = Some(DateTime { year: 2024, month: 1, day: 31, hour: 9, minute: 5, second: 0 });
    let req = wf.notifications().send_message(&msg).unwrap();
    let body = match req.body {
        RequestBody::Json(s) => s,
        _ => panic!("body must be JSON"),
    };
    assert!(body.contains("\"scheduleFor\":\"2024-01-31T09:05:00\""));
    let v: serde_json::Value = serde_json::from_str(&body).unwrap();
    assert_eq!(v["subject"], "subject");
    assert_eq!(v["templateId"], Id::new([0xab; 16]).to_hyphenated().as_str());
    assert_eq!(v["platform"], "WebPush");
    assert_eq!(v["dynamicData"]["k1"], "v1");
    assert_eq!(v["dynamicData"]["k2"], "v2");
    assert_eq!(v["shouldSchedule"], true);
    assert_eq!(v["scheduleFor"], "2024-01-31T09:05:00");
}

#[test]
fn create_template_builds_post_with_template_body() {
    let mut wf = Workflow::new("https://backend.test");
    wf.set_company(tenant());
    let t = ReqBodyTemplate {
        company_id: tenant(),
        template_title: Some("welcome".to_string()),
        description: None,
        template: "hello {name}".to_string(),
    };
    assert!(matches!(
        wf.notifications().create_template(&t),
        Err(WorkflowError::InvalidHeader(_))
    ));
    wf.set_user(user());
    let req = wf.notifications().create_template(&t).unwrap();
    assert_eq!(req.method, HttpMethod::Post);
    assert_eq!(req.url, "https://backend.test/template");
    assert_eq!(req.headers.len(), 2);
    let body = match req.body {
        RequestBody::Json(s) => s,
        _ => panic!("body must be JSON"),
    };
    let v: serde_json::Value = serde_json::from_str(&body).unwrap();
    assert_eq!(v["company_id"], tenant().to_hyphenated().as_str());
    assert_eq!(v["template_title"], "welcome");
    assert!(v["description"].is_null());
    assert_eq!(v["template"], "hello {name}");
}

#[test]
fn schedule_timestamp_is_zero_padded() {
    let wf = configured();
    let mut msg = simple_message();
    msg.schedule_for = Some(DateTime { year: 987, month: 6, day: 4, hour: 0, minute: 0, second: 7 });
    let req = wf.notifications().send_message(&msg).unwrap();
    let body = match req.body {
        RequestBody::Json(s) => s,
        _ => panic!("body must be JSON"),
    };
    assert!(body.contains("\"scheduleFor\":\"0987-06-04T00:00:07\""));
}

#[test]
fn empty_dynamic_data_is_an_empty_object() {
    let wf = configured();
    let mut msg = simple_message();
    msg.dynamic_data = Some(Vec::new());
    let req = wf.notifications().send_message(&msg).unwrap();
    let body = match req.body {
        RequestBody::Json(s) => s,
        _ => panic!("body must be JSON"),
    };
    let v: serde_json::Value = serde_json::from_str(&body).unwrap();
    assert!(v["dynamicData"].as_object().unwrap().is_empty());
}

#[test]
fn platform_names_are_exact() {
    assert_eq!(MessagePlatform::SMS.to_string(), "sms");
    assert_eq!(MessagePlatform::Email.to_string(), "email");
    assert_eq!(MessagePlatform::Whatsapp.to_string(), "whatsapp");
    assert_eq!(MessagePlatform::WebPush.to_string(), "web-push");
    assert_eq!(MessagePlatform::MobilePush.to_string(), "mobile-push");
    assert_eq!(MessagePlatform::Slack.to_string(), "slack");
    assert!(matches!(MessagePlatform::default(), MessagePlatform::Email));
}

#[test]
fn provider_names_are_exact() {
    assert_eq!(MessageProviders::Firebase.to_string(), "firebase");
    assert_eq!(MessageProviders::Termii.to_string(), "termii");
    assert_eq!(MessageProviders::Sendgrid.to_string(), "sendgrid");
    assert_eq!(MessageProviders::Twilio.to_string(), "twilio");
    assert_eq!(MessageProviders::MagicBell.to_string(), "magic-bell");
    assert_eq!(MessageProviders::Postmark.to_string(), "postmark");
    assert_eq!(MessageProviders::MailChimp.to_string(), "mail-chimp");
    assert_eq!(MessageProviders::Vapid.to_string(), "vapid");
}
