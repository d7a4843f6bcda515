//! Notification operations: message sending, broadcast sending, template
//! creation, contact lookup, and the declared-but-inert contact and template
//! management surface.

use vstd::prelude::*;

use crate::datetime::{append_datetime, datetime_text, DateTime};
use crate::http::{pair_views, HttpMethod, HttpRequest, RequestBody, SpecBody, SpecRequest};
use crate::ids::{id_text, Id};
use crate::text::{append_json_string, json_string};
use crate::{Workflow, WorkflowError};

verus! {

/// The notification-operations handle: borrows the configuration for a call.
pub struct Notifications<'a> {
    pub workflow: &'a Workflow,
}

/// The delivery platform of a message.
#[derive(Clone, Copy, PartialEq, Eq, Structural)]
pub enum MessagePlatform {
    SMS,
    Email,
    Whatsapp,
    WebPush,
    MobilePush,
    Slack,
}

impl Default for MessagePlatform {
    /// The default platform is email.
    fn default() -> (r: Self)
        ensures
            r == MessagePlatform::Email,
    {
        MessagePlatform::Email
    }
}

/// The lower-case name of a platform.
pub open spec fn platform_name(p: MessagePlatform) -> Seq<char> {
    match p {
        MessagePlatform::SMS => "sms"@,
        MessagePlatform::Email => "email"@,
        MessagePlatform::Whatsapp => "whatsapp"@,
        MessagePlatform::WebPush => "web-push"@,
        MessagePlatform::MobilePush => "mobile-push"@,
        MessagePlatform::Slack => "slack"@,
    }
}

/// The wire form of a platform inside a message body: the variant name.
pub open spec fn platform_wire(p: MessagePlatform) -> Seq<char> {
    match p {
        MessagePlatform::SMS => "SMS"@,
        MessagePlatform::Email => "Email"@,
        MessagePlatform::Whatsapp => "Whatsapp"@,
        MessagePlatform::WebPush => "WebPush"@,
        MessagePlatform::MobilePush => "MobilePush"@,
        MessagePlatform::Slack => "Slack"@,
    }
}

impl MessagePlatform {
    /// The lower-case name of the platform.
    pub fn to_string(&self) -> (r: String)
        ensures
            r@ == platform_name(*self),
    {
        match self {
            MessagePlatform::SMS => String::from_str("sms"),
            MessagePlatform::Email => String::from_str("email"),
            MessagePlatform::Whatsapp => String::from_str("whatsapp"),
            MessagePlatform::WebPush => String::from_str("web-push"),
            MessagePlatform::MobilePush => String::from_str("mobile-push"),
            MessagePlatform::Slack => String::from_str("slack"),
        }
    }
}

/// A delivery provider behind a platform.
#[derive(Clone, Copy, PartialEq, Eq, Structural)]
pub enum MessageProviders {
    Firebase,
    Termii,
    Sendgrid,
    Twilio,
    MagicBell,
    Postmark,
    MailChimp,
    Vapid,
}

/// The lower-case, hyphenated name of a provider.
pub open spec fn provider_name(p: MessageProviders) -> Seq<char> {
    match p {
        MessageProviders::Firebase => "firebase"@,
        MessageProviders::Termii => "termii"@,
        MessageProviders::Sendgrid => "sendgrid"@,
        MessageProviders::Twilio => "twilio"@,
        MessageProviders::MagicBell => "magic-bell"@,
        MessageProviders::Postmark => "postmark"@,
        MessageProviders::MailChimp => "mail-chimp"@,
        MessageProviders::Vapid => "vapid"@,
    }
}

impl MessageProviders {
    /// The lower-case, hyphenated name of the provider.
    pub fn to_string(&self) -> (r: String)
        ensures
            r@ == provider_name(*self),
    {
        match self {
            MessageProviders::Firebase => String::from_str("firebase"),
            MessageProviders::Termii => String::from_str("termii"),
            MessageProviders::Sendgrid => String::from_str("sendgrid"),
            MessageProviders::Twilio => String::from_str("twilio"),
            MessageProviders::MagicBell => String::from_str("magic-bell"),
            MessageProviders::Postmark => String::from_str("postmark"),
            MessageProviders::MailChimp => String::from_str("mail-chimp"),
            MessageProviders::Vapid => String::from_str("vapid"),
        }
    }
}

/// Failure classes a notification caller may want to branch on.
pub enum NotificationErrors {
    NetworkError,
}

/// A message to send: tenant, sender, recipient, optional subject and text,
/// optional template, platform, optional dynamic data, optional scheduling.
pub struct ReqBodyMessage {
    pub company_id: Id,
    pub from: String,
    pub to: String,
    pub subject: Option<String>,
    pub message: Option<String>,
    pub template_id: Option<Id>,
    pub platform: MessagePlatform,
    pub dynamic_data: Option<Vec<(String, String)>>,
    pub should_schedule: Option<bool>,
    pub schedule_for: Option<DateTime>,
}

impl ReqBodyMessage {
    /// The scheduling timestamp, when present, has calendar-shaped fields.
    pub open spec fn wf(&self) -> bool {
        match self.schedule_for {
            Some(d) => d.wf(),
            None => true,
        }
    }
}

/// A broadcast message body with several recipients.  Declared for callers;
/// no operation sends it: broadcasting goes through [`ReqBodyMessage`].
pub struct ReqBodyBroadCastMessage {
    pub company_id: Id,
    pub from: String,
    pub to: Vec<String>,
    pub subject: Option<String>,
    pub message: Option<String>,
    pub template_id: Option<Id>,
    pub channel: String,
    pub dynamic_data: Option<Vec<(String, String)>>,
    pub should_schedule: Option<bool>,
    pub schedule_for: Option<DateTime>,
}

/// A template to create: tenant, optional title and description, and the
/// template text.
pub struct ReqBodyTemplate {
    pub company_id: Id,
    pub template_title: Option<String>,
    pub description: Option<String>,
    pub template: String,
}

/// A contact record as the backend shapes it.
pub struct ReqBodyContact {
    pub company_id: Id,
    pub user_id: Id,
    pub role: String,
    pub email: String,
    pub sms_number: Option<String>,
    pub whatsapp_number: Option<String>,
    pub allow_push_notifications: Option<bool>,
    pub mobile_device_token: Option<Vec<String>>,
}

/// "null", or a JSON string literal holding the value.
pub open spec fn opt_string_json(o: Option<String>) -> Seq<char> {
    match o {
        None => "null"@,
        Some(s) => json_string(s@),
    }
}

/// "null", or a JSON string literal holding the identifier's canonical form.
pub open spec fn opt_id_json(o: Option<Id>) -> Seq<char> {
    match o {
        None => "null"@,
        Some(id) => json_string(id_text(id@)),
    }
}

/// The JSON form of a boolean.
pub open spec fn bool_json(b: bool) -> Seq<char> {
    if b {
        "true"@
    } else {
        "false"@
    }
}

/// "null", or the JSON form of the boolean.
pub open spec fn opt_bool_json(o: Option<bool>) -> Seq<char> {
    match o {
        None => "null"@,
        Some(b) => bool_json(b),
    }
}

/// One `"key":"value"` member of a JSON object of strings.
pub open spec fn obj_member(p: (Seq<char>, Seq<char>)) -> Seq<char> {
    json_string(p.0) + ":"@ + json_string(p.1)
}

/// The members of a JSON object of strings, joined with commas, in order.
pub open spec fn obj_members(ps: Seq<(Seq<char>, Seq<char>)>) -> Seq<char>
    decreases ps.len(),
{
    if ps.len() == 0 {
        Seq::empty()
    } else if ps.len() == 1 {
        obj_member(ps[0])
    } else {
        obj_members(ps.drop_last()) + ","@ + obj_member(ps.last())
    }
}

/// A JSON object of strings: braces around the joined members.
pub open spec fn obj_json(ps: Seq<(Seq<char>, Seq<char>)>) -> Seq<char> {
    "{"@ + obj_members(ps) + "}"@
}

/// "null", or the JSON object holding the dynamic-data pairs in order.
pub open spec fn opt_dynamic_json(o: Option<Vec<(String, String)>>) -> Seq<char> {
    match o {
        None => "null"@,
        Some(d) => obj_json(pair_views(d@)),
    }
}

/// Appends "null" or the JSON string literal holding the value.
fn append_opt_string_json(out: &mut String, o: &Option<String>)
    ensures
        final(out)@ == old(out)@ + opt_string_json(*o),
{
    match o {
        None => out.append("null"),
        Some(s) => append_json_string(out, s.as_str()),
    }
}

/// Appends the JSON object holding the pairs in order.
fn append_obj_json(out: &mut String, d: &Vec<(String, String)>)
    ensures
        final(out)@ == old(out)@ + obj_json(pair_views(d@)),
{
    out.append("{");
    let ghost ps = pair_views(d@);
    let n = d.len();
    let mut i: usize = 0;
    while i < n
        invariant
            n == d@.len(),
            i <= n,
            ps == pair_views(d@),
            ps.len() == n,
            out@ == old(out)@ + "{"@ + obj_members(ps.take(i as int)),
        decreases n - i,
    {
        if i > 0 {
            out.append(",");
        }
        let p = &d[i];
        append_json_string(out, p.0.as_str());
        out.append(":");
        append_json_string(out, p.1.as_str());
        proof {
            let t = ps.take(i + 1 as int);
            assert(t.drop_last() =~= ps.take(i as int));
            assert(t.last() == ps[i as int]);
            assert(ps[i as int] == (d@[i as int].0@, d@[i as int].1@));
            assert(out@ =~= old(out)@ + "{"@ + obj_members(t));
        }
        i = i + 1;
    }
    out.append("}");
    proof {
        assert(ps.take(n as int) =~= ps);
        assert(final(out)@ =~= old(out)@ + obj_json(pair_views(d@)));
    }
}

/// The JSON wire form of a message: every field present, absent options as
/// null, the platform as its variant name, identifiers in canonical form,
/// the schedule timestamp in ISO-8601 form.
pub open spec fn message_json(m: ReqBodyMessage) -> Seq<char> {
    "{\"companyId\":"@ + json_string(id_text(m.company_id@)) + ",\"from\":"@ + json_string(m.from@)
        + ",\"to\":"@ + json_string(m.to@) + ",\"subject\":"@ + opt_string_json(m.subject)
        + ",\"message\":"@ + opt_string_json(m.message) + ",\"templateId\":"@ + opt_id_json(
        m.template_id,
    ) + ",\"platform\":"@ + json_string(platform_wire(m.platform)) + ",\"dynamicData\":"@
        + opt_dynamic_json(m.dynamic_data) + ",\"shouldSchedule\":"@ + opt_bool_json(
        m.should_schedule,
    ) + ",\"scheduleFor\":"@ + (match m.schedule_for {
        None => "null"@,
        Some(d) => json_string(datetime_text(d)),
    }) + "}"@
}

/// Serializes a message to its JSON wire form.
pub fn message_json_text(m: &ReqBodyMessage) -> (r: String)
    requires
        m.wf(),
    ensures
        r@ == message_json(*m),
{
    let mut out = String::new();
    out.append("{\"companyId\":");
    let company = m.company_id.to_hyphenated();
    append_json_string(&mut out, company.as_str());
    out.append(",\"from\":");
    append_json_string(&mut out, m.from.as_str());
    out.append(",\"to\":");
    append_json_string(&mut out, m.to.as_str());
    out.append(",\"subject\":");
    append_opt_string_json(&mut out, &m.subject);
    out.append(",\"message\":");
    append_opt_string_json(&mut out, &m.message);
    out.append(",\"templateId\":");
    match &m.template_id {
        None => out.append("null"),
        Some(id) => {
            let t = id.to_hyphenated();
            append_json_string(&mut out, t.as_str());
        },
    }
    out.append(",\"platform\":");
    match m.platform {
        MessagePlatform::SMS => append_json_string(&mut out, "SMS"),
        MessagePlatform::Email => append_json_string(&mut out, "Email"),
        MessagePlatform::Whatsapp => append_json_string(&mut out, "Whatsapp"),
        MessagePlatform::WebPush => append_json_string(&mut out, "WebPush"),
        MessagePlatform::MobilePush => append_json_string(&mut out, "MobilePush"),
        MessagePlatform::Slack => append_json_string(&mut out, "Slack"),
    }
    out.append(",\"dynamicData\":");
    match &m.dynamic_data {
        None => out.append("null"),
        Some(d) => append_obj_json(&mut out, d),
    }
    out.append(",\"shouldSchedule\":");
    match m.should_schedule {
        None => out.append("null"),
        Some(b) => {
            if b {
                out.append("true")
            } else {
                out.append("false")
            }
        },
    }
    out.append(",\"scheduleFor\":");
    match &m.schedule_for {
        None => out.append("null"),
        Some(d) => {
            let mut ds = String::new();
            append_datetime(&mut ds, d);
            proof {
                assert(ds@ =~= datetime_text(*d));
            }
            append_json_string(&mut out, ds.as_str());
        },
    }
    out.append("}");
    proof {
        assert(out@ =~= message_json(*m));
    }
    out
}

/// The JSON wire form of a template: tenant in canonical form, absent
/// options as null, and the template text.
pub open spec fn template_json(t: ReqBodyTemplate) -> Seq<char> {
    "{\"company_id\":"@ + json_string(id_text(t.company_id@)) + ",\"template_title\":"@
        + opt_string_json(t.template_title) + ",\"description\":"@ + opt_string_json(t.description)
        + ",\"template\":"@ + json_string(t.template@) + "}"@
}

/// Serializes a template to its JSON wire form.
pub fn template_json_text(t: &ReqBodyTemplate) -> (r: String)
    ensures
        r@ == template_json(*t),
{
    let mut out = String::new();
    out.append("{\"company_id\":");
    let company = t.company_id.to_hyphenated();
    append_json_string(&mut out, company.as_str());
    out.append(",\"template_title\":");
    append_opt_string_json(&mut out, &t.template_title);
    out.append(",\"description\":");
    append_opt_string_json(&mut out, &t.description);
    out.append(",\"template\":");
    append_json_string(&mut out, t.template.as_str());
    out.append("}");
    proof {
        assert(out@ =~= template_json(*t));
    }
    out
}

/// The body of a contact-lookup response.
pub struct ResBodyContact {}

/// The body of a broadcast-message response.
pub struct ResBodyBroadCastMessage {}

/// The contact-lookup request: GET `{base_url}/contact` with the tenant and
/// user headers and no body.
pub open spec fn fetch_contact_request(wf: Workflow) -> SpecRequest {
    SpecRequest {
        method: HttpMethod::Get,
        url: wf.base_url@ + "/contact"@,
        headers: seq![
            ("x-company-id"@, id_text(wf.x_company_id->0@)),
            ("x-user-id"@, id_text(wf.x_user_id->0@)),
        ],
        body: SpecBody::Empty,
    }
}

/// The message request: POST `{base_url}/send-message` with the tenant,
/// notification-config and user headers and the message JSON body.
pub open spec fn send_message_request(wf: Workflow, m: ReqBodyMessage) -> SpecRequest {
    SpecRequest {
        method: HttpMethod::Post,
        url: wf.base_url@ + "/send-message"@,
        headers: seq![
            ("x-company-id"@, id_text(wf.x_company_id->0@)),
            ("x-notification-id"@, id_text(wf.x_notification_id->0@)),
            ("x-user-id"@, id_text(wf.x_user_id->0@)),
        ],
        body: SpecBody::Json(message_json(m)),
    }
}

/// The broadcast request.  The backend exposes no separate broadcast
/// endpoint to this layer: the request is the message request, unchanged.
pub open spec fn send_broadcast_message_request(wf: Workflow, m: ReqBodyMessage) -> SpecRequest {
    SpecRequest {
        method: HttpMethod::Post,
        url: wf.base_url@ + "/send-message"@,
        headers: seq![
            ("x-company-id"@, id_text(wf.x_company_id->0@)),
            ("x-notification-id"@, id_text(wf.x_notification_id->0@)),
            ("x-user-id"@, id_text(wf.x_user_id->0@)),
        ],
        body: SpecBody::Json(message_json(m)),
    }
}

/// Broadcasting and sending are the same request: for one configuration and
/// one message, `send_broadcast_message` and `send_message` build requests
/// with identical method, URL, headers and body.
pub proof fn lemma_broadcast_equals_send(wf: Workflow, m: ReqBodyMessage)
    ensures
        send_broadcast_message_request(wf, m) == send_message_request(wf, m),
{
    assert(send_broadcast_message_request(wf, m) =~= send_message_request(wf, m));
}

/// The template-creation request: POST `{base_url}/template` with the tenant
/// and user headers and the template JSON body.
pub open spec fn create_template_request(wf: Workflow, t: ReqBodyTemplate) -> SpecRequest {
    SpecRequest {
        method: HttpMethod::Post,
        url: wf.base_url@ + "/template"@,
        headers: seq![
            ("x-company-id"@, id_text(wf.x_company_id->0@)),
            ("x-user-id"@, id_text(wf.x_user_id->0@)),
        ],
        body: SpecBody::Json(template_json(t)),
    }
}

impl<'a> Notifications<'a> {
    /// Builds the contact-lookup request.  Fails with a header error, before
    /// anything is sent, exactly when the tenant or the user id is unset.
    pub fn fetch_contact(&self) -> (r: Result<HttpRequest, WorkflowError>)
        ensures
            r is Ok <==> self.workflow.x_company_id is Some && self.workflow.x_user_id is Some,
            r is Ok ==> r->Ok_0@ == fetch_contact_request(*self.workflow),
            r is Err ==> r->Err_0 is InvalidHeader,
    {
        let extract = match self.workflow.extract_client_data() {
            Ok(e) => e,
            Err(e) => {
                return Err(e);
            },
        };
        let company = match extract.company {
            Some(h) => h,
            None => {
                return Err(WorkflowError::InvalidHeader(String::from_str("tenant id is not set")));
            },
        };
        let user = match extract.user {
            Some(h) => h,
            None => {
                return Err(WorkflowError::InvalidHeader(String::from_str("user id is not set")));
            },
        };
        let mut url = extract.base_url;
        url.append("/contact");
        let headers = vec![company, user];
        let req = HttpRequest { method: HttpMethod::Get, url, headers, body: RequestBody::Empty };
        proof {
            let spec_req = fetch_contact_request(*self.workflow);
            assert(req@.headers =~= spec_req.headers);
            assert(req@ =~= spec_req);
        }
        Ok(req)
    }

    /// Builds the message request.  Fails with a header error, before
    /// anything is sent, exactly when the tenant, user or notification-config
    /// id is unset.
    #[verifier::rlimit(50)]
    pub fn send_message(&self, msg: &ReqBodyMessage) -> (r: Result<HttpRequest, WorkflowError>)
        requires
            msg.wf(),
        ensures
            r is Ok <==> self.workflow.x_company_id is Some && self.workflow.x_user_id is Some
                && self.workflow.x_notification_id is Some,
            r is Ok ==> r->Ok_0@ == send_message_request(*self.workflow, *msg),
            r is Err ==> r->Err_0 is InvalidHeader,
    {
        let extract = match self.workflow.extract_client_data() {
            Ok(e) => e,
            Err(e) => {
                return Err(e);
            },
        };
        let company = match extract.company {
            Some(h) => h,
            None => {
                return Err(WorkflowError::InvalidHeader(String::from_str("tenant id is not set")));
            },
        };
        let user = match extract.user {
            Some(h) => h,
            None => {
                return Err(WorkflowError::InvalidHeader(String::from_str("user id is not set")));
            },
        };
        let notification = match extract.notification {
            Some(h) => h,
            None => {
                return Err(
                    WorkflowError::InvalidHeader(
                        String::from_str("notification-config id is not set"),
                    ),
                );
            },
        };
        let mut url = extract.base_url;
        url.append("/send-message");
        let body = message_json_text(msg);
        let headers = vec![company, notification, user];
        let req = HttpRequest {
            method: HttpMethod::Post,
            url,
            headers,
            body: RequestBody::Json(body),
        };
        proof {
            let spec_req = send_message_request(*self.workflow, *msg);
            assert(req@.url == spec_req.url);
            assert(req@.headers =~= spec_req.headers);
            assert(req@.body == spec_req.body);
            assert(req@ =~= spec_req);
        }
        Ok(req)
    }

    /// Builds the broadcast request: deliberately the very request
    /// [`Notifications::send_message`] builds, against the same endpoint.
    pub fn send_broadcast_message(&self, msg: &ReqBodyMessage) -> (r: Result<
        HttpRequest,
        WorkflowError,
    >)
        requires
            msg.wf(),
        ensures
            r is Ok <==> self.workflow.x_company_id is Some && self.workflow.x_user_id is Some
                && self.workflow.x_notification_id is Some,
            r is Ok ==> r->Ok_0@ == send_broadcast_message_request(*self.workflow, *msg),
            r is Err ==> r->Err_0 is InvalidHeader,
    {
        let r = self.send_message(msg);
        proof {
            lemma_broadcast_equals_send(*self.workflow, *msg);
        }
        r
    }

    /// Builds the template-creation request.  Fails with a header error,
    /// before anything is sent, exactly when the tenant or the user id is
    /// unset.
    pub fn create_template(&mut self, template_data: &ReqBodyTemplate) -> (r: Result<
        HttpRequest,
        WorkflowError,
    >)
        ensures
            r is Ok <==> old(self).workflow.x_company_id is Some && old(self).workflow.x_user_id
                is Some,
            r is Ok ==> r->Ok_0@ == create_template_request(*old(self).workflow, *template_data),
            r is Err ==> r->Err_0 is InvalidHeader,
    {
        let extract = match self.workflow.extract_client_data() {
            Ok(e) => e,
            Err(e) => {
                return Err(e);
            },
        };
        let company = match extract.company {
            Some(h) => h,
            None => {
                return Err(WorkflowError::InvalidHeader(String::from_str("tenant id is not set")));
            },
        };
        let user = match extract.user {
            Some(h) => h,
            None => {
                return Err(WorkflowError::InvalidHeader(String::from_str("user id is not set")));
            },
        };
        let mut url = extract.base_url;
        url.append("/template");
        let body = template_json_text(template_data);
        let headers = vec![company, user];
        let req = HttpRequest {
            method: HttpMethod::Post,
            url,
            headers,
            body: RequestBody::Json(body),
        };
        proof {
            let spec_req = create_template_request(*old(self).workflow, *template_data);
            assert(req@.url == spec_req.url);
            assert(req@.headers =~= spec_req.headers);
            assert(req@.body == spec_req.body);
            assert(req@ =~= spec_req);
        }
        Ok(req)
    }

    /// Declared surface with no behavior: performs nothing and returns
    /// nothing, whatever the input.
    pub fn fetch_contact_list(&self)
    {
    }

    /// Declared surface with no behavior: performs nothing and returns
    /// nothing, whatever the input.
    pub fn create_contact(&mut self)
        ensures
            *final(self) == *old(self),
    {
    }

    /// Declared surface with no behavior: performs nothing and returns
    /// nothing, whatever the input.
    pub fn update_contact(&mut self)
        ensures
            *final(self) == *old(self),
    {
    }

    /// Declared surface with no behavior: performs nothing and returns
    /// nothing, whatever the input.
    pub fn delete_contact(&mut self)
        ensures
            *final(self) == *old(self),
    {
    }

    /// Declared surface with no behavior: performs nothing and returns
    /// nothing, whatever the input.
    pub fn fetch_template(&self)
    {
    }

    /// Declared surface with no behavior: performs nothing and returns
    /// nothing, whatever the input.
    pub fn update_template(&mut self)
        ensures
            *final(self) == *old(self),
    {
    }

    /// Declared surface with no behavior: performs nothing and returns
    /// nothing, whatever the input.
    pub fn delete_template(&mut self)
        ensures
            *final(self) == *old(self),
    {
    }
}

} // verus!
