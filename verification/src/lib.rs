//! Client library for a workflow backend that offers file/bucket storage and
//! notification messaging over HTTP/JSON.
//!
//! The library holds the session configuration (`Workflow`), derives the
//! per-request identity headers from it, builds the HTTP requests (JSON or
//! multipart) for each operation, and normalizes raw HTTP responses into a
//! uniform [`Response`] envelope.  The network transport itself lives outside
//! the library: operations produce [`http::HttpRequest`] values and consume
//! plain status/header/body triples.

use vstd::prelude::*;

pub mod ids;
pub mod text;
pub mod json;
pub mod http;
pub mod datetime;
pub mod buckets;
pub mod notifications;

use crate::http::pair_views;
use crate::ids::{header_value_ok, id_text, lemma_id_text_valid, Id};
use crate::json::{json_wf, JsonBody};

verus! {

/// The failure classes of an operation: a missing or unencodable identity
/// header, a transport failure, a malformed body or MIME type, or an
/// operation the backend surface declares but does not support.
#[derive(Debug)]
pub enum WorkflowError {
    InvalidHeader(String),
    Api(String),
    Format(String),
    Unsupported,
}

impl WorkflowError {
    /// The carried description, or a fixed phrase for unsupported operations.
    pub fn to_string(&self) -> (r: String)
        ensures
            match self {
                WorkflowError::InvalidHeader(e) => r@ == e@,
                WorkflowError::Api(e) => r@ == e@,
                WorkflowError::Format(e) => r@ == e@,
                WorkflowError::Unsupported => r@ == "unsupported operation"@,
            },
    {
        match self {
            WorkflowError::InvalidHeader(e) => e.clone(),
            WorkflowError::Api(e) => e.clone(),
            WorkflowError::Format(e) => e.clone(),
            WorkflowError::Unsupported => String::from_str("unsupported operation"),
        }
    }
}

/// Whether an HTTP status code reports success.
pub open spec fn is_success_status(s: u16) -> bool {
    200 <= s < 300
}

/// Whether an HTTP status code reports success; mirrors [`is_success_status`].
pub fn status_is_success(s: u16) -> (r: bool)
    ensures
        r == is_success_status(s),
{
    200 <= s && s < 300
}

/// Specification-level response envelope.
#[verifier::ext_equal]
pub ghost struct RespView {
    pub status: u16,
    pub headers: Seq<(Seq<char>, Seq<char>)>,
    pub body: Seq<char>,
}

/// The normalized result of an operation: status code, response headers, and
/// the JSON response body.
pub struct Response {
    pub status_code: u16,
    pub response_headers: Vec<(String, String)>,
    pub response_body: JsonBody,
}

impl View for Response {
    type V = RespView;

    open spec fn view(&self) -> RespView {
        RespView {
            status: self.status_code,
            headers: pair_views(self.response_headers@),
            body: self.response_body@,
        }
    }
}

/// Normalizes a raw HTTP response into the envelope.  The body must be a
/// well-formed JSON document; anything else is a format error, and an absent
/// body is no success either.
pub fn get_json_response(status_code: u16, response_headers: Vec<(String, String)>, body: String)
    -> (r: Result<Response, WorkflowError>)
    ensures
        r is Ok <==> json_wf(body@),
        r is Ok ==> r->Ok_0@ == (RespView {
            status: status_code,
            headers: pair_views(response_headers@),
            body: body@,
        }),
        r is Err ==> r->Err_0 is Format,
{
    match JsonBody::parse(body) {
        Some(b) => {
            let resp = Response { status_code, response_headers, response_body: b };
            proof {
                assert(resp@ =~= (RespView {
                    status: status_code,
                    headers: pair_views(response_headers@),
                    body: resp.response_body@,
                }));
            }
            Ok(resp)
        },
        None => Err(WorkflowError::Format(String::from_str("response body is not valid JSON"))),
    }
}

/// Session configuration: base URL plus the optional tenant, user and
/// configuration identifiers that become per-request identity headers.
pub struct Workflow {
    pub base_url: String,
    pub x_company_id: Option<Id>,
    pub x_user_id: Option<Id>,
    pub x_notification_id: Option<Id>,
    pub x_storage_id: Option<Id>,
    pub x_webhook_key: Option<String>,
    pub api_token: Option<String>,
}

impl Workflow {
    /// Fresh configuration: every identifier starts unset.
    pub fn new(base_url: &str) -> (r: Self)
        ensures
            r.base_url@ == base_url@,
            r.x_company_id is None,
            r.x_user_id is None,
            r.x_notification_id is None,
            r.x_storage_id is None,
            r.x_webhook_key is None,
            r.api_token is None,
    {
        Workflow {
            base_url: base_url.to_owned(),
            x_company_id: None,
            x_user_id: None,
            x_notification_id: None,
            x_storage_id: None,
            x_webhook_key: None,
            api_token: None,
        }
    }

    /// Sets the tenant identifier and changes nothing else.
    pub fn set_company(&mut self, company_id: Id)
        ensures
            *final(self) == (Workflow { x_company_id: Some(company_id), ..*old(self) }),
    {
        self.x_company_id = Some(company_id);
    }

    /// Sets the user identifier and changes nothing else.
    pub fn set_user(&mut self, user_id: Id)
        ensures
            *final(self) == (Workflow { x_user_id: Some(user_id), ..*old(self) }),
    {
        self.x_user_id = Some(user_id);
    }

    /// Sets or clears the API token and changes nothing else.
    pub fn set_api_token(&mut self, api_token: Option<String>)
        ensures
            *final(self) == (Workflow { api_token, ..*old(self) }),
    {
        self.api_token = api_token;
    }

    /// Sets or clears the notification-config identifier and changes nothing else.
    pub fn set_notification_config(&mut self, config_id: Option<Id>)
        ensures
            *final(self) == (Workflow { x_notification_id: config_id, ..*old(self) }),
    {
        self.x_notification_id = config_id;
    }

    /// Sets or clears the storage-config identifier and changes nothing else.
    pub fn set_storage_config(&mut self, config_id: Option<Id>)
        ensures
            *final(self) == (Workflow { x_storage_id: config_id, ..*old(self) }),
    {
        self.x_storage_id = config_id;
    }

    /// Sets or clears the webhook key and changes nothing else.
    pub fn set_web_hook_config(&mut self, config_id: Option<String>)
        ensures
            *final(self) == (Workflow { x_webhook_key: config_id, ..*old(self) }),
    {
        self.x_webhook_key = config_id;
    }

    /// The notification-operations handle over this configuration.
    pub fn notifications(&self) -> (r: notifications::Notifications<'_>)
        ensures
            r.workflow == self,
    {
        notifications::Notifications { workflow: self }
    }

    /// The bucket-operations handle over this configuration.
    pub fn buckets(&self) -> (r: buckets::Buckets<'_>)
        ensures
            r.workflow == self,
    {
        buckets::Buckets { workflow: self }
    }

    /// Builds the per-request identity header pairs from the configuration.
    /// Rendered identifiers always encode cleanly, so this never fails; the
    /// header-value check still runs defensively.
    pub fn extract_client_data(&self) -> (r: Result<WorkflowExtract, WorkflowError>)
        ensures
            r is Ok,
            r->Ok_0.base_url@ == self.base_url@,
            r->Ok_0.company is Some <==> self.x_company_id is Some,
            self.x_company_id is Some ==> (r->Ok_0.company->0).0@ == "x-company-id"@
                && (r->Ok_0.company->0).1@ == id_text(self.x_company_id->0@),
            r->Ok_0.user is Some <==> self.x_user_id is Some,
            self.x_user_id is Some ==> (r->Ok_0.user->0).0@ == "x-user-id"@
                && (r->Ok_0.user->0).1@ == id_text(self.x_user_id->0@),
            r->Ok_0.notification is Some <==> self.x_notification_id is Some,
            self.x_notification_id is Some ==> (r->Ok_0.notification->0).0@ == "x-notification-id"@
                && (r->Ok_0.notification->0).1@ == id_text(self.x_notification_id->0@),
    {
        let company = match &self.x_company_id {
            Some(id) => match header_pair("x-company-id", id) {
                Ok(p) => Some(p),
                Err(e) => {
                    return Err(e);
                },
            },
            None => None,
        };
        let user = match &self.x_user_id {
            Some(id) => match header_pair("x-user-id", id) {
                Ok(p) => Some(p),
                Err(e) => {
                    return Err(e);
                },
            },
            None => None,
        };
        let notification = match &self.x_notification_id {
            Some(id) => match header_pair("x-notification-id", id) {
                Ok(p) => Some(p),
                Err(e) => {
                    return Err(e);
                },
            },
            None => None,
        };
        Ok(WorkflowExtract { base_url: self.base_url.clone(), company, user, notification })
    }
}

/// A short-lived view of the configuration for one call: the base URL and
/// the identity header pairs that are present.
pub struct WorkflowExtract {
    pub base_url: String,
    pub company: Option<(String, String)>,
    pub user: Option<(String, String)>,
    pub notification: Option<(String, String)>,
}

/// One identity header pair from a set identifier.  The rendering of an
/// identifier is always a valid header value, so this always succeeds.
fn header_pair(name: &str, id: &Id) -> (r: Result<(String, String), WorkflowError>)
    ensures
        r is Ok,
        r->Ok_0.0@ == name@,
        r->Ok_0.1@ == id_text(id@),
{
    let v = id.to_hyphenated();
    proof {
        lemma_id_text_valid(id@);
    }
    if header_value_ok(v.as_str()) {
        Ok((String::from_str(name), v))
    } else {
        Err(WorkflowError::InvalidHeader(String::from_str("identifier is not a valid header value")))
    }
}

} // verus!
