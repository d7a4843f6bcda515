//! Bucket (file storage) operations: multi-file upload against the storage
//! backend, and the declared-but-unsupported file and folder operations.

use vstd::prelude::*;

use crate::http::{
    pair_views, HttpMethod, HttpRequest, MultipartForm, RequestBody, SpecBody, SpecForm,
    SpecRequest,
};
use crate::ids::{id_text, Id};
use crate::json::JsonBody;
use crate::notifications::bool_json;
use crate::{is_success_status, status_is_success, Response, RespView, Workflow, WorkflowError};

verus! {

/// The bucket-operations handle: borrows the configuration for a call.
pub struct Buckets<'a> {
    pub workflow: &'a Workflow,
}

/// The contents of a file, fully loaded in memory.
pub type FileData = Vec<u8>;

/// A named binary payload with a declared MIME type.  Immutable once
/// constructed; used only as call input.
#[derive(Clone)]
pub struct File {
    file_type: String,
    name: String,
    data: FileData,
}

impl File {
    /// A file from its declared MIME type, name, and contents.
    pub fn new(file_type: String, name: String, data: FileData) -> (r: File)
        ensures
            r.spec_file_type() == file_type@,
            r.spec_name() == name@,
            r.spec_data() == data@,
    {
        File { file_type, name, data }
    }

    /// The declared MIME type of the payload.
    pub closed spec fn spec_file_type(&self) -> Seq<char> {
        self.file_type@
    }

    /// The file name.
    pub closed spec fn spec_name(&self) -> Seq<char> {
        self.name@
    }

    /// The payload bytes.
    pub closed spec fn spec_data(&self) -> Seq<u8> {
        self.data@
    }

    /// The declared MIME type.
    pub fn file_type(&self) -> (r: &String)
        ensures
            r@ == self.spec_file_type(),
    {
        &self.file_type
    }

    /// The file name.
    pub fn name(&self) -> (r: &String)
        ensures
            r@ == self.spec_name(),
    {
        &self.name
    }

    /// The payload length in bytes.
    pub fn len(&self) -> (r: usize)
        ensures
            r == self.spec_data().len(),
    {
        self.data.len()
    }

    /// Whether the payload is empty.
    pub fn is_empty(&self) -> (r: bool)
        ensures
            r == (self.spec_data().len() == 0),
    {
        self.data.len() == 0
    }

    /// The payload bytes.
    pub fn data(&self) -> (r: &FileData)
        ensures
            r@ == self.spec_data(),
    {
        &self.data
    }
}

/// An upload request: tenant, visibility, owner pair, description, optional
/// folder, and the files to upload.  One request fans out into one physical
/// upload call per file.
pub struct ReqBodyFile {
    pub organization_id: Id,
    pub is_public: bool,
    pub owner: (Id, String),
    pub description: String,
    pub folder_id: Option<Id>,
    pub files: Vec<File>,
}

/// Whether a string is a valid media type.
pub uninterp spec fn mime_wf(s: Seq<char>) -> bool;

/// Relies on `mime::Mime`'s `FromStr` impl: decides, from the string alone,
/// whether it is a valid media type.
#[verifier::external_body]
fn mime_ok(s: &str) -> (r: bool)
    ensures
        r == mime_wf(s@),
{
    s.parse::<mime::Mime>().is_ok()
}

/// Copies a byte vector.
fn clone_bytes(v: &Vec<u8>) -> (r: Vec<u8>)
    ensures
        r@ == v@,
{
    let mut r: Vec<u8> = Vec::new();
    let n = v.len();
    let mut i: usize = 0;
    while i < n
        invariant
            n == v@.len(),
            i <= n,
            r@ == v@.take(i as int),
        decreases n - i,
    {
        r.push(v[i]);
        proof {
            assert(r@ =~= v@.take(i + 1 as int));
        }
        i = i + 1;
    }
    proof {
        assert(v@.take(n as int) =~= v@);
    }
    r
}

/// Copies a list of name/value string pairs, keeping the views.
fn clone_pairs(v: &Vec<(String, String)>) -> (r: Vec<(String, String)>)
    ensures
        pair_views(r@) == pair_views(v@),
{
    let mut r: Vec<(String, String)> = Vec::new();
    let n = v.len();
    let mut i: usize = 0;
    while i < n
        invariant
            n == v@.len(),
            i <= n,
            r@.len() == i,
            pair_views(r@) == pair_views(v@).take(i as int),
        decreases n - i,
    {
        let p = &v[i];
        r.push((p.0.clone(), p.1.clone()));
        proof {
            assert(pair_views(r@) =~= pair_views(v@).take(i + 1 as int));
        }
        i = i + 1;
    }
    proof {
        assert(pair_views(v@).take(n as int) =~= pair_views(v@));
    }
    r
}

/// The physical upload request for the file at `i`: POST `{base_url}/assets`
/// with the tenant and user headers and a multipart body holding the tenant,
/// visibility and owner fields and the file part named `upload`.
pub open spec fn upload_request(wf: Workflow, asset: ReqBodyFile, i: int) -> SpecRequest {
    SpecRequest {
        method: HttpMethod::Post,
        url: wf.base_url@ + "/assets"@,
        headers: seq![
            ("x-company-id"@, id_text(wf.x_company_id->0@)),
            ("x-user-id"@, id_text(wf.x_user_id->0@)),
        ],
        body: SpecBody::Multipart(
            SpecForm {
                texts: seq![
                    ("organization_id"@, id_text(asset.organization_id@)),
                    ("is_public"@, bool_json(asset.is_public)),
                    ("owner"@, id_text(asset.owner.0@)),
                    ("owner"@, asset.owner.1@),
                ],
                file_field: "upload"@,
                file_name: asset.files[i].spec_name(),
                file_type: asset.files[i].spec_file_type(),
                file_data: asset.files[i].spec_data(),
            },
        ),
    }
}

impl<'a> Buckets<'a> {
    /// Builds the physical upload request for one file of the asset.  Fails
    /// with a header error, before anything is sent, exactly when the tenant
    /// or the user id is unset; fails with a format error, before anything is
    /// sent, exactly when the file's declared MIME type is not a valid media
    /// type.
    #[verifier::rlimit(50)]
    pub fn upload_request_for(&self, asset: &ReqBodyFile, index: usize) -> (r: Result<
        HttpRequest,
        WorkflowError,
    >)
        requires
            index < asset.files@.len(),
        ensures
            r is Ok <==> self.workflow.x_company_id is Some && self.workflow.x_user_id is Some
                && mime_wf(asset.files@[index as int].spec_file_type()),
            r is Ok ==> r->Ok_0@ == upload_request(*self.workflow, *asset, index as int),
            (self.workflow.x_company_id is None || self.workflow.x_user_id is None) ==> r is Err
                && r->Err_0 is InvalidHeader,
            self.workflow.x_company_id is Some && self.workflow.x_user_id is Some && !mime_wf(
                asset.files@[index as int].spec_file_type(),
            ) ==> r is Err && r->Err_0 is Format,
    {
        let extract = match self.workflow.extract_client_data() {
            Ok(e) => e,
            Err(e) => {
                return Err(e);
            },
        };
        let company = match extract.company {
            Some(h) => h,
            None => {
                return Err(WorkflowError::InvalidHeader(String::from_str("tenant id is not set")));
            },
        };
        let user = match extract.user {
            Some(h) => h,
            None => {
                return Err(WorkflowError::InvalidHeader(String::from_str("user id is not set")));
            },
        };
        let file = &asset.files[index];
        if !mime_ok(file.file_type().as_str()) {
            return Err(
                WorkflowError::Format(
                    String::from_str("declared file type is not a valid media type"),
                ),
            );
        }
        let organization = asset.organization_id.to_hyphenated();
        let is_public = if asset.is_public {
            String::from_str("true")
        } else {
            String::from_str("false")
        };
        let owner_id = asset.owner.0.to_hyphenated();
        let texts = vec![
            (String::from_str("organization_id"), organization),
            (String::from_str("is_public"), is_public),
            (String::from_str("owner"), owner_id),
            (String::from_str("owner"), asset.owner.1.clone()),
        ];
        let form = MultipartForm {
            texts,
            file_field: String::from_str("upload"),
            file_name: file.name().clone(),
            file_type: file.file_type().clone(),
            file_data: clone_bytes(file.data()),
        };
        let mut url = extract.base_url;
        url.append("/assets");
        let headers = vec![company, user];
        let req = HttpRequest {
            method: HttpMethod::Post,
            url,
            headers,
            body: RequestBody::Multipart(form),
        };
        proof {
            let spec_req = upload_request(*self.workflow, *asset, index as int);
            assert(req@.url == spec_req.url);
            assert(req@.headers =~= spec_req.headers);
            assert(req@.body =~= spec_req.body);
            assert(req@ =~= spec_req);
        }
        Ok(req)
    }

    /// Declared but unsupported: fails unconditionally, whatever the input.
    pub fn delete_file(&self) -> (r: Result<Response, WorkflowError>)
        ensures
            r is Err,
            r->Err_0 is Unsupported,
    {
        Err(WorkflowError::Unsupported)
    }

    /// Declared but unsupported: fails unconditionally, whatever the input.
    pub fn get_file(&self) -> (r: Result<Response, WorkflowError>)
        ensures
            r is Err,
            r->Err_0 is Unsupported,
    {
        Err(WorkflowError::Unsupported)
    }

    /// Declared but unsupported: fails unconditionally, whatever the input.
    pub fn create_folder(&self) -> (r: Result<Response, WorkflowError>)
        ensures
            r is Err,
            r->Err_0 is Unsupported,
    {
        Err(WorkflowError::Unsupported)
    }

    /// Declared but unsupported: fails unconditionally, whatever the input.
    pub fn delete_folder(&self) -> (r: Result<Response, WorkflowError>)
        ensures
            r is Err,
            r->Err_0 is Unsupported,
    {
        Err(WorkflowError::Unsupported)
    }

    /// Declared but unsupported: fails unconditionally, whatever the input.
    pub fn list_folders(&self) -> (r: Result<Response, WorkflowError>)
        ensures
            r is Err,
            r->Err_0 is Unsupported,
    {
        Err(WorkflowError::Unsupported)
    }

    /// Declared but unsupported: fails unconditionally, whatever the input.
    pub fn update_folder(&self) -> (r: Result<Response, WorkflowError>)
        ensures
            r is Err,
            r->Err_0 is Unsupported,
    {
        Err(WorkflowError::Unsupported)
    }

    /// Hands out the next physical upload request, strictly in input order.
    /// `Ok(None)` once every file was sent or an earlier response already
    /// failed — after a failure no further file is ever sent.  A header or
    /// format error aborts the upload before anything is sent.
    pub fn next_upload_request(
        &self,
        session: &mut UploadSession,
        asset: &ReqBodyFile,
    ) -> (r: Result<Option<HttpRequest>, WorkflowError>)
        requires
            old(session).wf(),
            !old(session).awaiting(),
        ensures
            final(session).wf(),
            old(session).halted() || old(session).sent() >= asset.files@.len() ==> r == Ok::<
                Option<HttpRequest>,
                WorkflowError,
            >(None) && *final(session) == *old(session),
            match r {
                Ok(Some(req)) => {
                    &&& !old(session).halted()
                    &&& old(session).sent() < asset.files@.len()
                    &&& req@ == upload_request(*self.workflow, *asset, old(session).sent() as int)
                    &&& final(session).awaiting()
                    &&& !final(session).halted()
                    &&& final(session).sent() == old(session).sent() + 1
                    &&& final(session).history() == old(session).history()
                    &&& final(session).bodies() == old(session).bodies()
                },
                Ok(None) => *final(session) == *old(session) && (old(session).halted() || old(
                    session,
                ).sent() >= asset.files@.len()),
                Err(e) => {
                    &&& *final(session) == *old(session)
                    &&& (e is InvalidHeader || e is Format)
                    &&& !old(session).halted()
                    &&& old(session).sent() < asset.files@.len()
                    &&& (self.workflow.x_company_id is None || self.workflow.x_user_id is None
                        || !mime_wf(
                        asset.files@[old(session).sent() as int].spec_file_type(),
                    ))
                },
            },
            !old(session).halted() && old(session).sent() < asset.files@.len()
                && self.workflow.x_company_id is Some && self.workflow.x_user_id is Some && mime_wf(
                asset.files@[old(session).sent() as int].spec_file_type(),
            ) ==> r is Ok && r->Ok_0 is Some,
    {
        if session.halted || session.next_index >= asset.files.len() {
            return Ok(None);
        }
        match self.upload_request_for(asset, session.next_index) {
            Ok(req) => {
                session.next_index = session.next_index + 1;
                session.awaiting = true;
                Ok(Some(req))
            },
            Err(e) => Err(e),
        }
    }
}

/// The members of a JSON array, joined with commas, in order.
pub open spec fn array_members(items: Seq<Seq<char>>) -> Seq<char>
    decreases items.len(),
{
    if items.len() == 0 {
        Seq::empty()
    } else if items.len() == 1 {
        items[0]
    } else {
        array_members(items.drop_last()) + ","@ + items.last()
    }
}

/// A JSON array: brackets around the joined members.
pub open spec fn array_text(items: Seq<Seq<char>>) -> Seq<char> {
    "["@ + array_members(items) + "]"@
}

/// The running state of a multi-file upload: the bodies collected so far,
/// the status and headers of the last response, how many requests were handed
/// out, and whether a failing response halted the fan-out.
pub struct UploadSession {
    collected: Vec<String>,
    status: u16,
    headers: Vec<(String, String)>,
    next_index: usize,
    halted: bool,
    awaiting: bool,
    history: Ghost<Seq<RespView>>,
}

impl UploadSession {
    /// Every response fed to the session so far, in order.
    pub closed spec fn history(self) -> Seq<RespView> {
        self.history@
    }

    /// Whether a failing response halted the fan-out.
    pub closed spec fn halted(self) -> bool {
        self.halted
    }

    /// Whether a handed-out request still awaits its response.
    pub closed spec fn awaiting(self) -> bool {
        self.awaiting
    }

    /// How many requests were handed out.
    pub closed spec fn sent(self) -> nat {
        self.next_index as nat
    }

    /// The response bodies collected so far, in order.
    pub closed spec fn bodies(self) -> Seq<Seq<char>> {
        self.collected.deep_view()
    }

    /// The status the final envelope will carry.
    pub closed spec fn final_status(self) -> u16 {
        self.status
    }

    /// The headers the final envelope will carry.
    pub closed spec fn final_headers(self) -> Seq<(Seq<char>, Seq<char>)> {
        pair_views(self.headers@)
    }

    /// The session invariant: responses arrive one per handed-out request;
    /// while no response failed, every body stands collected in order and the
    /// status and headers are the last response's (or the accepted status and
    /// no headers before the first response); once a response failed, exactly
    /// the bodies before it stand collected and the status and headers are
    /// the failing response's.
    pub closed spec fn wf(self) -> bool {
        &&& (if self.awaiting {
            !self.halted && self.next_index == self.history@.len() + 1
        } else {
            self.next_index == self.history@.len()
        })
        &&& (if !self.halted {
            &&& (forall|i: int|
                0 <= i < self.history@.len() ==> is_success_status(
                    #[trigger] self.history@[i].status,
                ))
            &&& self.collected.deep_view() == self.history@.map_values(|r: RespView| r.body)
            &&& (self.history@.len() == 0 ==> self.status == 202 && self.headers@.len() == 0)
            &&& (self.history@.len() > 0 ==> self.status == self.history@.last().status
                && pair_views(self.headers@) == self.history@.last().headers)
        } else {
            &&& self.history@.len() >= 1
            &&& !is_success_status(self.history@.last().status)
            &&& (forall|i: int|
                0 <= i < self.history@.len() - 1 ==> is_success_status(
                    #[trigger] self.history@[i].status,
                ))
            &&& self.collected.deep_view() == self.history@.drop_last().map_values(
                |r: RespView| r.body,
            )
            &&& self.status == self.history@.last().status
            &&& pair_views(self.headers@) == self.history@.last().headers
        })
    }

    /// A fresh session: nothing sent, nothing collected, accepted status.
    pub fn new() -> (r: UploadSession)
        ensures
            r.wf(),
            !r.halted(),
            !r.awaiting(),
            r.sent() == 0,
            r.history() == Seq::<RespView>::empty(),
    {
        let r = UploadSession {
            collected: Vec::new(),
            status: 202,
            headers: Vec::new(),
            next_index: 0,
            halted: false,
            awaiting: false,
            history: Ghost(Seq::empty()),
        };
        proof {
            assert(r.collected.deep_view() =~= r.history@.map_values(|v: RespView| v.body));
        }
        r
    }

    /// Whether a handed-out request still awaits its response.
    pub fn is_awaiting(&self) -> (r: bool)
        ensures
            r == self.awaiting(),
    {
        self.awaiting
    }

    /// Feeds the response to the one outstanding request.  A success appends
    /// its body to the collected list; a failure halts the fan-out and keeps
    /// the collected list as it stands.  Either way the envelope status and
    /// headers become this response's.
    pub fn on_response(&mut self, resp: &Response)
        requires
            old(self).wf(),
            old(self).awaiting(),
        ensures
            final(self).wf(),
            !final(self).awaiting(),
            final(self).sent() == old(self).sent(),
            final(self).history() == old(self).history().push(resp@),
            final(self).halted() == !is_success_status(resp.status_code),
            is_success_status(resp.status_code) ==> final(self).bodies() == old(
                self,
            ).bodies().push(resp@.body),
            !is_success_status(resp.status_code) ==> final(self).bodies() == old(self).bodies(),
    {
        proof {
            self.history@ = self.history@.push(resp@);
        }
        self.awaiting = false;
        self.status = resp.status_code;
        self.headers = clone_pairs(&resp.response_headers);
        let ghost f = |r: RespView| r.body;
        if status_is_success(resp.status_code) {
            self.collected.push(resp.response_body.text().clone());
            proof {
                assert(self.history@.drop_last() =~= old(self).history@);
                assert(self.collected.deep_view() =~= old(self).collected.deep_view().push(
                    resp@.body,
                ));
                assert(self.history@.map_values(f) =~= old(self).history@.map_values(f).push(
                    resp@.body,
                ));
            }
        } else {
            self.halted = true;
            proof {
                assert(self.history@.drop_last() =~= old(self).history@);
            }
        }
    }

    /// Assembles the final envelope: the collected bodies as a JSON array, in
    /// order, under the status and headers of the last response (or the
    /// accepted status and no headers when there was no file to send).
    pub fn finish(self) -> (r: Response)
        requires
            self.wf(),
            !self.awaiting(),
        ensures
            r@.status == self.final_status(),
            r@.headers == self.final_headers(),
            r@.body == array_text(self.bodies()),
    {
        let mut out = String::new();
        out.append("[");
        let ghost items = self.collected.deep_view();
        proof {
            assert(out@ =~= "["@ + array_members(items.take(0int)));
        }
        let n = self.collected.len();
        let mut i: usize = 0;
        while i < n
            invariant
                n == self.collected@.len(),
                i <= n,
                items == self.collected.deep_view(),
                items.len() == n,
                out@ == "["@ + array_members(items.take(i as int)),
            decreases n - i,
        {
            if i > 0 {
                out.append(",");
            }
            out.append(self.collected[i].as_str());
            proof {
                let t = items.take(i + 1 as int);
                assert(t.drop_last() =~= items.take(i as int));
                assert(t.last() == items[i as int]);
                assert(items[i as int] == self.collected@[i as int]@);
                assert(out@ =~= "["@ + array_members(t));
            }
            i = i + 1;
        }
        out.append("]");
        proof {
            assert(items.take(n as int) =~= items);
            assert(out@ =~= array_text(items));
        }
        let r = Response {
            status_code: self.status,
            response_headers: self.headers,
            response_body: JsonBody::from_text(out),
        };
        proof {
            assert(r@.headers =~= self.final_headers());
        }
        r
    }
}

/// Upload halts at the first failure: when a session halted after K
/// successful responses, exactly those K bodies stand collected, in input
/// order, the envelope status and headers are the failing response's, and no
/// request beyond the K+1 responses seen was handed out.
pub proof fn lemma_upload_stops_at_failure(s: UploadSession)
    requires
        s.wf(),
        !s.awaiting(),
        s.halted(),
    ensures
        s.history().len() >= 1,
        !is_success_status(s.history().last().status),
        forall|i: int|
            0 <= i < s.history().len() - 1 ==> is_success_status(#[trigger] s.history()[i].status),
        s.bodies().len() == s.history().len() - 1,
        forall|i: int|
            0 <= i < s.history().len() - 1 ==> s.bodies()[i] == #[trigger] s.history()[i].body,
        s.final_status() == s.history().last().status,
        s.final_headers() == s.history().last().headers,
        s.sent() == s.history().len(),
{
}

/// When every response succeeded, every body stands collected, in input
/// order, and the envelope status and headers are the last response's.
pub proof fn lemma_upload_all_succeed(s: UploadSession)
    requires
        s.wf(),
        !s.awaiting(),
        !s.halted(),
    ensures
        forall|i: int|
            0 <= i < s.history().len() ==> is_success_status(#[trigger] s.history()[i].status),
        s.bodies().len() == s.history().len(),
        forall|i: int|
            0 <= i < s.history().len() ==> s.bodies()[i] == #[trigger] s.history()[i].body,
        s.history().len() > 0 ==> s.final_status() == s.history().last().status
            && s.final_headers() == s.history().last().headers,
        s.history().len() == 0 ==> s.final_status() == 202 && s.final_headers() === Seq::empty(),
        s.sent() == s.history().len(),
{
    assert(s.history().len() == 0 ==> s.final_headers() =~= Seq::<(Seq<char>, Seq<char>)>::empty());
}

} // verus!
