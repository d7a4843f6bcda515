//! The shape of an HTTP request as the library builds it, and the
//! specification-level mirror that operation contracts speak of.
//!
//! The library builds complete request descriptions — method, URL, headers
//! and body — as plain values.  An outside transport executes them and hands
//! back a status code, headers and a body text.

use vstd::prelude::*;

verus! {

/// The HTTP method of a request.
#[derive(Clone, Copy, Debug, PartialEq, Eq, Structural)]
pub enum HttpMethod {
    Get,
    Post,
}

/// A multipart form: named text fields in order, and one binary file part.
pub struct MultipartForm {
    pub texts: Vec<(String, String)>,
    pub file_field: String,
    pub file_name: String,
    pub file_type: String,
    pub file_data: Vec<u8>,
}

/// The body of a request: none, a JSON document, or a multipart form.
pub enum RequestBody {
    Empty,
    Json(String),
    Multipart(MultipartForm),
}

/// A complete request description.
pub struct HttpRequest {
    pub method: HttpMethod,
    pub url: String,
    pub headers: Vec<(String, String)>,
    pub body: RequestBody,
}

/// The views of a sequence of name/value string pairs.
pub open spec fn pair_views(h: Seq<(String, String)>) -> Seq<(Seq<char>, Seq<char>)> {
    h.map_values(|p: (String, String)| (p.0@, p.1@))
}

/// Specification-level multipart form.
#[verifier::ext_equal]
pub ghost struct SpecForm {
    pub texts: Seq<(Seq<char>, Seq<char>)>,
    pub file_field: Seq<char>,
    pub file_name: Seq<char>,
    pub file_type: Seq<char>,
    pub file_data: Seq<u8>,
}

/// Specification-level request body.
#[verifier::ext_equal]
pub ghost enum SpecBody {
    Empty,
    Json(Seq<char>),
    Multipart(SpecForm),
}

/// Specification-level request description.
#[verifier::ext_equal]
pub ghost struct SpecRequest {
    pub method: HttpMethod,
    pub url: Seq<char>,
    pub headers: Seq<(Seq<char>, Seq<char>)>,
    pub body: SpecBody,
}

impl View for MultipartForm {
    type V = SpecForm;

    open spec fn view(&self) -> SpecForm {
        SpecForm {
            texts: pair_views(self.texts@),
            file_field: self.file_field@,
            file_name: self.file_name@,
            file_type: self.file_type@,
            file_data: self.file_data@,
        }
    }
}

impl View for RequestBody {
    type V = SpecBody;

    open spec fn view(&self) -> SpecBody {
        match self {
            RequestBody::Empty => SpecBody::Empty,
            RequestBody::Json(s) => SpecBody::Json(s@),
            RequestBody::Multipart(f) => SpecBody::Multipart(f@),
        }
    }
}

impl View for HttpRequest {
    type V = SpecRequest;

    open spec fn view(&self) -> SpecRequest {
        SpecRequest {
            method: self.method,
            url: self.url@,
            headers: pair_views(self.headers@),
            body: self.body@,
        }
    }
}

} // verus!
