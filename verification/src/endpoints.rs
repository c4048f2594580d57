//! Describing an HTTP request before it is sent, and naming the failure when the
//! answer is not a success.

use vstd::prelude::*;
use std::collections::HashMap;
use reqwest::Method;
use serde_json::Value;
use crate::errors::AnyErr2;
use crate::json::{json_document, lookup, member, parse_document, JsonField, JsonFieldView};
use crate::text::{opt_view, owned};

verus! {

/// The method of an HTTP request.
#[verifier::external_type_specification]
#[verifier::external_body]
pub struct ExMethod(Method);

/// The error of the `regex` crate.
#[verifier::external_type_specification]
#[verifier::external_body]
pub struct ExRegexError(regex::Error);

/// The text that the `regex` crate leaves when every match of `pattern` in `text`,
/// taken from left to right without overlap, is replaced by `replacement` (in which
/// the crate expands `$` references to capture groups); nothing where the crate does
/// not accept `pattern` as a regular expression.
pub uninterp spec fn regex_replaced(
    pattern: Seq<char>,
    text: Seq<char>,
    replacement: Seq<char>,
) -> Option<Seq<char>>;

/// Calls `regex::Regex::new` and, on the expression it returns, `replace_all`.
/// Trusted: the result is the one that `regex_replaced` names.
#[verifier::external_body]
pub(crate) fn replace_all(pattern: &str, text: &str, replacement: &str) -> (res: Result<
    String,
    regex::Error,
>)
    ensures
        res is Ok <==> regex_replaced(pattern@, text@, replacement@) is Some,
        res matches Ok(replaced) ==> regex_replaced(pattern@, text@, replacement@) == Some(
            replaced@,
        ),
{
    match regex::Regex::new(pattern) {
        Ok(expression) => Ok(expression.replace_all(text, replacement).into_owned()),
        Err(e) => Err(e),
    }
}

/// The regular expression of the terminal escape sequences that are taken out of an
/// error text: the escape character, `[`, digits and semicolons, and `m` or `K`.
pub const ANSI_ESCAPE: &'static str = "\\x1B\\[[0-9;]*[mK]";

/// A text without its terminal escape sequences. (Where the expression were refused,
/// the text would stay as it is.)
pub open spec fn cleaned(text: Seq<char>) -> Seq<char> {
    match regex_replaced(ANSI_ESCAPE@, text, ""@) {
        Some(clean) => clean,
        None => text,
    }
}

/// The message of the error for an answer that is no success: it says whether the
/// cleaned error text is JSON or plain text.
pub open spec fn failure_message(error_text: Seq<char>) -> Seq<char> {
    if json_document(cleaned(error_text)) is Some {
        "Request failed with JSON error text"@
    } else {
        "Request failed with text error"@
    }
}

/// The cleaned `details` of a JSON error text: the string under the key `details`,
/// without its terminal escape sequences, where the text is a JSON object that has one.
pub open spec fn failure_details(error_text: Seq<char>) -> Option<Seq<char>> {
    match json_document(cleaned(error_text)) {
        Some(members) => match lookup(members, "details"@) {
            Some(JsonFieldView::Text(details)) => Some(cleaned(details)),
            _ => None,
        },
        None => None,
    }
}

/// The cleaned text for what the replacement returned: the replaced text, or `text`
/// itself where the expression was refused.
pub fn cleaned_or_unchanged(replaced: Result<String, regex::Error>, text: &str) -> (clean: String)
    ensures
        clean@ == match replaced {
            Ok(replaced_text) => replaced_text@,
            Err(_) => text@,
        },
{
    match replaced {
        Ok(clean) => clean,
        Err(_) => owned(text),
    }
}

/// Takes the terminal escape sequences out of a text.
pub fn strip_ansi(text: &str) -> (clean: String)
    ensures
        clean@ == cleaned(text@),
{
    cleaned_or_unchanged(replace_all(ANSI_ESCAPE, text, ""), text)
}

/// What is known of an answer that is no success.
pub struct FailureReport {
    /// The error text without its terminal escape sequences.
    pub cleaned_text: String,
    /// The cleaned `details` of a JSON error text, if it has any.
    pub details: Option<String>,
    /// The error to return.
    pub error: AnyErr2,
}

/// The parts of a request that have been named so far.
pub struct EndpointBuilder {
    base_url: Option<String>,
    endpoint: Option<String>,
    method: Option<Method>,
    json_body: Option<Value>,
    query_params: Option<HashMap<String, String>>,
    path_params: Option<HashMap<String, String>>,
}

/// The mathematical view of an [`EndpointBuilder`].
pub struct EndpointBuilderView {
    pub base_url: Option<Seq<char>>,
    pub endpoint: Option<Seq<char>>,
    pub method: Option<Method>,
    pub json_body: Option<Value>,
    pub query_params: Option<HashMap<String, String>>,
    pub path_params: Option<HashMap<String, String>>,
}

impl View for EndpointBuilder {
    type V = EndpointBuilderView;

    closed spec fn view(&self) -> EndpointBuilderView {
        EndpointBuilderView {
            base_url: opt_view(self.base_url),
            endpoint: opt_view(self.endpoint),
            method: self.method,
            json_body: self.json_body,
            query_params: self.query_params,
            path_params: self.path_params,
        }
    }
}

/// A request that is ready to be sent.
pub struct Endpoint {
    base_url: String,
    endpoint: String,
    method: Method,
    json_body: Option<Value>,
    query_params: Option<HashMap<String, String>>,
    path_params: Option<HashMap<String, String>>,
}

/// The mathematical view of an [`Endpoint`].
pub struct EndpointView {
    pub base_url: Seq<char>,
    pub endpoint: Seq<char>,
    pub method: Method,
    pub json_body: Option<Value>,
    pub query_params: Option<HashMap<String, String>>,
    pub path_params: Option<HashMap<String, String>>,
}

impl View for Endpoint {
    type V = EndpointView;

    closed spec fn view(&self) -> EndpointView {
        EndpointView {
            base_url: self.base_url@,
            endpoint: self.endpoint@,
            method: self.method,
            json_body: self.json_body,
            query_params: self.query_params,
            path_params: self.path_params,
        }
    }
}

/// What `build` gives for a builder: the request, if base URL, endpoint and method are
/// all named; otherwise the complaint about the first of them that is missing.
pub open spec fn built(b: EndpointBuilderView) -> Result<EndpointView, Seq<char>> {
    if b.base_url is None {
        Err("Base URL is required"@)
    } else if b.endpoint is None {
        Err("Endpoint is required"@)
    } else if b.method is None {
        Err("Method is required"@)
    } else {
        Ok(
            EndpointView {
                base_url: b.base_url.unwrap(),
                endpoint: b.endpoint.unwrap(),
                method: b.method.unwrap(),
                json_body: b.json_body,
                query_params: b.query_params,
                path_params: b.path_params,
            },
        )
    }
}

impl Default for EndpointBuilder {
    fn default() -> (b: EndpointBuilder)
        ensures
            b@ == (EndpointBuilderView {
                base_url: None,
                endpoint: None,
                method: None,
                json_body: None,
                query_params: None,
                path_params: None,
            }),
    {
        EndpointBuilder {
            base_url: None,
            endpoint: None,
            method: None,
            json_body: None,
            query_params: None,
            path_params: None,
        }
    }
}

impl EndpointBuilder {
    /// A builder in which nothing is named.
    pub fn new() -> (b: EndpointBuilder)
        ensures
            b@ == (EndpointBuilderView {
                base_url: None,
                endpoint: None,
                method: None,
                json_body: None,
                query_params: None,
                path_params: None,
            }),
    {
        EndpointBuilder::default()
    }

    /// Names the base URL.
    pub fn base_url(self, base_url: &str) -> (b: EndpointBuilder)
        ensures
            b@ == (EndpointBuilderView { base_url: Some(base_url@), ..self@ }),
    {
        let mut b = self;
        b.base_url = Some(owned(base_url));
        b
    }

    /// Names the path of the request.
    pub fn endpoint(self, endpoint: &str) -> (b: EndpointBuilder)
        ensures
            b@ == (EndpointBuilderView { endpoint: Some(endpoint@), ..self@ }),
    {
        let mut b = self;
        b.endpoint = Some(owned(endpoint));
        b
    }

    /// Names the method.
    pub fn method(self, method: Method) -> (b: EndpointBuilder)
        ensures
            b@ == (EndpointBuilderView { method: Some(method), ..self@ }),
    {
        let mut b = self;
        b.method = Some(method);
        b
    }

    /// Names the JSON body.
    pub fn json_body(self, json_body: Value) -> (b: EndpointBuilder)
        ensures
            b@ == (EndpointBuilderView { json_body: Some(json_body), ..self@ }),
    {
        let mut b = self;
        b.json_body = Some(json_body);
        b
    }

    /// Names the query parameters.
    pub fn query_params(self, query_params: HashMap<String, String>) -> (b: EndpointBuilder)
        ensures
            b@ == (EndpointBuilderView { query_params: Some(query_params), ..self@ }),
    {
        let mut b = self;
        b.query_params = Some(query_params);
        b
    }

    /// Names the path parameters.
    pub fn path_params(self, path_params: HashMap<String, String>) -> (b: EndpointBuilder)
        ensures
            b@ == (EndpointBuilderView { path_params: Some(path_params), ..self@ }),
    {
        let mut b = self;
        b.path_params = Some(path_params);
        b
    }

    /// The request, if base URL, endpoint and method are all named; otherwise an error
    /// that names the first of them that is missing.
    pub fn build(self) -> (res: Result<Endpoint, AnyErr2>)
        ensures
            match res {
                Ok(endpoint) => built(self@) == Ok::<EndpointView, Seq<char>>(endpoint@),
                Err(e) => built(self@) == Err::<EndpointView, Seq<char>>(e@),
            },
    {
        let base_url = match self.base_url {
            Some(base_url) => base_url,
            None => {
                return Err(AnyErr2::new("Base URL is required"));
            },
        };
        let endpoint = match self.endpoint {
            Some(endpoint) => endpoint,
            None => {
                return Err(AnyErr2::new("Endpoint is required"));
            },
        };
        let method = match self.method {
            Some(method) => method,
            None => {
                return Err(AnyErr2::new("Method is required"));
            },
        };
        Ok(
            Endpoint {
                base_url,
                endpoint,
                method,
                json_body: self.json_body,
                query_params: self.query_params,
                path_params: self.path_params,
            },
        )
    }
}

impl Endpoint {
    /// A builder in which nothing is named.
    pub fn builder() -> (b: EndpointBuilder)
        ensures
            b@ == (EndpointBuilderView {
                base_url: None,
                endpoint: None,
                method: None,
                json_body: None,
                query_params: None,
                path_params: None,
            }),
    {
        EndpointBuilder::new()
    }

    /// The base URL.
    pub fn base_url(&self) -> (text: &str)
        ensures
            text@ == self@.base_url,
    {
        self.base_url.as_str()
    }

    /// The path of the request.
    pub fn endpoint(&self) -> (text: &str)
        ensures
            text@ == self@.endpoint,
    {
        self.endpoint.as_str()
    }

    /// The method.
    pub fn method(&self) -> (method: &Method)
        ensures
            *method == self@.method,
    {
        &self.method
    }

    /// The JSON body and the query parameters, for the sender to attach.
    pub fn into_body_and_query(self) -> (parts: (Option<Value>, Option<HashMap<String, String>>))
        ensures
            parts.0 == self@.json_body,
            parts.1 == self@.query_params,
    {
        (self.json_body, self.query_params)
    }

    /// The report for an error text that has been cleaned and read: `details` is
    /// nothing where the cleaned text is not JSON, and otherwise holds the cleaned
    /// `details` string of the document, if it has one.
    pub fn failure_report(cleaned_text: String, details: Option<Option<String>>) -> (report:
        FailureReport)
        ensures
            report.cleaned_text@ == cleaned_text@,
            opt_view(report.details) == match details {
                Some(found) => opt_view(found),
                None => None,
            },
            report.error@ == if details is Some {
                "Request failed with JSON error text"@
            } else {
                "Request failed with text error"@
            },
    {
        match details {
            Some(details) => FailureReport {
                cleaned_text,
                details,
                error: AnyErr2::new("Request failed with JSON error text"),
            },
            None => FailureReport {
                cleaned_text,
                details: None,
                error: AnyErr2::new("Request failed with text error"),
            },
        }
    }

    /// Names the failure of a request whose answer was no success, from the text of
    /// the answer: the text is cleaned of terminal escape sequences, and so is the
    /// `details` string of a JSON error; the error says whether the cleaned text is
    /// JSON or plain text.
    pub fn failure(error_text: &str) -> (report: FailureReport)
        ensures
            report.cleaned_text@ == cleaned(error_text@),
            opt_view(report.details) == failure_details(error_text@),
            report.error@ == failure_message(error_text@),
    {
        let cleaned_text = strip_ansi(error_text);
        let details = match parse_document(cleaned_text.as_str()) {
            Ok(doc) => match member(&doc, "details") {
                Some(JsonField::Text(details)) => Some(Some(strip_ansi(details.as_str()))),
                _ => Some(None),
            },
            Err(_) => None,
        };
        Endpoint::failure_report(cleaned_text, details)
    }
}

} // verus!
