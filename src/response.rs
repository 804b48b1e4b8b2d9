//! Responses to clients, requests from them, and configuration fallback.
use vstd::prelude::*;
use crate::errors::{PathParameterError, RequiredEnvVarError};
use crate::text::{join2, owned, same_text};

verus! {

/// The headers sent with every response.
#[derive(Debug)]
pub struct ResponseHeaders {
    pub content_type: String,
    pub access_control_allow_origin: String,
    pub access_control_allow_credentials: String,
    pub x_requested_with: String,
    pub access_control_allow_headers: String,
    pub access_control_allow_methods: String,
    pub access_control_expose_headers: String,
}

/// `h` holds the headers sent with every response: JSON content, open to every
/// origin.
pub open spec fn is_default_headers(h: ResponseHeaders) -> bool {
    &&& h.content_type@ == "application/json"@
    &&& h.access_control_allow_origin@ == "*"@
    &&& h.access_control_allow_credentials@ == "false"@
    &&& h.x_requested_with@ == "*"@
    &&& h.access_control_allow_headers@ == "Accept,Content-Type,Authorization,X-Amz-Date,X-Api-Key,X-Amz-User-Agent,X-Requested-With,X-Amz-Security-Token"@
    &&& h.access_control_allow_methods@ == "OPTIONS,HEAD,GET,POST,PUT,PATCH,DELETE"@
    &&& h.access_control_expose_headers@ == "Authorization,X-Requested-With"@
}

impl ResponseHeaders {
    /// JSON content, open to every origin.
    pub fn default() -> (r: Self)
        ensures
            is_default_headers(r),
    {
        ResponseHeaders {
            content_type: owned("application/json"),
            access_control_allow_origin: owned("*"),
            access_control_allow_credentials: owned("false"),
            x_requested_with: owned("*"),
            access_control_allow_headers: owned(
                "Accept,Content-Type,Authorization,X-Amz-Date,X-Api-Key,X-Amz-User-Agent,X-Requested-With,X-Amz-Security-Token",
            ),
            access_control_allow_methods: owned("OPTIONS,HEAD,GET,POST,PUT,PATCH,DELETE"),
            access_control_expose_headers: owned("Authorization,X-Requested-With"),
        }
    }
}

/// A response to a client: a status code, the default headers and a body.
#[derive(Debug)]
pub struct Response {
    pub status_code: u16,
    pub headers: ResponseHeaders,
    pub body: String,
}

impl Response {
    /// A response with status `code` and the already encoded `body`.
    pub fn with_body(body: String, code: u16) -> (r: Self)
        ensures
            r.status_code == code,
            r.body == body,
            is_default_headers(r.headers),
    {
        Response { status_code: code, headers: ResponseHeaders::default(), body }
    }

    /// An empty response with status 204.
    pub fn ok() -> (r: Self)
        ensures
            r.status_code == 204,
            r.body@ == Seq::<char>::empty(),
            is_default_headers(r.headers),
    {
        Response { status_code: 204, headers: ResponseHeaders::default(), body: String::new() }
    }
}

/// A list of items with its length.
#[derive(Debug)]
pub struct ResponseGenericList<T> {
    pub items: Vec<T>,
    pub count: usize,
}

impl<T> ResponseGenericList<T> {
    pub fn new(items: Vec<T>) -> (r: Self)
        ensures
            r.items == items,
            r.count == items@.len(),
    {
        ResponseGenericList { count: items.len(), items }
    }
}

/// Reading what a request carries.
pub struct Request;

impl Request {
    /// The path parameter `key`, given the request's path parameters if it has
    /// any.
    pub fn path_parameter(key: &str, parameters: Option<&Vec<(String, String)>>) -> (r: Result<String, PathParameterError>)
        ensures
            parameters is None ==> r is Err && r->Err_0.error@ == "No path parameters found"@,
            parameters matches Some(ps) ==> parameter_found(key@, ps@, r),
    {
        match parameters {
            None => Err(PathParameterError::new("No path parameters found")),
            Some(ps) => Request::lookup_parameter(key, ps),
        }
    }

    /// The path parameter `key` among `ps`: the value of its first entry.
    pub fn lookup_parameter(key: &str, ps: &Vec<(String, String)>) -> (r: Result<String, PathParameterError>)
        ensures
            parameter_found(key@, ps@, r),
    {
        let mut i: usize = 0;
        while i < ps.len()
            invariant
                i <= ps@.len(),
                forall|j: int| 0 <= j < i ==> (#[trigger] ps@[j]).0@ != key@,
            decreases ps@.len() - i,
        {
            if same_text(ps[i].0.as_str(), key) {
                let v = ps[i].1.clone();
                assert(0 <= i < ps@.len() && ps@[i as int].0@ == key@ && ps@[i as int].1@ == v@
                    && forall|j: int| 0 <= j < i ==> (#[trigger] ps@[j]).0@ != key@);
                return Ok(v);
            }
            i = i + 1;
        }
        let head = join2("Path parameter \"", key);
        Err(PathParameterError { error: join2(head.as_str(), "\" not found") })
    }
}

/// `r` is the outcome of looking up path parameter `key` among `ps`: the value
/// of the first entry named `key`, or an error that names `key` when none is.
pub open spec fn parameter_found(key: Seq<char>, ps: Seq<(String, String)>, r: Result<String, PathParameterError>) -> bool {
    match r {
        Ok(v) => exists|i: int|
            0 <= i < ps.len() && ps[i].0@ == key && ps[i].1@ == v@ && forall|j: int|
                0 <= j < i ==> (#[trigger] ps[j]).0@ != key,
        Err(e) => (forall|i: int| 0 <= i < ps.len() ==> (#[trigger] ps[i]).0@ != key)
            && e.error@ == "Path parameter \""@ + key + "\" not found"@,
    }
}

/// A configuration value: the one found, else the default, else an error that
/// names it.
pub fn resolve_env_var(name: &str, found: Option<String>, default: Option<&str>) -> (r: Result<String, RequiredEnvVarError>)
    ensures
        match found {
            Some(v) => r == Ok::<String, RequiredEnvVarError>(v),
            None => match default {
                Some(d) => r is Ok && r->Ok_0@ == d@,
                None => r is Err && r->Err_0.name@ == name@,
            },
        },
{
    match found {
        Some(v) => Ok(v),
        None => match default {
            Some(d) => Ok(owned(d)),
            None => Err(RequiredEnvVarError::new(name)),
        },
    }
}

} // verus!
