//! Error values of the library and the client-facing request errors.
use vstd::prelude::*;
use crate::text::{join2, owned};

verus! {

/// A required configuration value is absent and has no default.
#[derive(Debug)]
pub struct RequiredEnvVarError {
    pub name: String,
}

impl RequiredEnvVarError {
    pub fn new(name: &str) -> (r: Self)
        ensures
            r.name@ == name@,
    {
        Self { name: owned(name) }
    }

    /// The message of this error.
    pub fn to_string(&self) -> (r: String)
        ensures
            r@ == "Missing required env var: "@ + self.name@,
    {
        join2("Missing required env var: ", self.name.as_str())
    }
}

/// A handler could not run to completion.
#[derive(Debug)]
pub struct ExecutionError;

impl ExecutionError {
    /// The message of this error.
    pub fn to_string(&self) -> (r: String)
        ensures
            r@ == "Execution error"@,
    {
        owned("Execution error")
    }
}

/// A document lacks a required field, or holds it in another shape.
#[derive(Debug)]
pub struct MissingModelPropertyError {
    pub name: String,
}

impl MissingModelPropertyError {
    pub fn new(name: &str) -> (r: Self)
        ensures
            r.name@ == name@,
    {
        Self { name: owned(name) }
    }

    /// The message of this error.
    pub fn to_string(&self) -> (r: String)
        ensures
            r@ == "Missing model property: "@ + self.name@,
    {
        join2("Missing model property: ", self.name.as_str())
    }
}

/// A commands document lacks one of its two command lists.
#[derive(Debug)]
pub struct MissingRequiredCommandError {
    pub name: String,
}

impl MissingRequiredCommandError {
    pub fn new(name: &str) -> (r: Self)
        ensures
            r.name@ == name@,
    {
        Self { name: owned(name) }
    }

    /// The message of this error.
    pub fn to_string(&self) -> (r: String)
        ensures
            r@ == "Missing required command: "@ + self.name@,
    {
        join2("Missing required command: ", self.name.as_str())
    }
}

/// A failure of the build service or of the document store.
#[derive(Debug)]
pub struct HandlerError {
    pub msg: String,
}

impl HandlerError {
    pub fn new(message: &str) -> (r: Self)
        ensures
            r.msg@ == message@,
    {
        Self { msg: owned(message) }
    }

    /// The message of this error.
    pub fn to_string(&self) -> (r: String)
        ensures
            r@ == "Handler create error: "@ + self.msg@,
    {
        join2("Handler create error: ", self.msg.as_str())
    }
}

/// An error reported to a client: a code, a short message and details.
#[derive(Debug)]
pub struct RequestError {
    pub code: String,
    pub message: String,
    pub details: String,
}

impl RequestError {
    pub fn new(code: String, message: String, details: String) -> (r: Self)
        ensures
            r.code == code,
            r.message == message,
            r.details == details,
    {
        Self { code, message, details }
    }

    pub fn internal() -> (r: Self)
        ensures
            r.code@ == "ISE00"@,
            r.message@ == "Internal Server Error"@,
            r.details@ == "Something wrong happened, try again later"@,
    {
        Self {
            code: owned("ISE00"),
            message: owned("Internal Server Error"),
            details: owned("Something wrong happened, try again later"),
        }
    }

    pub fn path_parameter(param: String) -> (r: Self)
        ensures
            r.code@ == "GRE100"@,
            r.message@ == "Request Error"@,
            r.details@ == "Path parameter error "@ + param@,
    {
        Self {
            code: owned("GRE100"),
            message: owned("Request Error"),
            details: join2("Path parameter error ", param.as_str()),
        }
    }
}

/// A path parameter of a request is absent.
#[derive(Debug)]
pub struct PathParameterError {
    pub error: String,
}

impl PathParameterError {
    pub fn new(error: &str) -> (r: Self)
        ensures
            r.error@ == error@,
    {
        Self { error: owned(error) }
    }

    /// The message of this error.
    pub fn to_string(&self) -> (r: String)
        ensures
            r@ == "Path parameter error: "@ + self.error@,
    {
        join2("Path parameter error: ", self.error.as_str())
    }
}

/// Request errors shared by all handlers.
pub struct CommonError;

impl CommonError {
    pub fn generic(error: String) -> (r: RequestError)
        ensures
            r.code@ == "CME00"@,
            r.message@ == "Error"@,
            r.details == error,
    {
        RequestError { code: owned("CME00"), message: owned("Error"), details: error }
    }

    pub fn schema_compliant(details: String) -> (r: RequestError)
        ensures
            r.code@ == "CME01"@,
            r.message@ == "Schema Compliant Error"@,
            r.details == details,
    {
        RequestError { code: owned("CME01"), message: owned("Schema Compliant Error"), details }
    }

    pub fn item_not_found(details: Option<String>) -> (r: RequestError)
        ensures
            r.code@ == "CME02"@,
            r.message@ == "Not Found Error"@,
            details matches Some(d) ==> r.details == d,
            details is None ==> r.details@ == "Item not found"@,
    {
        RequestError {
            code: owned("CME02"),
            message: owned("Not Found Error"),
            details: match details {
                Some(details) => details,
                None => owned("Item not found"),
            },
        }
    }
}

/// Request errors of the project handlers.
pub struct ProjectError;

impl ProjectError {
    pub fn creation_failed() -> (r: RequestError)
        ensures
            r.code@ == "PJE00"@,
            r.message@ == "Create Project Error"@,
            r.details@ == "Project creation failed, try again"@,
    {
        RequestError {
            code: owned("PJE00"),
            message: owned("Create Project Error"),
            details: owned("Project creation failed, try again"),
        }
    }
}

/// Request errors of the deployment handlers.
pub struct ProjectDeploymentError;

impl ProjectDeploymentError {
    pub fn creation_failed() -> (r: RequestError)
        ensures
            r.code@ == "PDE00"@,
            r.message@ == "Create Project Deployment Error"@,
            r.details@ == "Record creation failed but build has been triggered (probably)"@,
    {
        RequestError {
            code: owned("PDE00"),
            message: owned("Create Project Deployment Error"),
            details: owned("Record creation failed but build has been triggered (probably)"),
        }
    }
}

/// Request errors of the user handlers.
pub struct UserError;

impl UserError {
    pub fn creation_failed() -> (r: RequestError)
        ensures
            r.code@ == "USE00"@,
            r.message@ == "Create User Error"@,
            r.details@ == "User creation failed, try again"@,
    {
        RequestError {
            code: owned("USE00"),
            message: owned("Create User Error"),
            details: owned("User creation failed, try again"),
        }
    }
}

} // verus!
