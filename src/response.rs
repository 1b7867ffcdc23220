use vstd::prelude::*;

verus! {

/// Where the next page of a list starts.
#[derive(Clone, Debug)]
pub struct PageInfo {
    pub end_cursor: Option<String>,
}

/// One step of the path to the response field that an error concerns.
#[derive(Clone, Debug)]
pub enum PathSegment {
    Field(String),
    Index(i64),
}

/// An error that the service reports alongside, or instead of, data.
#[derive(Clone, Debug)]
pub struct GraphQlError {
    pub message: String,
    pub path: Option<Vec<PathSegment>>,
}

/// The `{ data, errors }` body that the service returns under any status.
#[derive(Debug)]
pub struct Envelope<D> {
    pub data: Option<D>,
    pub errors: Option<Vec<GraphQlError>>,
}

/// How one request ended, as the transport saw it.
pub enum Reply<D> {
    /// The connection or the reading of the body failed.
    Failed(String),
    /// A status and a body arrived; `parsed` is the body read as an envelope,
    /// or why it could not be.
    Received { status: u16, body: String, parsed: Result<Envelope<D>, String> },
}

/// Why a request gave no envelope.
#[derive(Debug)]
pub enum ClientError {
    /// No status was obtained, or the body could not be read.
    Transport(String),
    /// A failure status whose body is not an envelope.
    Http { status: u16, body: String },
    /// A success status whose body is not an envelope.
    Decode(String),
    /// An envelope without data.
    NoData,
}

pub open spec fn spec_is_success(status: u16) -> bool {
    200 <= status < 300
}

/// True for the statuses of the 2xx class.
pub fn is_success(status: u16) -> (r: bool)
    ensures
        r == spec_is_success(status),
{
    200 <= status && status < 300
}

/// Decides what a request produced. An envelope is returned whatever the
/// status, so errors that the service reports reach the caller in one form;
/// under a failure status a body that is no envelope is returned as it came.
pub fn reconcile<D>(reply: Reply<D>) -> (r: Result<Envelope<D>, ClientError>)
    ensures
        match reply {
            Reply::Failed(m) => r == Err::<Envelope<D>, ClientError>(ClientError::Transport(m)),
            Reply::Received { status, body, parsed } => match parsed {
                Ok(env) => r == Ok::<Envelope<D>, ClientError>(env),
                Err(m) => if spec_is_success(status) {
                    r == Err::<Envelope<D>, ClientError>(ClientError::Decode(m))
                } else {
                    r == Err::<Envelope<D>, ClientError>(ClientError::Http { status, body })
                },
            },
        },
{
    match reply {
        Reply::Failed(m) => Err(ClientError::Transport(m)),
        Reply::Received { status, body, parsed } => match parsed {
            Ok(env) => Ok(env),
            Err(m) => if is_success(status) {
                Err(ClientError::Decode(m))
            } else {
                Err(ClientError::Http { status, body })
            },
        },
    }
}

/// The data of an envelope; one without data is an error, whatever errors
/// it reports.
pub fn take_data<D>(env: Envelope<D>) -> (r: Result<D, ClientError>)
    ensures
        match env.data {
            Some(d) => r == Ok::<D, ClientError>(d),
            None => r == Err::<D, ClientError>(ClientError::NoData),
        },
{
    match env.data {
        Some(d) => Ok(d),
        None => Err(ClientError::NoData),
    }
}

} // verus!
