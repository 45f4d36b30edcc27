use vstd::prelude::*;

verus! {

/// What went wrong while one request was served.
#[derive(Clone, Copy, Debug, PartialEq, Eq, Structural)]
pub enum FacadeError {
    /// The backend endpoint was unreachable or refused the connection.
    ConnectFailure,
    /// A named entity (VM, volume, pool, interface) does not exist.
    LookupFailure,
    /// A state-changing backend call reported an error.
    TransitionFailure,
    /// Projection into JSON failed.
    SerializationFailure,
    /// Releasing the backend connection failed.
    DisconnectFailure,
}

/// The HTTP status that reports an error to the caller.
pub open spec fn error_status(e: FacadeError) -> u16 {
    match e {
        FacadeError::ConnectFailure => 502,
        FacadeError::LookupFailure => 404,
        FacadeError::TransitionFailure => 500,
        FacadeError::SerializationFailure => 500,
        FacadeError::DisconnectFailure => 500,
    }
}

impl FacadeError {
    /// The HTTP status of this error.
    pub fn status_code(&self) -> (r: u16)
        ensures
            r == error_status(*self),
    {
        match self {
            FacadeError::ConnectFailure => 502,
            FacadeError::LookupFailure => 404,
            FacadeError::TransitionFailure => 500,
            FacadeError::SerializationFailure => 500,
            FacadeError::DisconnectFailure => 500,
        }
    }
}

/// The HTTP status of an action's reply: 200 on success, else the error's.
pub open spec fn reply_status(r: Result<(), FacadeError>) -> u16 {
    match r {
        Ok(()) => 200,
        Err(e) => error_status(e),
    }
}

/// The HTTP status of an action's reply.
pub fn status_of(r: &Result<(), FacadeError>) -> (s: u16)
    ensures
        s == reply_status(*r),
{
    match r {
        Ok(()) => 200,
        Err(e) => e.status_code(),
    }
}

} // verus!
