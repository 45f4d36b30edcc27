use vstd::prelude::*;

use crate::errors::FacadeError;

verus! {

/// The endpoint of the backend that each request connects to.
pub struct VirtConnection {
    pub uri: String,
}

/// The address that a request connects to: the one supplied, or the empty
/// address (the backend's default) where none was.
pub open spec fn endpoint_of(arg: Option<String>) -> Seq<char> {
    match arg {
        Some(u) => u@,
        None => Seq::empty(),
    }
}

/// A hypervisor version, as the backend encodes it in one number:
/// `major * 1_000_000 + minor * 1_000 + release`.
pub struct HypervisorVersion {
    pub major: u32,
    pub minor: u32,
    pub release: u32,
}

/// The parts of an encoded hypervisor version.
pub fn split_version(v: u32) -> (r: HypervisorVersion)
    ensures
        r.major == v / 1000000,
        r.minor == (v % 1000000) / 1000,
        r.release == v % 1000,
        r.minor < 1000,
        r.release < 1000,
        r.major * 1000000 + r.minor * 1000 + r.release == v,
{
    let major = v / 1000000;
    let rest = v % 1000000;
    let minor = rest / 1000;
    let release = rest % 1000;
    assert(rest % 1000 == v % 1000) by (nonlinear_arith)
        requires
            rest == v % 1000000,
    {
        assert(v == (v / 1000000) * 1000000 + rest);
        assert(1000000 == 1000 * 1000);
    }
    assert(major * 1000000 + minor * 1000 + release == v) by (nonlinear_arith)
        requires
            major == v / 1000000,
            rest == v % 1000000,
            minor == rest / 1000,
            release == rest % 1000,
    {
    }
    HypervisorVersion { major, minor, release }
}

impl VirtConnection {
    /// The endpoint from the process's argument, if one was given.
    pub fn new(arg: Option<String>) -> (r: VirtConnection)
        ensures
            r.uri@ == endpoint_of(arg),
    {
        match arg {
            Some(u) => VirtConnection { uri: u },
            None => VirtConnection { uri: String::new() },
        }
    }

    /// The address to open.
    pub fn uri(&self) -> (r: &str)
        ensures
            r@ == self.uri@,
    {
        self.uri.as_str()
    }

    /// Ends a request: its result stands whatever the release of the
    /// connection gave; a failed release is handed back to be reported.
    pub fn conclude<T>(result: Result<T, FacadeError>, released: Result<(), FacadeError>) -> (r: (
        Result<T, FacadeError>,
        Option<FacadeError>,
    ))
        ensures
            r.0 == result,
            r.1 == match released {
                Ok(()) => None::<FacadeError>,
                Err(_) => Some(FacadeError::DisconnectFailure),
            },
    {
        let warning = match released {
            Ok(()) => None,
            Err(_) => Some(FacadeError::DisconnectFailure),
        };
        (result, warning)
    }
}

} // verus!
