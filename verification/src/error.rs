//! The library's error type.

use vstd::prelude::*;
use vstd::string::StringExecFns;

verus! {

/// `std::io::Error`, carried through opaquely.
#[verifier::external_type_specification]
#[verifier::external_body]
pub struct ExIoError(std::io::Error);

/// An error of an RDMA operation.
#[derive(Debug)]
pub enum RdmaError {
    /// An I/O error of the event notification machinery.
    Io(std::io::Error),
    /// A verbs or connection-manager call failed; the text says which.
    Rdma(String),
    /// No device matched the request.
    DeviceNotFound,
    /// An operation failed without more detail.
    OperationFailed,
}

pub type Result<T> = core::result::Result<T, RdmaError>;

/// Whether `e` is an `Rdma` error whose text is `msg`.
pub open spec fn is_rdma_error(e: RdmaError, msg: Seq<char>) -> bool {
    e matches RdmaError::Rdma(s) && s@ == msg
}

impl RdmaError {
    /// An `Rdma` error with the given text.
    pub fn rdma(msg: &str) -> (e: RdmaError)
        ensures
            is_rdma_error(e, msg@),
    {
        RdmaError::Rdma(String::from_str(msg))
    }

    /// The error's message, as its `Display` renders it.
    pub fn to_string(&self) -> (s: String)
        ensures
            self matches RdmaError::Rdma(m) ==> s@ == "RDMA Error: "@ + m@,
            self matches RdmaError::DeviceNotFound ==> s@ == "Device not found"@,
            self matches RdmaError::OperationFailed ==> s@ == "Operation failed"@,
            self matches RdmaError::Io(e) ==> exists|t: String|
                #[trigger] vstd::string::to_string_from_display_ensures::<std::io::Error>(e, t) && s@
                    == "IO Error: "@ + t@,
    {
        match self {
            RdmaError::Io(e) => {
                let t = e.to_string();
                let mut s = String::from_str("IO Error: ");
                s.append(t.as_str());
                s
            },
            RdmaError::Rdma(m) => {
                let mut s = String::from_str("RDMA Error: ");
                s.append(m.as_str());
                s
            },
            RdmaError::DeviceNotFound => String::from_str("Device not found"),
            RdmaError::OperationFailed => String::from_str("Operation failed"),
        }
    }
}

/// The calls whose failure is reported with a fixed text.
#[derive(Debug, Clone, Copy, PartialEq, Eq)]
pub enum Failure {
    GetDeviceList,
    OpenDeviceContext,
    QueryPort,
    QueryGid,
    AllocPd,
    CreateCompChannel,
    CreateCq,
    PollCq,
    ReqNotifyCq,
    GetCqEvent,
    CreateCmChannel,
    CreateCmId,
}

/// The text reported when the call `f` fails.
pub open spec fn failure_text(f: Failure) -> Seq<char> {
    match f {
        Failure::GetDeviceList => "Failed to get device list"@,
        Failure::OpenDeviceContext => "Failed to open device context"@,
        Failure::QueryPort => "Failed to query port"@,
        Failure::QueryGid => "Failed to query GID"@,
        Failure::AllocPd => "Failed to allocate PD"@,
        Failure::CreateCompChannel => "Failed to create completion channel"@,
        Failure::CreateCq => "Failed to create CQ"@,
        Failure::PollCq => "Poll CQ failed"@,
        Failure::ReqNotifyCq => "Req notify failed"@,
        Failure::GetCqEvent => "Get CQ event failed"@,
        Failure::CreateCmChannel => "Failed to create CM event channel"@,
        Failure::CreateCmId => "Failed to create CM ID"@,
    }
}

impl Failure {
    /// The error that reports a failure of the call `self`.
    pub fn error(self) -> (e: RdmaError)
        ensures
            is_rdma_error(e, failure_text(self)),
    {
        let text = match self {
            Failure::GetDeviceList => "Failed to get device list",
            Failure::OpenDeviceContext => "Failed to open device context",
            Failure::QueryPort => "Failed to query port",
            Failure::QueryGid => "Failed to query GID",
            Failure::AllocPd => "Failed to allocate PD",
            Failure::CreateCompChannel => "Failed to create completion channel",
            Failure::CreateCq => "Failed to create CQ",
            Failure::PollCq => "Poll CQ failed",
            Failure::ReqNotifyCq => "Req notify failed",
            Failure::GetCqEvent => "Get CQ event failed",
            Failure::CreateCmChannel => "Failed to create CM event channel",
            Failure::CreateCmId => "Failed to create CM ID",
        };
        RdmaError::rdma(text)
    }

    /// `Ok` when the call `self` succeeded, its error otherwise.
    pub fn check(self, succeeded: bool) -> (r: Result<()>)
        ensures
            succeeded ==> r is Ok,
            !succeeded ==> (r matches Err(e) && is_rdma_error(e, failure_text(self))),
    {
        if succeeded {
            Ok(())
        } else {
            Err(self.error())
        }
    }
}

impl From<std::io::Error> for RdmaError {
    fn from(e: std::io::Error) -> (r: RdmaError) {
        RdmaError::Io(e)
    }
}

impl vstd::std_specs::convert::FromSpecImpl<std::io::Error> for RdmaError {
    open spec fn obeys_from_spec() -> bool {
        true
    }

    open spec fn from_spec(v: std::io::Error) -> RdmaError {
        RdmaError::Io(v)
    }
}

} // verus!
