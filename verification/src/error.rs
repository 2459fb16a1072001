//! The errors of this library, and what a status of the platform means.

use vstd::prelude::*;

verus! {

/// The status with which the platform reports success.
pub const STATUS_SUCCESS: usize = 0;

/// Why no name server could be taken from the boot configuration.
#[derive(Debug, Clone, Copy, PartialEq, Eq, Structural)]
pub enum ConfigurationError {
    /// The platform has no PXE base code: looking for it ended with this
    /// status.
    NoBaseCode(usize),
    /// The network bootstrap has left no mode record.
    NoMode,
    /// No acknowledgement of a DHCP exchange has been recorded.
    NoDhcpAck,
    /// The recorded acknowledgement is not a DHCPv4 packet.
    NotDhcpv4,
    /// The acknowledgement carries no name-server option.
    NoServerOption,
    /// The name-server option is there, but its value is cut off.
    NoServerValue,
    /// The name-server option holds no complete address.
    NoServers,
}

/// Why an exchange with a name server came to nothing.
#[derive(Debug, Clone, Copy, PartialEq, Eq, Structural)]
pub enum ProtocolError {
    /// A label of the host name is too long to be put into a question.
    LabelTooLong,
    /// The question for this host name exceeds the size of a DNS message.
    QueryTooLong,
    /// The reply could not be parsed.
    Malformed,
    /// The server answered with this response code instead of success.
    Refused(u8),
    /// The reply is a success but carries no answer record at all.
    NoAnswers,
}

/// The three families every error belongs to.
#[derive(Debug, Clone, Copy, PartialEq, Eq, Structural)]
pub enum EfiErrorKind {
    /// No name server can be discovered.
    Configuration,
    /// The platform answered a request with a status that is not success.
    Transport,
    /// An exchange with a name server came to nothing.
    Protocol,
}

/// What can go wrong, with the detail of each family.
#[derive(Debug, Clone, Copy, PartialEq, Eq, Structural)]
pub enum EfiError {
    /// No name servers can be discovered.
    Configuration(ConfigurationError),
    /// The platform answered a request with this status, which is not success.
    Transport(usize),
    /// A name server's reply cannot be used.
    Protocol(ProtocolError),
}

impl EfiError {
    /// The family of this error.
    pub open spec fn spec_kind(self) -> EfiErrorKind {
        match self {
            EfiError::Configuration(_) => EfiErrorKind::Configuration,
            EfiError::Transport(_) => EfiErrorKind::Transport,
            EfiError::Protocol(_) => EfiErrorKind::Protocol,
        }
    }

    /// The family of this error.
    #[verifier::when_used_as_spec(spec_kind)]
    pub fn kind(self) -> (k: EfiErrorKind)
        ensures
            k == self.spec_kind(),
    {
        match self {
            EfiError::Configuration(_) => EfiErrorKind::Configuration,
            EfiError::Transport(_) => EfiErrorKind::Transport,
            EfiError::Protocol(_) => EfiErrorKind::Protocol,
        }
    }
}

/// What a platform status means for a value that depends on it.
pub open spec fn status_result<T>(value: T, status: usize) -> Result<T, EfiError> {
    if status == STATUS_SUCCESS {
        Ok(value)
    } else {
        Err(EfiError::Transport(status))
    }
}

/// Hands `value` on if `status` is success, and otherwise turns the status
/// into a transport error.
pub fn to_res<T>(value: T, status: usize) -> (r: Result<T, EfiError>)
    ensures
        r == status_result(value, status),
{
    if status == STATUS_SUCCESS {
        Ok(value)
    } else {
        Err(EfiError::Transport(status))
    }
}

} // verus!
