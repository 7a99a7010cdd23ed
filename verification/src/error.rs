//! What can go wrong, at startup and in the loop.

use vstd::prelude::*;
use vstd::string::*;

verus! {

/// Which of the provider's listings a lookup read.
#[derive(Clone, Copy, Debug, PartialEq, Eq, Structural)]
pub enum Lookup {
    /// The zones of the account, filtered by domain name.
    Zone,
    /// The "A" records of a zone, filtered by record name.
    Record,
}

/// The failures of the agent. The first two end a startup; in the running
/// loop every failure is reported and the loop goes on.
#[derive(Debug, PartialEq, Eq)]
pub enum SyncError {
    /// A required setting is missing from the environment.
    ConfigError { variable: String },
    /// The provider answered, and lists no zone or record under the name.
    NotFound { what: Lookup, name: String },
    /// The network or the connection failed.
    TransportError { detail: String },
    /// A body did not have the expected JSON shape.
    ProtocolError { detail: String },
    /// The provider answered an update with a well-formed refusal.
    ProviderRejected,
}

/// A `SyncError` with its texts as sequences of characters.
pub enum SyncErrorView {
    ConfigError { variable: Seq<char> },
    NotFound { what: Lookup, name: Seq<char> },
    TransportError { detail: Seq<char> },
    ProtocolError { detail: Seq<char> },
    ProviderRejected,
}

impl View for SyncError {
    type V = SyncErrorView;

    open spec fn view(&self) -> SyncErrorView {
        match self {
            SyncError::ConfigError { variable } => SyncErrorView::ConfigError { variable: variable@ },
            SyncError::NotFound { what, name } => SyncErrorView::NotFound { what: *what, name: name@ },
            SyncError::TransportError { detail } => SyncErrorView::TransportError { detail: detail@ },
            SyncError::ProtocolError { detail } => SyncErrorView::ProtocolError { detail: detail@ },
            SyncError::ProviderRejected => SyncErrorView::ProviderRejected,
        }
    }
}

/// The line that reports an error.
pub open spec fn message_of(error: SyncErrorView) -> Seq<char> {
    match error {
        SyncErrorView::ConfigError { variable } => variable + " is required"@,
        SyncErrorView::NotFound { what, name } => match what {
            Lookup::Zone => "Zone not found for domain: "@ + name,
            Lookup::Record => "DNS record not found for: "@ + name,
        },
        SyncErrorView::TransportError { detail } => "Network failure: "@ + detail,
        SyncErrorView::ProtocolError { detail } => "Unexpected response: "@ + detail,
        SyncErrorView::ProviderRejected => "Failed to update DNS"@,
    }
}

impl SyncError {
    /// The error in words, for the log.
    pub fn message(&self) -> (line: String)
        ensures
            line@ == message_of(self@),
    {
        match self {
            SyncError::ConfigError { variable } => {
                let mut line = variable.clone();
                line.append(" is required");
                line
            },
            SyncError::NotFound { what, name } => {
                let mut line = match what {
                    Lookup::Zone => String::from_str("Zone not found for domain: "),
                    Lookup::Record => String::from_str("DNS record not found for: "),
                };
                line.append(name.as_str());
                line
            },
            SyncError::TransportError { detail } => {
                let mut line = String::from_str("Network failure: ");
                line.append(detail.as_str());
                line
            },
            SyncError::ProtocolError { detail } => {
                let mut line = String::from_str("Unexpected response: ");
                line.append(detail.as_str());
                line
            },
            SyncError::ProviderRejected => String::from_str("Failed to update DNS"),
        }
    }
}

} // verus!
