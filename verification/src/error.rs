use vstd::prelude::*;
use crate::config::Dialect;

verus! {

/// The typed errors that the engine reports to its callers.
///
/// Outside failures (a pool that would not connect, a failed transaction
/// statement) enter through the `Connect` and `Tx` payloads as plain text.
#[derive(Debug)]
pub enum Error {
    /// A connection was given an empty display name.
    EmptyName,
    /// A connection was given an empty color tag.
    EmptyColor,
    /// File transport asked of a server dialect.
    FileModeUnsupported(Dialect),
    /// A SQLite connection with any transport but a file path.
    FileModeRequired,
    /// A client certificate without its key, or the key without the
    /// certificate.
    CertPairMismatch,
    /// A port credential that is not a decimal 16-bit number.
    InvalidPort,
    /// The submitted SQL text parsed to no statements at all.
    NoStatements,
    /// Connectivity failure, with the transport's own message.
    Connect(String),
    /// A statement inside a transaction failed; the transaction was rolled
    /// back and this carries the failure's message.
    Tx(String),
    /// The spooled result file is gone; the query must be re-run.
    QueryExpired,
    /// A stored credential blob that the key cannot decrypt.
    Decrypt,
    /// A local read or write failed, with the underlying message.
    Io(String),
}

pub open spec fn spec_message(e: &Error) -> Seq<char> {
    match e {
        Error::EmptyName => "Connection name cannot be empty"@,
        Error::EmptyColor => "Color cannot be empty"@,
        Error::FileModeUnsupported(d) => "File mode is not supported for "@ + d.spec_name(),
        Error::FileModeRequired => "Only file mode is supported for Sqlite"@,
        Error::CertPairMismatch => "client_cert and client_key must be set together"@,
        Error::InvalidPort => "Port should be a valid number"@,
        Error::NoStatements => "No valid statements found"@,
        Error::Connect(m) => "Could not connect: "@ + m@,
        Error::Tx(m) => "Query failed: "@ + m@,
        Error::QueryExpired => "Query results expired, please re-run the query."@,
        Error::Decrypt => "Failed to decrypt credentials"@,
        Error::Io(m) => "Failed to read file: "@ + m@,
    }
}

impl Error {
    /// The user-displayable text of this error.
    pub fn message(&self) -> (r: String)
        ensures
            r@ == spec_message(self),
    {
        match self {
            Error::EmptyName => String::from_str("Connection name cannot be empty"),
            Error::EmptyColor => String::from_str("Color cannot be empty"),
            Error::FileModeUnsupported(d) => {
                let mut s = String::from_str("File mode is not supported for ");
                s.append(d.as_str());
                s
            },
            Error::FileModeRequired => String::from_str("Only file mode is supported for Sqlite"),
            Error::CertPairMismatch => String::from_str(
                "client_cert and client_key must be set together",
            ),
            Error::InvalidPort => String::from_str("Port should be a valid number"),
            Error::NoStatements => String::from_str("No valid statements found"),
            Error::Connect(m) => {
                let mut s = String::from_str("Could not connect: ");
                s.append(m.as_str());
                s
            },
            Error::Tx(m) => {
                let mut s = String::from_str("Query failed: ");
                s.append(m.as_str());
                s
            },
            Error::QueryExpired => String::from_str(
                "Query results expired, please re-run the query.",
            ),
            Error::Decrypt => String::from_str("Failed to decrypt credentials"),
            Error::Io(m) => {
                let mut s = String::from_str("Failed to read file: ");
                s.append(m.as_str());
                s
            },
        }
    }
}

} // verus!
