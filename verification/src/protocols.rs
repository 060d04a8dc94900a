//! Errors that a protocol server reports when it tests a target.

use vstd::prelude::*;

verus! {

/// Declares `std::io::Error` to Verus; values of it are carried through opaquely.
#[verifier::external_type_specification]
#[verifier::external_body]
pub struct ExIoError(std::io::Error);

/// Why testing a target failed.
pub enum TargetTestError {
    Unreachable,
    AuthenticationError,
    ConnectionError(String),
    Misconfigured(String),
    Io(std::io::Error),
}

/// Declares `dialoguer::Error`, carried through opaquely.
#[verifier::external_type_specification]
#[verifier::external_body]
pub struct ExDialoguerError(dialoguer::Error);

/// The I/O error that a `dialoguer::Error` wraps (its one variant, `IO`).
/// The error is opaque here, so nothing is stated of it.
#[verifier::external_body]
fn dialoguer_io_error(err: dialoguer::Error) -> std::io::Error {
    match err {
        dialoguer::Error::IO(e) => e,
    }
}

/// The text that `std::io::Error` displays.
#[verifier::external_body]
fn io_error_text(err: &std::io::Error) -> String {
    format!("{}", err)
}

impl From<std::io::Error> for TargetTestError {
    fn from(err: std::io::Error) -> (r: Self) {
        TargetTestError::Io(err)
    }
}

impl vstd::std_specs::convert::FromSpecImpl<std::io::Error> for TargetTestError {
    open spec fn obeys_from_spec() -> bool {
        true
    }

    open spec fn from_spec(err: std::io::Error) -> Self {
        TargetTestError::Io(err)
    }
}

impl TargetTestError {
    /// The connection error that reports a failed terminal prompt whose
    /// error displays as `text`.
    pub fn from_dialoguer_text(text: &str) -> (r: Self)
        ensures
            r matches TargetTestError::ConnectionError(s) && s@ == "Dialoguer error: "@ + text@,
    {
        TargetTestError::ConnectionError(String::from_str("Dialoguer error: ").concat(text))
    }

    /// The connection error that reports a failed terminal prompt: the
    /// prompt's error displays as `IO error: ` and the I/O error's text.
    pub fn from_dialoguer(err: dialoguer::Error) -> (r: Self)
        ensures
            r matches TargetTestError::ConnectionError(s) && exists|t: Seq<char>|
                s@ == "Dialoguer error: IO error: "@ + t,
    {
        let io = dialoguer_io_error(err);
        let t = io_error_text(&io);
        let text = String::from_str("IO error: ").concat(t.as_str());
        let r = Self::from_dialoguer_text(text.as_str());
        assert("Dialoguer error: "@ + ("IO error: "@ + t@) =~= "Dialoguer error: IO error: "@ + t@) by {
            reveal_strlit("Dialoguer error: ");
            reveal_strlit("IO error: ");
            reveal_strlit("Dialoguer error: IO error: ");
        }
        r
    }

    /// The human-readable message of the error.
    pub fn message(&self) -> (r: String)
        ensures
            self is Unreachable ==> r@ == "unreachable"@,
            self is AuthenticationError ==> r@ == "authentication failed"@,
            self matches TargetTestError::ConnectionError(s) ==> r@ == "connection error: "@ + s@,
            self matches TargetTestError::Misconfigured(s) ==> r@ == "misconfigured: "@ + s@,
            self is Io ==> exists|t: Seq<char>| r@ == "I/O: "@ + t,
    {
        match self {
            TargetTestError::Unreachable => String::from_str("unreachable"),
            TargetTestError::AuthenticationError => String::from_str("authentication failed"),
            TargetTestError::ConnectionError(s) => String::from_str("connection error: ").concat(s.as_str()),
            TargetTestError::Misconfigured(s) => String::from_str("misconfigured: ").concat(s.as_str()),
            TargetTestError::Io(e) => {
                let t = io_error_text(e);
                let r = String::from_str("I/O: ").concat(t.as_str());
                assert(r@ == "I/O: "@ + t@);
                r
            }
        }
    }
}

} // verus!
