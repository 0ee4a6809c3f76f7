//! The engine's error type and helpers for attaching context to failures.

use std::backtrace::Backtrace;
use vstd::prelude::*;

verus! {

/// `std::backtrace::Backtrace`, carried through opaquely.
#[verifier::external_type_specification]
#[verifier::external_body]
pub struct ExBacktrace(Backtrace);

/// `erased_serde::Error`, carried through opaquely.
#[verifier::external_type_specification]
#[verifier::external_body]
pub struct ExErasedSerdeError(erased_serde::Error);

/// Calls `Backtrace::capture`. Whether and what is captured depends on how
/// the process was started, so nothing is claimed of the result.
#[verifier::external_body]
fn capture_backtrace() -> Backtrace {
    Backtrace::capture()
}

/// What an error says: its message and, if it wraps another failure, the
/// text of that failure.
pub ghost struct ErrorView {
    pub msg: Seq<char>,
    pub source: Option<Seq<char>>,
}

#[derive(Debug)]
pub struct RayexecError {
    msg: String,
    source: Option<String>,
    backtrace: Backtrace,
}

impl View for RayexecError {
    type V = ErrorView;

    closed spec fn view(&self) -> ErrorView {
        ErrorView {
            msg: self.msg@,
            source: match self.source {
                Some(s) => Some(s@),
                None => None,
            },
        }
    }
}

/// The rendered text of an error: the message, followed by the source on a
/// line of its own when there is one.
pub open spec fn error_text(e: ErrorView) -> Seq<char> {
    match e.source {
        Some(s) => e.msg + "\nError source: "@ + s,
        None => e.msg,
    }
}

/// Whether a result is an error with the given message and no source.
pub open spec fn fails_with<T>(r: Result<T, RayexecError>, msg: Seq<char>) -> bool {
    r matches Err(e) && e@.msg == msg && e@.source is None
}

impl RayexecError {
    pub fn new(msg: &str) -> (e: Self)
        ensures
            e@.msg == msg@,
            e@.source is None,
    {
        RayexecError { msg: msg.to_owned(), source: None, backtrace: capture_backtrace() }
    }

    pub fn with_source(msg: &str, source: &str) -> (e: Self)
        ensures
            e@.msg == msg@,
            e@.source == Some(source@),
    {
        RayexecError {
            msg: msg.to_owned(),
            source: Some(source.to_owned()),
            backtrace: capture_backtrace(),
        }
    }

    /// An error for a feature that is not available, with the message
    /// `Not yet implemented: ` followed by `what`.
    pub fn not_implemented(what: &str) -> (e: Self)
        ensures
            e@.msg == "Not yet implemented: "@ + what@,
            e@.source is None,
    {
        let msg = String::from_str("Not yet implemented: ").concat(what);
        RayexecError::new(msg.as_str())
    }

    /// The backtrace that was captured when the error was made.
    pub closed spec fn backtrace(&self) -> Backtrace {
        self.backtrace
    }

    pub fn get_backtrace(&self) -> (bt: &Backtrace)
        ensures
            *bt == self.backtrace(),
    {
        &self.backtrace
    }

    pub fn message(&self) -> (m: &str)
        ensures
            m@ == self@.msg,
    {
        self.msg.as_str()
    }

    pub fn source(&self) -> (s: Option<&str>)
        ensures
            s is Some == self@.source is Some,
            s matches Some(t) ==> Some(t@) == self@.source,
    {
        match &self.source {
            Some(s) => Some(s.as_str()),
            None => None,
        }
    }

    /// Renders the message and the source, as `error_text` states.
    pub fn to_string(&self) -> (s: String)
        ensures
            s@ == error_text(self@),
    {
        let mut out = self.msg.clone();
        if let Some(source) = &self.source {
            out.append("\nError source: ");
            out.append(source.as_str());
        }
        out
    }
}

impl vstd::std_specs::convert::FromSpecImpl<erased_serde::Error> for RayexecError {
    open spec fn obeys_from_spec() -> bool {
        false
    }

    open spec fn from_spec(v: erased_serde::Error) -> Self {
        arbitrary()
    }
}

impl From<erased_serde::Error> for RayexecError {
    /// Wraps a serialization failure; its rendered text becomes the source.
    fn from(value: erased_serde::Error) -> (e: Self)
        ensures
            e@.msg == "Serialization error"@,
            e@.source is Some,
    {
        let text = value.to_string();
        RayexecError::with_source("Serialization error", text.as_str())
    }
}

/// Adds context to the error of a result.
pub trait ResultExt<T, E> {
    /// Wraps an error with a fixed context string.
    fn context(self, msg: &'static str) -> Result<T, RayexecError>;

    /// Wraps an error with a context string produced on demand.
    fn context_fn<F: Fn() -> String>(self, f: F) -> Result<T, RayexecError>
        requires
            call_requires(f, ()),
    ;
}

impl<T> ResultExt<T, RayexecError> for Result<T, RayexecError> {
    fn context(self, msg: &'static str) -> (r: Result<T, RayexecError>)
        ensures
            match self {
                Ok(v) => r == Ok::<T, RayexecError>(v),
                Err(e) => r matches Err(w) && w@.msg == msg@ && w@.source == Some(
                    error_text(e@),
                ),
            },
    {
        match self {
            Ok(v) => Ok(v),
            Err(e) => Err(RayexecError::with_source(msg, e.to_string().as_str())),
        }
    }

    fn context_fn<F: Fn() -> String>(self, f: F) -> (r: Result<T, RayexecError>)
        ensures
            match self {
                Ok(v) => r == Ok::<T, RayexecError>(v),
                Err(e) => r matches Err(w) && w@.source == Some(error_text(e@)) && exists|
                    m: String,
                |
                    call_ensures(f, (), m) && w@.msg == m@,
            },
    {
        match self {
            Ok(v) => Ok(v),
            Err(e) => {
                let msg = f();
                Err(RayexecError::with_source(msg.as_str(), e.to_string().as_str()))
            },
        }
    }
}

pub trait OptionExt<T> {
    /// Turns `None` into an error with the given message.
    fn required(self, msg: &'static str) -> Result<T, RayexecError>;
}

impl<T> OptionExt<T> for Option<T> {
    fn required(self, msg: &'static str) -> (r: Result<T, RayexecError>)
        ensures
            match self {
                Some(v) => r == Ok::<T, RayexecError>(v),
                None => r matches Err(e) && e@.msg == msg@ && e@.source is None,
            },
    {
        match self {
            Some(v) => Ok(v),
            None => Err(RayexecError::new(msg)),
        }
    }
}

} // verus!
