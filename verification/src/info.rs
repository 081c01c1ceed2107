//! The `ErrorInfo` record: the classification a conversion returns, and its
//! two presentation formats.

use vstd::prelude::*;

use crate::status::AppStatus;
use crate::text::bracket_format;
use crate::text::format_in_brackets;

verus! {

/// The classification of one error value: a typed app status, a stable
/// diagnostic code, a client-safe message and the full server-side
/// diagnostic. Built fresh on every conversion and owned by the caller.
pub struct ErrorInfo<T> {
    pub app_code: T,
    pub code: String,
    pub client_msg: String,
    pub server_msg: String,
}

/// The message the client-facing side shows: the declared client message when
/// it is non-empty, else the full server message. The fallback is an
/// intentional, documented design choice: it can expose internal diagnostic
/// text when no explicit client message was declared.
pub open spec fn spec_client_msg<T>(info: &ErrorInfo<T>) -> Seq<char> {
    if info.client_msg@.len() == 0 {
        info.server_msg@
    } else {
        info.client_msg@
    }
}

impl<T: AppStatus> ErrorInfo<T> {
    /// Assemble a record, resolving the app-status literal into its typed
    /// value. A literal that does not parse is a definition-time fault, so it
    /// is excluded here rather than handled.
    pub fn new(app_code: &str, code: String, client_msg: String, server_msg: String) -> (r: Self)
        requires
            T::parse_spec(app_code@) is Some,
        ensures
            Some(r.app_code) == T::parse_spec(app_code@),
            r.code == code,
            r.client_msg == client_msg,
            r.server_msg == server_msg,
    {
        let parsed = T::parse_status(app_code);
        match parsed {
            Some(value) => Self { app_code: value, code, client_msg, server_msg },
            None => unreached(),
        }
    }
}

impl<T> ErrorInfo<T> {
    /// The declared client message when non-empty, else the server message.
    pub fn client_msg(&self) -> (r: &str)
        ensures
            r@ == spec_client_msg(self),
    {
        if self.client_msg.as_str().is_empty() {
            self.server_msg.as_str()
        } else {
            self.client_msg.as_str()
        }
    }

    /// The client-facing format: exactly `"[{code}] {client_msg()}"`.
    pub fn client_text(&self) -> (r: String)
        ensures
            r@ == bracket_format(self.code@, spec_client_msg(self)),
    {
        format_in_brackets(self.code.as_str(), self.client_msg())
    }

    /// The server-facing format: exactly `"[{code}] {server_msg}"` — always
    /// the full diagnostic, regardless of the client message.
    pub fn server_text(&self) -> (r: String)
        ensures
            r@ == bracket_format(self.code@, self.server_msg@),
    {
        format_in_brackets(self.code.as_str(), self.server_msg.as_str())
    }
}

/// The one runtime capability an error type registered with metadata offers:
/// convert a value of the type into an `ErrorInfo` carrying the type's target
/// app-status type. Application error types implement it by dispatching on
/// the variant and handing the variant's registered metadata to the generic
/// converter.
pub trait ToErrorInfo {
    type T: AppStatus;

    fn to_error_info(&self) -> ErrorInfo<Self::T>;
}

} // verus!
