//! Failures that the actor reports, and the wording in which it reports them.

use vstd::prelude::*;
use vstd::string::*;

verus! {

/// A failed call to the node, as the driver hands it back: the numeric code
/// of the JSON-RPC error object where the node answered with one, and the
/// text that describes the failure.
#[derive(Debug, PartialEq, Eq)]
pub struct RpcFailure {
    pub code: Option<i32>,
    pub message: String,
}

/// Mathematical model of an [`RpcFailure`].
pub struct RpcFailureView {
    pub code: Option<i32>,
    pub message: Seq<char>,
}

impl View for RpcFailure {
    type V = RpcFailureView;

    open spec fn view(&self) -> RpcFailureView {
        RpcFailureView { code: self.code, message: self.message@ }
    }
}

impl Clone for RpcFailure {
    fn clone(&self) -> (copy: Self)
        ensures
            copy == *self,
    {
        RpcFailure { code: self.code, message: self.message.clone() }
    }
}

/// Everything that can go wrong in the actor.
#[derive(Debug, PartialEq, Eq)]
pub enum Error {
    /// A connection was asked for before credentials were set.
    CredentialMissing,
    /// The operation needs an established connection.
    NotConnected,
    /// The descriptor text is malformed.
    ParseDescriptor,
    /// The descriptor has no address at the requested index.
    DeriveDescriptor,
    /// A batch of payments was asked for with an amount range that holds no
    /// amount.
    EmptyAmountRange,
    /// The node refused or failed a call.
    Rpc(RpcFailure),
}

/// Mathematical model of an [`Error`].
pub enum ErrorView {
    CredentialMissing,
    NotConnected,
    ParseDescriptor,
    DeriveDescriptor,
    EmptyAmountRange,
    Rpc(RpcFailureView),
}

impl View for Error {
    type V = ErrorView;

    open spec fn view(&self) -> ErrorView {
        match *self {
            Error::CredentialMissing => ErrorView::CredentialMissing,
            Error::NotConnected => ErrorView::NotConnected,
            Error::ParseDescriptor => ErrorView::ParseDescriptor,
            Error::DeriveDescriptor => ErrorView::DeriveDescriptor,
            Error::EmptyAmountRange => ErrorView::EmptyAmountRange,
            Error::Rpc(failure) => ErrorView::Rpc(failure@),
        }
    }
}

impl Clone for Error {
    fn clone(&self) -> (copy: Self)
        ensures
            copy == *self,
    {
        match self {
            Error::CredentialMissing => Error::CredentialMissing,
            Error::NotConnected => Error::NotConnected,
            Error::ParseDescriptor => Error::ParseDescriptor,
            Error::DeriveDescriptor => Error::DeriveDescriptor,
            Error::EmptyAmountRange => Error::EmptyAmountRange,
            Error::Rpc(failure) => Error::Rpc(failure.clone()),
        }
    }
}

impl ErrorView {
    /// The text under which an error is shown to the operator: the name of
    /// the failure, or, for a failed call to the node, the text that came
    /// with it.
    pub open spec fn text(self) -> Seq<char> {
        match self {
            ErrorView::CredentialMissing => "CredentialMissing"@,
            ErrorView::NotConnected => "NotConnected"@,
            ErrorView::ParseDescriptor => "ParseDescriptor"@,
            ErrorView::DeriveDescriptor => "DeriveDescriptor"@,
            ErrorView::EmptyAmountRange => "EmptyAmountRange"@,
            ErrorView::Rpc(failure) => failure.message,
        }
    }
}

impl Error {
    /// The numeric code of the node's answer, where the error carries one.
    pub fn code(&self) -> (code: Option<i32>)
        ensures
            code == match self@ {
                ErrorView::Rpc(failure) => failure.code,
                _ => None,
            },
    {
        match self {
            Error::Rpc(failure) => failure.code,
            _ => None,
        }
    }

    /// The operator-facing text of this error.
    pub fn message(&self) -> (text: String)
        ensures
            text@ == self@.text(),
    {
        match self {
            Error::CredentialMissing => String::from_str("CredentialMissing"),
            Error::NotConnected => String::from_str("NotConnected"),
            Error::ParseDescriptor => String::from_str("ParseDescriptor"),
            Error::DeriveDescriptor => String::from_str("DeriveDescriptor"),
            Error::EmptyAmountRange => String::from_str("EmptyAmountRange"),
            Error::Rpc(failure) => failure.message.clone(),
        }
    }
}

} // verus!
