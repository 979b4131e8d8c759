//! What can go wrong, as callers see it.

use vstd::prelude::*;

verus! {

/// Failure of a creator-authority operation.
#[derive(Debug, Clone, PartialEq, Eq)]
pub enum ApplicationError {
    /// A stored auth kind is not one of the known ones.
    InvalidCreatorAuthorityAuthKind {
        /// The text that was found.
        auth_kind: String,
    },
    /// Storage failed or refused a record.
    Storage {
        /// What happened.
        message: String,
    },
    /// A record with this key is stored already.
    DuplicateRecord {
        /// Kind of the record.
        record: &'static str,
    },
    /// There is no such pending connect flow.
    CreatorConnectFlowUnavailable,
    /// The pending connect flow has expired.
    CreatorConnectFlowExpired,
    /// There is no such frontend session.
    FrontendSessionUnavailable,
    /// The frontend session has expired.
    FrontendSessionExpired,
    /// No creator authority is stored, or none that can be used here.
    CreatorAuthorityUnavailable,
    /// The homeserver refused the stored authority.
    CreatorAuthorityRefused,
    /// The homeserver could not be asked.
    CreatorAuthorityCheckUnavailable,
    /// Creator authority secret material could not be used.
    CreatorAuthoritySecret {
        /// What happened, without the secret.
        message: String,
    },
}

/// An [`ApplicationError`] as a mathematical value.
pub enum ErrorView {
    InvalidCreatorAuthorityAuthKind { auth_kind: Seq<char> },
    Storage { message: Seq<char> },
    DuplicateRecord { record: Seq<char> },
    CreatorConnectFlowUnavailable,
    CreatorConnectFlowExpired,
    FrontendSessionUnavailable,
    FrontendSessionExpired,
    CreatorAuthorityUnavailable,
    CreatorAuthorityRefused,
    CreatorAuthorityCheckUnavailable,
    CreatorAuthoritySecret { message: Seq<char> },
}

impl View for ApplicationError {
    type V = ErrorView;

    open spec fn view(&self) -> ErrorView {
        match self {
            ApplicationError::InvalidCreatorAuthorityAuthKind { auth_kind } =>
                ErrorView::InvalidCreatorAuthorityAuthKind { auth_kind: auth_kind@ },
            ApplicationError::Storage { message } => ErrorView::Storage { message: message@ },
            ApplicationError::DuplicateRecord { record } =>
                ErrorView::DuplicateRecord { record: record@ },
            ApplicationError::CreatorConnectFlowUnavailable =>
                ErrorView::CreatorConnectFlowUnavailable,
            ApplicationError::CreatorConnectFlowExpired => ErrorView::CreatorConnectFlowExpired,
            ApplicationError::FrontendSessionUnavailable => ErrorView::FrontendSessionUnavailable,
            ApplicationError::FrontendSessionExpired => ErrorView::FrontendSessionExpired,
            ApplicationError::CreatorAuthorityUnavailable =>
                ErrorView::CreatorAuthorityUnavailable,
            ApplicationError::CreatorAuthorityRefused => ErrorView::CreatorAuthorityRefused,
            ApplicationError::CreatorAuthorityCheckUnavailable =>
                ErrorView::CreatorAuthorityCheckUnavailable,
            ApplicationError::CreatorAuthoritySecret { message } =>
                ErrorView::CreatorAuthoritySecret { message: message@ },
        }
    }
}

/// The secret-material error with the given message.
pub open spec fn secret_error(message: Seq<char>) -> ErrorView {
    ErrorView::CreatorAuthoritySecret { message }
}

} // verus!
