use vstd::prelude::*;

verus! {

/// The failures an operation of this library can report, by class.
#[derive(Debug, Clone, PartialEq, Eq)]
pub enum GinsengError {
    /// The user's selection is unusable: empty, missing paths, wrong path types.
    InputValidation(String),
    /// A manifest, bundle or hash text could not be encoded or decoded.
    Serialization(String),
    /// The content store could not add or export a payload.
    Storage(String),
    /// A peer could not be reached or a download failed.
    Network(String),
    /// A local directory or file could not be read or written.
    Filesystem(String),
    /// A ticket string is malformed.
    TicketFormat(String),
}

impl GinsengError {
    /// The human-readable message carried by the error.
    pub open spec fn message_view(&self) -> Seq<char> {
        match self {
            GinsengError::InputValidation(m) => m@,
            GinsengError::Serialization(m) => m@,
            GinsengError::Storage(m) => m@,
            GinsengError::Network(m) => m@,
            GinsengError::Filesystem(m) => m@,
            GinsengError::TicketFormat(m) => m@,
        }
    }

    /// The error is an input-validation failure carrying exactly `msg`.
    pub open spec fn is_input_validation(&self, msg: Seq<char>) -> bool {
        self matches GinsengError::InputValidation(m) && m@ == msg
    }

    /// The error is a file-system failure carrying exactly `msg`.
    pub open spec fn is_filesystem(&self, msg: Seq<char>) -> bool {
        self matches GinsengError::Filesystem(m) && m@ == msg
    }

    /// The error is a storage failure carrying exactly `msg`.
    pub open spec fn is_storage(&self, msg: Seq<char>) -> bool {
        self matches GinsengError::Storage(m) && m@ == msg
    }

    /// The error is a network failure carrying exactly `msg`.
    pub open spec fn is_network(&self, msg: Seq<char>) -> bool {
        self matches GinsengError::Network(m) && m@ == msg
    }

    /// The error is a serialization failure carrying exactly `msg`.
    pub open spec fn is_serialization(&self, msg: Seq<char>) -> bool {
        self matches GinsengError::Serialization(m) && m@ == msg
    }

    /// The error is a ticket-format failure carrying exactly `msg`.
    pub open spec fn is_ticket_format(&self, msg: Seq<char>) -> bool {
        self matches GinsengError::TicketFormat(m) && m@ == msg
    }

    /// The message string carried by the error.
    pub open spec fn message_string(&self) -> String {
        match self {
            GinsengError::InputValidation(m) => *m,
            GinsengError::Serialization(m) => *m,
            GinsengError::Storage(m) => *m,
            GinsengError::Network(m) => *m,
            GinsengError::Filesystem(m) => *m,
            GinsengError::TicketFormat(m) => *m,
        }
    }

    /// Returns the message carried by the error.
    pub fn message(&self) -> (r: String)
        ensures
            r == self.message_string(),
            r@ == self.message_view(),
    {
        match self {
            GinsengError::InputValidation(m) => m.clone(),
            GinsengError::Serialization(m) => m.clone(),
            GinsengError::Storage(m) => m.clone(),
            GinsengError::Network(m) => m.clone(),
            GinsengError::Filesystem(m) => m.clone(),
            GinsengError::TicketFormat(m) => m.clone(),
        }
    }
}

} // verus!
