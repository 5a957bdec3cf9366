use vstd::prelude::*;

verus! {

/// Every way an entry point can refuse a call. A refused call leaves all
/// records exactly as they were.
#[derive(Clone, Copy, Debug, PartialEq, Eq, Structural)]
pub enum CustomError {
    /// The caller is not the owner of the context it presents.
    ContextOwnerMismatch,
    /// The caller is neither the identity the operation is reserved for nor
    /// the owner of the record.
    Unauthorized,
    /// The key derivation refused the requested output length.
    HkdfExpandFailed,
    /// A new chat was requested under an id other than the context's next id.
    SequenceMismatch,
    /// An existing chat was addressed under an id other than its own.
    SequenceIdMismatch,
    /// An existing chat was addressed through a context other than its own.
    ContextMismatch,
    /// The context's counter is exhausted.
    CounterOverflow,
    /// The request text is longer than a record may hold.
    TextTooLong,
    /// The response text is longer than a record may hold.
    ResponseTooLong,
    /// More callback accounts than a record may hold.
    TooManyCallbackAccounts,
    /// A callback account claims a signature.
    IllegalSignerMeta,
    /// The worker's own identity is among the accounts it supplied.
    WorkerIdentityLeaked,
    /// The callback target is not the program account supplied, or that
    /// account holds no code.
    TargetNotExecutable,
    /// The chat already holds its final response.
    AlreadyProcessed,
    /// A recorded callback account was not supplied with the call.
    MissingAuxiliaryResource,
    /// A callback account recorded as writable was supplied read-only.
    WritabilityMismatch,
    /// The record's authority lies with the other venue.
    RecordDelegatedElsewhere,
}

/// What a refusal is about, which decides how a caller treats it.
#[derive(Clone, Copy, Debug, PartialEq, Eq, Structural)]
pub enum ErrorKind {
    /// The arguments do not fit the records or their bounds. Nothing is
    /// gained by trying again.
    Validation,
    /// The caller may not do this. A caller's mistake or an attack; worth
    /// keeping for audit.
    Authorization,
    /// The call does not fit the state the records are in.
    Consistency,
    /// The record is with the other venue. The caller may try again later.
    Venue,
}

/// What each refusal is about.
pub open spec fn kind_of(e: CustomError) -> ErrorKind {
    match e {
        CustomError::SequenceMismatch
        | CustomError::SequenceIdMismatch
        | CustomError::ContextMismatch
        | CustomError::TextTooLong
        | CustomError::ResponseTooLong
        | CustomError::TooManyCallbackAccounts
        | CustomError::IllegalSignerMeta => ErrorKind::Validation,
        CustomError::ContextOwnerMismatch
        | CustomError::Unauthorized
        | CustomError::WorkerIdentityLeaked
        | CustomError::TargetNotExecutable => ErrorKind::Authorization,
        CustomError::AlreadyProcessed
        | CustomError::CounterOverflow
        | CustomError::HkdfExpandFailed
        | CustomError::MissingAuxiliaryResource
        | CustomError::WritabilityMismatch => ErrorKind::Consistency,
        CustomError::RecordDelegatedElsewhere => ErrorKind::Venue,
    }
}

/// The words that go with each refusal.
pub open spec fn message_of(e: CustomError) -> Seq<char> {
    match e {
        CustomError::ContextOwnerMismatch => "Context owner mismatch"@,
        CustomError::Unauthorized => "Unauthorized."@,
        CustomError::HkdfExpandFailed => "HKDF expand failed."@,
        CustomError::SequenceMismatch => "Provided chat_id is not the next available id for creation."@,
        CustomError::SequenceIdMismatch => "Chat id does not match the PDA being updated."@,
        CustomError::ContextMismatch => "Context does not match the PDA being updated."@,
        CustomError::CounterOverflow => "Arithmetic overflow."@,
        CustomError::TextTooLong => "Request text is too long."@,
        CustomError::ResponseTooLong => "Response text is too long."@,
        CustomError::TooManyCallbackAccounts => "Too many callback accounts."@,
        CustomError::IllegalSignerMeta => "A callback account may not sign."@,
        CustomError::WorkerIdentityLeaked => "The worker may not pass its own identity on."@,
        CustomError::TargetNotExecutable => "The callback target is not an executable program."@,
        CustomError::AlreadyProcessed => "The chat has been answered already."@,
        CustomError::MissingAuxiliaryResource => "A callback account was not supplied."@,
        CustomError::WritabilityMismatch => "A writable callback account was supplied read-only."@,
        CustomError::RecordDelegatedElsewhere => "The record is delegated to the other venue."@,
    }
}

impl CustomError {
    /// What the refusal is about.
    pub fn kind(&self) -> (r: ErrorKind)
        ensures
            r == kind_of(*self),
    {
        match self {
            CustomError::SequenceMismatch
            | CustomError::SequenceIdMismatch
            | CustomError::ContextMismatch
            | CustomError::TextTooLong
            | CustomError::ResponseTooLong
            | CustomError::TooManyCallbackAccounts
            | CustomError::IllegalSignerMeta => ErrorKind::Validation,
            CustomError::ContextOwnerMismatch
            | CustomError::Unauthorized
            | CustomError::WorkerIdentityLeaked
            | CustomError::TargetNotExecutable => ErrorKind::Authorization,
            CustomError::AlreadyProcessed
            | CustomError::CounterOverflow
            | CustomError::HkdfExpandFailed
            | CustomError::MissingAuxiliaryResource
            | CustomError::WritabilityMismatch => ErrorKind::Consistency,
            CustomError::RecordDelegatedElsewhere => ErrorKind::Venue,
        }
    }

    /// Whether the same call may be accepted later without the caller
    /// changing anything: only when the record was with the other venue.
    pub fn is_retriable(&self) -> (r: bool)
        ensures
            r == (kind_of(*self) == ErrorKind::Venue),
    {
        match self {
            CustomError::RecordDelegatedElsewhere => true,
            _ => false,
        }
    }

    /// The words that go with the refusal.
    pub fn message(&self) -> (r: &'static str)
        ensures
            r@ == message_of(*self),
    {
        match self {
            CustomError::ContextOwnerMismatch => "Context owner mismatch",
            CustomError::Unauthorized => "Unauthorized.",
            CustomError::HkdfExpandFailed => "HKDF expand failed.",
            CustomError::SequenceMismatch => "Provided chat_id is not the next available id for creation.",
            CustomError::SequenceIdMismatch => "Chat id does not match the PDA being updated.",
            CustomError::ContextMismatch => "Context does not match the PDA being updated.",
            CustomError::CounterOverflow => "Arithmetic overflow.",
            CustomError::TextTooLong => "Request text is too long.",
            CustomError::ResponseTooLong => "Response text is too long.",
            CustomError::TooManyCallbackAccounts => "Too many callback accounts.",
            CustomError::IllegalSignerMeta => "A callback account may not sign.",
            CustomError::WorkerIdentityLeaked => "The worker may not pass its own identity on.",
            CustomError::TargetNotExecutable => "The callback target is not an executable program.",
            CustomError::AlreadyProcessed => "The chat has been answered already.",
            CustomError::MissingAuxiliaryResource => "A callback account was not supplied.",
            CustomError::WritabilityMismatch => "A writable callback account was supplied read-only.",
            CustomError::RecordDelegatedElsewhere => "The record is delegated to the other venue.",
        }
    }
}

} // verus!
