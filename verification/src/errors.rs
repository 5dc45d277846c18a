use vstd::prelude::*;

verus! {

/// The ways an operation on the ledger can fail. Every error is an
/// ordinary expected outcome, returned synchronously to the caller;
/// nothing is retried or suppressed internally.
#[derive(Clone, Copy, Debug, PartialEq, Eq, Structural)]
pub enum LedgerError {
    /// An account creation named an identifier that is already present.
    AccountExists,
    /// A balance query or a transfer named an identifier that is absent.
    AccountNotFound,
    /// A transfer's source balance is below the requested amount.
    InsufficientFunds,
}

impl LedgerError {
    /// The diagnostic text that `message` returns.
    pub open spec fn message_spec(&self) -> Seq<char> {
        match self {
            LedgerError::AccountExists => "Account already exists"@,
            LedgerError::AccountNotFound => "Account not found"@,
            LedgerError::InsufficientFunds => "Insufficient funds"@,
        }
    }

    /// A human-readable description of the error.
    pub fn message(&self) -> (text: String)
        ensures
            text@ == self.message_spec(),
    {
        match self {
            LedgerError::AccountExists => "Account already exists".to_string(),
            LedgerError::AccountNotFound => "Account not found".to_string(),
            LedgerError::InsufficientFunds => "Insufficient funds".to_string(),
        }
    }
}

} // verus!
