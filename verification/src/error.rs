use vstd::prelude::*;
use vstd::string::StringExecFns;

verus! {

/// What can go wrong while a tree is being set up. Each variant carries the
/// message of the failing step.
#[derive(Clone, Debug, PartialEq, Eq)]
pub enum BubblegumError {
    /// A textual public key could not be decoded.
    PubkeyError(String),
    /// The ledger node could not be reached or refused a query.
    RpcError(String),
    /// The transaction could not be assembled or signed.
    TransactionError(String),
}

impl BubblegumError {
    /// The text a variant's message is prefixed with.
    pub open spec fn prefix(self) -> Seq<char> {
        match self {
            BubblegumError::PubkeyError(_) => "Pubkey error: "@,
            BubblegumError::RpcError(_) => "RPC error: "@,
            BubblegumError::TransactionError(_) => "Transaction error: "@,
        }
    }

    /// The message the failing step left.
    pub open spec fn detail(self) -> Seq<char> {
        match self {
            BubblegumError::PubkeyError(m) => m@,
            BubblegumError::RpcError(m) => m@,
            BubblegumError::TransactionError(m) => m@,
        }
    }

    /// The rendered error: the variant's prefix followed by its message.
    pub open spec fn rendered(self) -> Seq<char> {
        self.prefix() + self.detail()
    }

    /// Renders the error as text, prefix first.
    pub fn message(&self) -> (text: String)
        ensures
            text@ == self.rendered(),
    {
        match self {
            BubblegumError::PubkeyError(m) => String::from_str("Pubkey error: ").concat(
                m.as_str(),
            ),
            BubblegumError::RpcError(m) => String::from_str("RPC error: ").concat(m.as_str()),
            BubblegumError::TransactionError(m) => String::from_str(
                "Transaction error: ",
            ).concat(m.as_str()),
        }
    }
}

} // verus!
