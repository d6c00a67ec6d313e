use vstd::prelude::*;

verus! {

/// Why an operation on the registry was refused. A refused operation leaves
/// every stored record as it was.
#[derive(Clone, Debug, PartialEq, Eq)]
pub enum ContractError {
    /// A record with this identifier already exists.
    IdTaken { id: String },
    /// No record is stored under this identifier.
    IdNotExists { id: String },
    /// A sale asks for more units than the record has left.
    NotEnoughAmount,
    /// A negative price or supply, or a sale of no units or fewer.
    InvalidArgument,
}

} // verus!
