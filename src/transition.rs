use vstd::prelude::*;

use crate::error::ContractError;
use crate::state::Flower;

verus! {

/// Creation of `f`, given whether its identifier is already in use.
pub open spec fn created(taken: bool, f: Flower) -> Result<Flower, ContractError> {
    if taken {
        Err(ContractError::IdTaken { id: f.token_id })
    } else if f.total_nfts < 0 || f.price < 0 {
        Err(ContractError::InvalidArgument)
    } else {
        Ok(f)
    }
}

/// A transfer to `recipient`: new owner, price back to zero.
pub open spec fn transferred(rec: Option<Flower>, token_id: String, recipient: String) -> Result<
    Flower,
    ContractError,
> {
    match rec {
        Some(f) => Ok(Flower { owner: recipient, price: 0, ..f }),
        None => Err(ContractError::IdNotExists { id: token_id }),
    }
}

/// One side of a swap: a new owner, nothing else changed.
pub open spec fn reassigned(rec: Option<Flower>, token_id: String, new_owner: String) -> Result<
    Flower,
    ContractError,
> {
    match rec {
        Some(f) => Ok(Flower { owner: new_owner, ..f }),
        None => Err(ContractError::IdNotExists { id: token_id }),
    }
}

/// A sale of `amount` units out of the remaining supply.
pub open spec fn sold(rec: Option<Flower>, token_id: String, amount: i32) -> Result<
    Flower,
    ContractError,
> {
    match rec {
        Some(f) => if amount <= 0 {
            Err(ContractError::InvalidArgument)
        } else if amount > f.total_nfts {
            Err(ContractError::NotEnoughAmount)
        } else {
            Ok(Flower { total_nfts: (f.total_nfts - amount) as i32, ..f })
        },
        None => Err(ContractError::IdNotExists { id: token_id }),
    }
}

/// A new price.
pub open spec fn repriced(rec: Option<Flower>, token_id: String, price: i32) -> Result<
    Flower,
    ContractError,
> {
    match rec {
        Some(f) => if price < 0 {
            Err(ContractError::InvalidArgument)
        } else {
            Ok(Flower { price, ..f })
        },
        None => Err(ContractError::IdNotExists { id: token_id }),
    }
}

/// Checks a new record: refused when its identifier is taken, or when its
/// supply or price is negative.
pub fn create_record(taken: bool, f: Flower) -> (r: Result<Flower, ContractError>)
    ensures
        r == created(taken, f),
{
    if taken {
        Err(ContractError::IdTaken { id: f.token_id })
    } else if f.total_nfts < 0 || f.price < 0 {
        Err(ContractError::InvalidArgument)
    } else {
        Ok(f)
    }
}

/// The stored record after a transfer to `recipient`.
pub fn transfer_record(rec: Option<Flower>, token_id: &String, recipient: String) -> (r: Result<
    Flower,
    ContractError,
>)
    ensures
        r == transferred(rec, *token_id, recipient),
{
    match rec {
        Some(f) => Ok(Flower { owner: recipient, price: 0, ..f }),
        None => Err(ContractError::IdNotExists { id: token_id.clone() }),
    }
}

/// The stored record with `new_owner` as its owner.
pub fn reassign_record(rec: Option<Flower>, token_id: &String, new_owner: String) -> (r: Result<
    Flower,
    ContractError,
>)
    ensures
        r == reassigned(rec, *token_id, new_owner),
{
    match rec {
        Some(f) => Ok(Flower { owner: new_owner, ..f }),
        None => Err(ContractError::IdNotExists { id: token_id.clone() }),
    }
}

/// The stored record after `amount` units were sold.
pub fn sell_record(rec: Option<Flower>, token_id: &String, amount: i32) -> (r: Result<
    Flower,
    ContractError,
>)
    ensures
        r == sold(rec, *token_id, amount),
{
    match rec {
        Some(f) => {
            if amount <= 0 {
                Err(ContractError::InvalidArgument)
            } else if amount > f.total_nfts {
                Err(ContractError::NotEnoughAmount)
            } else {
                let left = f.total_nfts - amount;
                Ok(Flower { total_nfts: left, ..f })
            }
        },
        None => Err(ContractError::IdNotExists { id: token_id.clone() }),
    }
}

/// The stored record with a new price.
pub fn reprice_record(rec: Option<Flower>, token_id: &String, price: i32) -> (r: Result<
    Flower,
    ContractError,
>)
    ensures
        r == repriced(rec, *token_id, price),
{
    match rec {
        Some(f) => {
            if price < 0 {
                Err(ContractError::InvalidArgument)
            } else {
                Ok(Flower { price, ..f })
            }
        },
        None => Err(ContractError::IdNotExists { id: token_id.clone() }),
    }
}

} // verus!
