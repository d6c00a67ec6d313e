use vstd::prelude::*;

use crate::contract::{after, apply};
use crate::error::ContractError;
use crate::msg::ExecuteMsg;
use crate::state::{Flower, Records};

verus! {

/// The store after each request of `msgs` in turn.
pub open spec fn run(m: Records, msgs: Seq<ExecuteMsg>) -> Records
    decreases msgs.len(),
{
    if msgs.len() == 0 {
        m
    } else {
        run(after(m, msgs[0]), msgs.drop_first())
    }
}

/// No stored record has a negative supply.
pub open spec fn supplies_nonnegative(m: Records) -> bool {
    forall|k: Seq<char>| #[trigger] m.contains_key(k) ==> m[k].total_nfts >= 0
}

/// Once a record has been created under an identifier, every later creation
/// under that identifier fails with `IdTaken` and changes nothing.
pub proof fn law_identifier_unique(m: Records, first: ExecuteMsg, second: ExecuteMsg)
    requires
        first is AddNew,
        second is AddNew,
        first->AddNew_token_id@ == second->AddNew_token_id@,
        apply(m, first) is Ok,
    ensures
        apply(after(m, first), second) == Err::<Records, ContractError>(
            ContractError::IdTaken { id: second->AddNew_token_id },
        ),
        after(after(m, first), second) == after(m, first),
{
}

/// No request removes a record.
pub proof fn law_records_persist(m: Records, msg: ExecuteMsg)
    ensures
        m.dom().subset_of(after(m, msg).dom()),
{
}

/// No sequence of requests removes a record.
pub proof fn law_records_persist_over_runs(m: Records, msgs: Seq<ExecuteMsg>)
    ensures
        m.dom().subset_of(run(m, msgs).dom()),
    decreases msgs.len(),
{
    if msgs.len() > 0 {
        law_records_persist(m, msgs[0]);
        law_records_persist_over_runs(after(m, msgs[0]), msgs.drop_first());
    }
}

/// Once a record has been created under an identifier, a creation under that
/// identifier fails with `IdTaken` after any sequence of requests.
pub proof fn law_identifier_unique_over_runs(
    m: Records,
    first: ExecuteMsg,
    between: Seq<ExecuteMsg>,
    second: ExecuteMsg,
)
    requires
        first is AddNew,
        second is AddNew,
        first->AddNew_token_id@ == second->AddNew_token_id@,
        apply(m, first) is Ok,
    ensures
        apply(run(after(m, first), between), second) == Err::<Records, ContractError>(
            ContractError::IdTaken { id: second->AddNew_token_id },
        ),
{
    law_records_persist_over_runs(after(m, first), between);
    assert(after(m, first).contains_key(first->AddNew_token_id@));
}

/// No request changes the identifier, title, description or media of a
/// stored record.
pub proof fn law_descriptive_fields_fixed(m: Records, msg: ExecuteMsg, k: Seq<char>)
    requires
        m.contains_key(k),
    ensures
        after(m, msg)[k].token_id == m[k].token_id,
        after(m, msg)[k].title == m[k].title,
        after(m, msg)[k].description == m[k].description,
        after(m, msg)[k].media == m[k].media,
{
}

/// No request, successful or not, makes a supply negative.
pub proof fn law_supply_stays_nonnegative(m: Records, msg: ExecuteMsg)
    requires
        supplies_nonnegative(m),
    ensures
        supplies_nonnegative(after(m, msg)),
{
}

/// No sequence of requests makes a supply negative.
pub proof fn law_supply_nonnegative_over_runs(m: Records, msgs: Seq<ExecuteMsg>)
    requires
        supplies_nonnegative(m),
    ensures
        supplies_nonnegative(run(m, msgs)),
    decreases msgs.len(),
{
    if msgs.len() > 0 {
        law_supply_stays_nonnegative(m, msgs[0]);
        law_supply_nonnegative_over_runs(after(m, msgs[0]), msgs.drop_first());
    }
}

/// A sale of more units than are left fails with `NotEnoughAmount` and leaves
/// the supply as it was.
pub proof fn law_oversell_refused(m: Records, token_id: String, amount: i32)
    requires
        m.contains_key(token_id@),
        amount > 0,
        amount > m[token_id@].total_nfts,
    ensures
        apply(m, ExecuteMsg::Sell { token_id, total_nfts: amount }) == Err::<
            Records,
            ContractError,
        >(ContractError::NotEnoughAmount),
        after(m, ExecuteMsg::Sell { token_id, total_nfts: amount }) == m,
{
}

/// After a successful transfer the record's price is zero and its owner is
/// the recipient.
pub proof fn law_transfer_resets_price(m: Records, recipient: String, token_id: String)
    requires
        apply(m, ExecuteMsg::TransferNft { recipient, token_id }) is Ok,
    ensures
        after(m, ExecuteMsg::TransferNft { recipient, token_id })[token_id@].price == 0,
        after(m, ExecuteMsg::TransferNft { recipient, token_id })[token_id@].owner == recipient,
{
}

/// A request that fails leaves every stored record as it was.
pub proof fn law_failure_changes_nothing(m: Records, msg: ExecuteMsg)
    requires
        apply(m, msg) is Err,
    ensures
        after(m, msg) == m,
{
}

/// A record that was just created reads back with the fields it was created
/// with.
pub proof fn law_created_reads_back(
    m: Records,
    token_id: String,
    owner: String,
    title: String,
    description: String,
    media: String,
    total_nfts: i32,
    price: i32,
)
    requires
        apply(
            m,
            ExecuteMsg::AddNew { token_id, owner, title, description, media, total_nfts, price },
        ) is Ok,
    ensures
        after(
            m,
            ExecuteMsg::AddNew { token_id, owner, title, description, media, total_nfts, price },
        ).get(token_id@) == Some(
            Flower { token_id, owner, title, description, media, total_nfts, price },
        ),
{
}

} // verus!
