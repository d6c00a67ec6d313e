use vstd::prelude::*;

use crate::error::ContractError;
use crate::msg::{ExecuteMsg, FlowerInfoResponse, InstantiateMsg, QueryMsg, Response};
use crate::state::{Flower, Records, Registry};
use crate::transition::{
    create_record, created, reassign_record, reassigned, repriced, reprice_record, sell_record,
    sold, transfer_record, transferred,
};

verus! {

/// Stores the outcome of a single-record transition under `key`.
pub open spec fn commit(m: Records, key: Seq<char>, res: Result<Flower, ContractError>) -> Result<
    Records,
    ContractError,
> {
    match res {
        Ok(f) => Ok(m.insert(key, f)),
        Err(e) => Err(e),
    }
}

/// What a request does to the store: the new store, or the error that leaves
/// it as it was. A swap changes both records or neither.
pub open spec fn apply(m: Records, msg: ExecuteMsg) -> Result<Records, ContractError> {
    match msg {
        ExecuteMsg::AddNew { token_id, owner, title, description, media, total_nfts, price } => {
            let f = Flower { token_id, owner, title, description, media, total_nfts, price };
            commit(m, f.token_id@, created(m.contains_key(f.token_id@), f))
        },
        ExecuteMsg::Sell { token_id, total_nfts } => commit(
            m,
            token_id@,
            sold(m.get(token_id@), token_id, total_nfts),
        ),
        ExecuteMsg::SwapNft { owner, recipient, owner_token_id, recipient_token_id } => {
            match reassigned(m.get(owner_token_id@), owner_token_id, recipient) {
                Err(e) => Err(e),
                Ok(fa) => commit(
                    m.insert(owner_token_id@, fa),
                    recipient_token_id@,
                    reassigned(m.get(recipient_token_id@), recipient_token_id, owner),
                ),
            }
        },
        ExecuteMsg::TransferNft { recipient, token_id } => commit(
            m,
            token_id@,
            transferred(m.get(token_id@), token_id, recipient),
        ),
        ExecuteMsg::SetPrice { token_id, price } => commit(
            m,
            token_id@,
            repriced(m.get(token_id@), token_id, price),
        ),
    }
}

/// The store after a request: unchanged when the request fails.
pub open spec fn after(m: Records, msg: ExecuteMsg) -> Records {
    match apply(m, msg) {
        Ok(m2) => m2,
        Err(_) => m,
    }
}

/// The registry and the result meet `apply`.
pub open spec fn applied(
    before: Records,
    now: Records,
    msg: ExecuteMsg,
    r: Result<Response, ContractError>,
) -> bool {
    &&& now == after(before, msg)
    &&& match apply(before, msg) {
        Ok(_) => r is Ok,
        Err(e) => r == Err::<Response, ContractError>(e),
    }
}

/// The tags a successful request reports.
pub open spec fn tags_of(msg: ExecuteMsg) -> Seq<(Seq<char>, Seq<char>)> {
    match msg {
        ExecuteMsg::AddNew { token_id, .. } => seq![("method"@, "add_new"@), ("id"@, token_id@)],
        ExecuteMsg::Sell { .. } => seq![("method"@, "sell"@)],
        ExecuteMsg::SwapNft { .. } => seq![("method"@, "swap_nft"@)],
        ExecuteMsg::TransferNft { .. } => seq![("method"@, "transfer_nft"@)],
        ExecuteMsg::SetPrice { .. } => seq![("method"@, "set_price"@)],
    }
}

/// The tags of a response meet `tags_of`.
pub open spec fn tagged(msg: ExecuteMsg, r: Result<Response, ContractError>) -> bool {
    r is Ok ==> r->Ok_0.attrs() == tags_of(msg)
}

fn method_response(method: &str) -> (r: Response)
    ensures
        r.attrs() == seq![("method"@, method@)],
{
    let r = Response::new().add_attribute("method", method);
    assert(r.attrs() =~= seq![("method"@, method@)]);
    r
}

/// Sets up the registry with record "0", owned by `sender`. Refused when the
/// supply or the price is negative.
pub fn instantiate(reg: &mut Registry, sender: String, msg: InstantiateMsg) -> (r: Result<
    Response,
    ContractError,
>)
    requires
        old(reg).wf(),
    ensures
        final(reg).wf(),
        msg.total_nfts < 0 || msg.price < 0 ==> r == Err::<Response, ContractError>(
            ContractError::InvalidArgument,
        ) && final(reg)@ == old(reg)@,
        msg.total_nfts >= 0 && msg.price >= 0 ==> {
            let f = final(reg)@["0"@];
            &&& r is Ok
            &&& r->Ok_0.attrs().len() == 0
            &&& final(reg)@ == old(reg)@.insert("0"@, f)
            &&& f.token_id@ == "0"@
            &&& f.owner == sender
            &&& f.title == msg.title
            &&& f.description == msg.description
            &&& f.media == msg.media
            &&& f.total_nfts == msg.total_nfts
            &&& f.price == msg.price
        },
{
    if msg.total_nfts < 0 || msg.price < 0 {
        return Err(ContractError::InvalidArgument);
    }
    let flower = Flower {
        token_id: "0".to_owned(),
        owner: sender,
        title: msg.title,
        description: msg.description,
        media: msg.media,
        total_nfts: msg.total_nfts,
        price: msg.price,
    };
    reg.save(flower);
    Ok(Response::new())
}

/// Runs one mutating request against the registry.
pub fn execute(reg: &mut Registry, msg: ExecuteMsg) -> (r: Result<Response, ContractError>)
    requires
        old(reg).wf(),
    ensures
        final(reg).wf(),
        applied(old(reg)@, final(reg)@, msg, r),
        tagged(msg, r),
{
    match msg {
        ExecuteMsg::AddNew { token_id, owner, title, description, media, total_nfts, price } => {
            add_new(reg, token_id, owner, title, description, media, total_nfts, price)
        },
        ExecuteMsg::TransferNft { recipient, token_id } => execute_transfer_nft(
            reg,
            recipient,
            token_id,
        ),
        ExecuteMsg::SwapNft { owner, recipient, owner_token_id, recipient_token_id } => {
            execute_swap_nft(reg, owner, recipient, owner_token_id, recipient_token_id)
        },
        ExecuteMsg::Sell { token_id, total_nfts } => sell(reg, token_id, total_nfts),
        ExecuteMsg::SetPrice { token_id, price } => set_price(reg, token_id, price),
    }
}

/// Gives the record at `owner_token_id` to `recipient` and the record at
/// `recipient_token_id` to `owner`. When either is missing, neither changes.
pub fn execute_swap_nft(
    reg: &mut Registry,
    owner: String,
    recipient: String,
    owner_token_id: String,
    recipient_token_id: String,
) -> (r: Result<Response, ContractError>)
    requires
        old(reg).wf(),
    ensures
        final(reg).wf(),
        applied(
            old(reg)@,
            final(reg)@,
            ExecuteMsg::SwapNft { owner, recipient, owner_token_id, recipient_token_id },
            r,
        ),
        tagged(ExecuteMsg::SwapNft { owner, recipient, owner_token_id, recipient_token_id }, r),
{
    proof {
        reg.lemma_keyed();
    }
    let rec_a = reg.load(&owner_token_id);
    let rec_b = reg.load(&recipient_token_id);
    let fa = match reassign_record(rec_a, &owner_token_id, recipient) {
        Ok(f) => f,
        Err(e) => return Err(e),
    };
    let fb = match reassign_record(rec_b, &recipient_token_id, owner) {
        Ok(f) => f,
        Err(e) => return Err(e),
    };
    reg.save(fa);
    reg.save(fb);
    Ok(method_response("swap_nft"))
}

/// Hands the record to `recipient` and sets its price to zero.
pub fn execute_transfer_nft(reg: &mut Registry, recipient: String, token_id: String) -> (r: Result<
    Response,
    ContractError,
>)
    requires
        old(reg).wf(),
    ensures
        final(reg).wf(),
        applied(old(reg)@, final(reg)@, ExecuteMsg::TransferNft { recipient, token_id }, r),
        tagged(ExecuteMsg::TransferNft { recipient, token_id }, r),
{
    proof {
        reg.lemma_keyed();
    }
    let rec = reg.load(&token_id);
    match transfer_record(rec, &token_id, recipient) {
        Ok(f) => {
            reg.save(f);
            Ok(method_response("transfer_nft"))
        },
        Err(e) => Err(e),
    }
}

/// Sets the price of the record. Refused when the price is negative.
pub fn set_price(reg: &mut Registry, token_id: String, price: i32) -> (r: Result<
    Response,
    ContractError,
>)
    requires
        old(reg).wf(),
    ensures
        final(reg).wf(),
        applied(old(reg)@, final(reg)@, ExecuteMsg::SetPrice { token_id, price }, r),
        tagged(ExecuteMsg::SetPrice { token_id, price }, r),
{
    proof {
        reg.lemma_keyed();
    }
    let rec = reg.load(&token_id);
    match reprice_record(rec, &token_id, price) {
        Ok(f) => {
            reg.save(f);
            Ok(method_response("set_price"))
        },
        Err(e) => Err(e),
    }
}

/// Creates a record. Refused when the identifier is taken, or when the supply
/// or the price is negative.
pub fn add_new(
    reg: &mut Registry,
    token_id: String,
    owner: String,
    title: String,
    description: String,
    media: String,
    total_nfts: i32,
    price: i32,
) -> (r: Result<Response, ContractError>)
    requires
        old(reg).wf(),
    ensures
        final(reg).wf(),
        applied(
            old(reg)@,
            final(reg)@,
            ExecuteMsg::AddNew { token_id, owner, title, description, media, total_nfts, price },
            r,
        ),
        tagged(
            ExecuteMsg::AddNew { token_id, owner, title, description, media, total_nfts, price },
            r,
        ),
{
    let taken = reg.contains(&token_id);
    let flower = Flower { token_id, owner, title, description, media, total_nfts, price };
    match create_record(taken, flower) {
        Ok(f) => {
            let id = f.token_id.clone();
            reg.save(f);
            let r = Response::new().add_attribute("method", "add_new").add_attribute(
                "id",
                id.as_str(),
            );
            assert(r.attrs() =~= seq![("method"@, "add_new"@), ("id"@, id@)]);
            Ok(r)
        },
        Err(e) => Err(e),
    }
}

/// Sells `total_nfts` units of the record. Refused when the amount is not
/// positive or exceeds the remaining supply.
pub fn sell(reg: &mut Registry, id: String, total_nfts: i32) -> (r: Result<
    Response,
    ContractError,
>)
    requires
        old(reg).wf(),
    ensures
        final(reg).wf(),
        applied(old(reg)@, final(reg)@, ExecuteMsg::Sell { token_id: id, total_nfts }, r),
        tagged(ExecuteMsg::Sell { token_id: id, total_nfts }, r),
{
    proof {
        reg.lemma_keyed();
    }
    let rec = reg.load(&id);
    match sell_record(rec, &id, total_nfts) {
        Ok(f) => {
            reg.save(f);
            Ok(method_response("sell"))
        },
        Err(e) => Err(e),
    }
}

/// Answers a read-only request.
pub fn query(reg: &Registry, msg: QueryMsg) -> (r: Result<FlowerInfoResponse, ContractError>)
    requires
        reg.wf(),
    ensures
        match msg {
            QueryMsg::GetFlower { token_id } => r == Ok::<FlowerInfoResponse, ContractError>(
                FlowerInfoResponse { flower: reg@.get(token_id@) },
            ),
            QueryMsg::GetAllFlowers { token_id } => found(reg@, token_id, r),
        },
{
    match msg {
        QueryMsg::GetFlower { token_id } => Ok(query_flower(reg, token_id)),
        QueryMsg::GetAllFlowers { token_id } => query_all_flowers(reg, token_id),
    }
}

/// The record in a response, or `IdNotExists` when it is absent.
pub open spec fn found(m: Records, id: String, r: Result<FlowerInfoResponse, ContractError>) -> bool {
    match m.get(id@) {
        Some(f) => r == Ok::<FlowerInfoResponse, ContractError>(
            FlowerInfoResponse { flower: Some(f) },
        ),
        None => r == Err::<FlowerInfoResponse, ContractError>(
            ContractError::IdNotExists { id },
        ),
    }
}

/// The record under `id`; an absent record is a normal answer.
pub fn query_flower(reg: &Registry, id: String) -> (r: FlowerInfoResponse)
    requires
        reg.wf(),
    ensures
        r.flower == reg@.get(id@),
{
    FlowerInfoResponse { flower: reg.load(&id) }
}

/// The record under `id`; an absent record is an error.
pub fn query_all_flowers(reg: &Registry, id: String) -> (r: Result<
    FlowerInfoResponse,
    ContractError,
>)
    requires
        reg.wf(),
    ensures
        found(reg@, id, r),
{
    match reg.load(&id) {
        Some(f) => Ok(FlowerInfoResponse { flower: Some(f) }),
        None => Err(ContractError::IdNotExists { id }),
    }
}

} // verus!
