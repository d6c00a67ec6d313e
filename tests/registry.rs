use flower_registry::contract::{
    add_new, execute, execute_swap_nft, execute_transfer_nft, instantiate, query,
    query_all_flowers, query_flower, sell, set_price,
};
use flower_registry::error::ContractError;
use flower_registry::msg::{ExecuteMsg, FlowerInfoResponse, InstantiateMsg, QueryMsg};
use flower_registry::state::{Flower, Registry};

fn s(x: &str) -> String {
    x.to_string()
}

fn rose() -> Flower {
    Flower {
        token_id: s("t1"),
        owner: s("alice"),
        title: s("Rose"),
        description: s("red"),
        media: s("rose.png"),
        total_nfts: 10,
        price: 5,
    }
}

fn with_rose() -> Registry {
    let mut reg = Registry::new();
    let f = rose();
    add_new(&mut reg, f.token_id, f.owner, f.title, f.description, f.media, f.total_nfts, f.price)
        .unwrap();
    reg
}

fn get(reg: &Registry, id: &str) -> Flower {
    query_flower(reg, s(id)).flower.unwrap()
}

#[test]
fn create_then_query_returns_fields() {
    let reg = with_rose();
    let f = get(&reg, "t1");
    assert_eq!(f, rose());
    assert_eq!(f.total_nfts, 10);
    assert_eq!(f.price, 5);
}

#[test]
fn create_reports_method_and_id() {
    let mut reg = Registry::new();
    let r = add_new(&mut reg, s("t9"), s("a"), s("b"), s("c"), s("d"), 1, 1).unwrap();
    assert_eq!(r.attributes, vec![(s("method"), s("add_new")), (s("id"), s("t9"))]);
}

#[test]
fn create_twice_is_refused() {
    let mut reg = with_rose();
    let r = add_new(&mut reg, s("t1"), s("mallory"), s("Weed"), s("x"), s("y"), 99, 1);
    assert_eq!(r, Err(ContractError::IdTaken { id: s("t1") }));
    assert_eq!(get(&reg, "t1"), rose());
}

#[test]
fn create_with_negative_fields_is_refused() {
    let mut reg = Registry::new();
    let r = add_new(&mut reg, s("t2"), s("a"), s("b"), s("c"), s("d"), -1, 3);
    assert_eq!(r, Err(ContractError::InvalidArgument));
    let r = add_new(&mut reg, s("t2"), s("a"), s("b"), s("c"), s("d"), 3, -1);
    assert_eq!(r, Err(ContractError::InvalidArgument));
    assert_eq!(query_flower(&reg, s("t2")), FlowerInfoResponse { flower: None });
}

#[test]
fn oversell_is_refused() {
    let mut reg = with_rose();
    assert_eq!(sell(&mut reg, s("t1"), 15), Err(ContractError::NotEnoughAmount));
    assert_eq!(get(&reg, "t1").total_nfts, 10);
}

#[test]
fn sell_decrements_supply() {
    let mut reg = with_rose();
    let r = sell(&mut reg, s("t1"), 4).unwrap();
    assert_eq!(r.attributes, vec![(s("method"), s("sell"))]);
    assert_eq!(get(&reg, "t1").total_nfts, 6);
}

#[test]
fn sell_everything_leaves_zero() {
    let mut reg = with_rose();
    sell(&mut reg, s("t1"), 10).unwrap();
    assert_eq!(get(&reg, "t1").total_nfts, 0);
    assert_eq!(sell(&mut reg, s("t1"), 1), Err(ContractError::NotEnoughAmount));
}

#[test]
fn sell_of_no_units_is_refused() {
    let mut reg = with_rose();
    assert_eq!(sell(&mut reg, s("t1"), 0), Err(ContractError::InvalidArgument));
    assert_eq!(sell(&mut reg, s("t1"), -3), Err(ContractError::InvalidArgument));
    assert_eq!(get(&reg, "t1").total_nfts, 10);
}

#[test]
fn sell_missing_record_is_refused() {
    let mut reg = with_rose();
    assert_eq!(sell(&mut reg, s("t7"), 1), Err(ContractError::IdNotExists { id: s("t7") }));
}

#[test]
fn transfer_sets_owner_and_zero_price() {
    let mut reg = with_rose();
    let r = execute_transfer_nft(&mut reg, s("bob"), s("t1")).unwrap();
    assert_eq!(r.attributes, vec![(s("method"), s("transfer_nft"))]);
    let f = get(&reg, "t1");
    assert_eq!(f.owner, "bob");
    assert_eq!(f.price, 0);
    assert_eq!(f.total_nfts, 10);
    assert_eq!(f.title, "Rose");
}

#[test]
fn transfer_missing_record_is_refused() {
    let mut reg = with_rose();
    let r = execute_transfer_nft(&mut reg, s("bob"), s("t2"));
    assert_eq!(r, Err(ContractError::IdNotExists { id: s("t2") }));
    assert_eq!(get(&reg, "t1"), rose());
}

#[test]
fn swap_with_missing_record_changes_nothing() {
    let mut reg = with_rose();
    execute_transfer_nft(&mut reg, s("bob"), s("t1")).unwrap();
    let r = execute_swap_nft(&mut reg, s("bob"), s("carol"), s("t1"), s("t2"));
    assert_eq!(r, Err(ContractError::IdNotExists { id: s("t2") }));
    assert_eq!(get(&reg, "t1").owner, "bob");
    assert_eq!(query_flower(&reg, s("t2")).flower, None);
}

#[test]
fn swap_with_missing_first_record_names_it() {
    let mut reg = with_rose();
    let r = execute_swap_nft(&mut reg, s("bob"), s("carol"), s("t5"), s("t1"));
    assert_eq!(r, Err(ContractError::IdNotExists { id: s("t5") }));
    assert_eq!(get(&reg, "t1"), rose());
}

#[test]
fn swap_exchanges_owners() {
    let mut reg = with_rose();
    add_new(&mut reg, s("t2"), s("carol"), s("Lily"), s("white"), s("lily.png"), 3, 8).unwrap();
    let r = execute_swap_nft(&mut reg, s("alice"), s("carol"), s("t1"), s("t2")).unwrap();
    assert_eq!(r.attributes, vec![(s("method"), s("swap_nft"))]);
    let a = get(&reg, "t1");
    let b = get(&reg, "t2");
    assert_eq!(a.owner, "carol");
    assert_eq!(b.owner, "alice");
    assert_eq!(a.price, 5);
    assert_eq!(b.price, 8);
}

#[test]
fn set_price_changes_price_only() {
    let mut reg = with_rose();
    let r = set_price(&mut reg, s("t1"), 42).unwrap();
    assert_eq!(r.attributes, vec![(s("method"), s("set_price"))]);
    let f = get(&reg, "t1");
    assert_eq!(f.price, 42);
    assert_eq!(f.owner, "alice");
    assert_eq!(f.total_nfts, 10);
}

#[test]
fn set_price_negative_or_missing_is_refused() {
    let mut reg = with_rose();
    assert_eq!(set_price(&mut reg, s("t1"), -1), Err(ContractError::InvalidArgument));
    assert_eq!(set_price(&mut reg, s("t3"), 1), Err(ContractError::IdNotExists { id: s("t3") }));
    assert_eq!(get(&reg, "t1").price, 5);
}

#[test]
fn queries_differ_on_absence() {
    let reg = with_rose();
    assert_eq!(query_flower(&reg, s("nope")).flower, None);
    assert_eq!(
        query_all_flowers(&reg, s("nope")),
        Err(ContractError::IdNotExists { id: s("nope") })
    );
    assert_eq!(
        query_all_flowers(&reg, s("t1")),
        Ok(FlowerInfoResponse { flower: Some(rose()) })
    );
    assert_eq!(
        query(&reg, QueryMsg::GetFlower { token_id: s("nope") }),
        Ok(FlowerInfoResponse { flower: None })
    );
    assert_eq!(
        query(&reg, QueryMsg::GetAllFlowers { token_id: s("t1") }),
        Ok(FlowerInfoResponse { flower: Some(rose()) })
    );
}

#[test]
fn instantiate_stores_record_zero() {
    let mut reg = Registry::new();
    let msg = InstantiateMsg {
        title: s("Tulip"),
        description: s("yellow"),
        media: s("tulip.png"),
        total_nfts: 7,
        price: 2,
    };
    let r = instantiate(&mut reg, s("creator"), msg).unwrap();
    assert!(r.attributes.is_empty());
    let f = get(&reg, "0");
    assert_eq!(f.token_id, "0");
    assert_eq!(f.owner, "creator");
    assert_eq!(f.title, "Tulip");
    assert_eq!(f.total_nfts, 7);
    assert_eq!(f.price, 2);
}

#[test]
fn instantiate_negative_is_refused() {
    let mut reg = Registry::new();
    let msg = InstantiateMsg {
        title: s("Tulip"),
        description: s("yellow"),
        media: s("tulip.png"),
        total_nfts: 7,
        price: -2,
    };
    assert_eq!(instantiate(&mut reg, s("creator"), msg), Err(ContractError::InvalidArgument));
    assert_eq!(query_flower(&reg, s("0")).flower, None);
}

#[test]
fn execute_dispatches_every_request() {
    let mut reg = Registry::new();
    let add = ExecuteMsg::AddNew {
        token_id: s("t1"),
        owner: s("alice"),
        title: s("Rose"),
        description: s("red"),
        media: s("rose.png"),
        total_nfts: 10,
        price: 5,
    };
    execute(&mut reg, add.clone()).unwrap();
    assert_eq!(execute(&mut reg, add), Err(ContractError::IdTaken { id: s("t1") }));
    execute(&mut reg, ExecuteMsg::Sell { token_id: s("t1"), total_nfts: 4 }).unwrap();
    execute(&mut reg, ExecuteMsg::SetPrice { token_id: s("t1"), price: 9 }).unwrap();
    assert_eq!(get(&reg, "t1").price, 9);
    execute(&mut reg, ExecuteMsg::TransferNft { recipient: s("bob"), token_id: s("t1") }).unwrap();
    let r = execute(
        &mut reg,
        ExecuteMsg::SwapNft {
            owner: s("bob"),
            recipient: s("carol"),
            owner_token_id: s("t1"),
            recipient_token_id: s("t2"),
        },
    );
    assert_eq!(r, Err(ContractError::IdNotExists { id: s("t2") }));
    let f = get(&reg, "t1");
    assert_eq!(f.owner, "bob");
    assert_eq!(f.price, 0);
    assert_eq!(f.total_nfts, 6);
}

#[test]
fn failed_requests_leave_store_identical() {
    let mut reg = with_rose();
    let before = get(&reg, "t1");
    let _ = sell(&mut reg, s("t1"), 11);
    let _ = set_price(&mut reg, s("t1"), -5);
    let _ = execute_swap_nft(&mut reg, s("x"), s("y"), s("t1"), s("zz"));
    let _ = add_new(&mut reg, s("t1"), s("x"), s("x"), s("x"), s("x"), 1, 1);
    assert_eq!(get(&reg, "t1"), before);
}

#[test]
fn supply_never_negative_over_sales() {
    let mut reg = with_rose();
    for amount in [3, 3, 3, 3, 1, 5] {
        let _ = sell(&mut reg, s("t1"), amount);
        assert!(get(&reg, "t1").total_nfts >= 0);
    }
    assert_eq!(get(&reg, "t1").total_nfts, 0);
}
