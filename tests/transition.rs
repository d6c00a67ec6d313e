use flower_registry::error::ContractError;
use flower_registry::state::Flower;
use flower_registry::transition::{
    create_record, reassign_record, reprice_record, sell_record, transfer_record,
};

fn lily() -> Flower {
    Flower {
        token_id: "l".to_string(),
        owner: "ann".to_string(),
        title: "Lily".to_string(),
        description: "white".to_string(),
        media: "l.png".to_string(),
        total_nfts: 3,
        price: 4,
    }
}

#[test]
fn transforms_on_present_record() {
    let id = "l".to_string();
    let t = transfer_record(Some(lily()), &id, "ben".to_string()).unwrap();
    assert_eq!((t.owner.as_str(), t.price, t.total_nfts), ("ben", 0, 3));
    let r = reassign_record(Some(lily()), &id, "cy".to_string()).unwrap();
    assert_eq!((r.owner.as_str(), r.price), ("cy", 4));
    assert_eq!(sell_record(Some(lily()), &id, 3).unwrap().total_nfts, 0);
    assert_eq!(sell_record(Some(lily()), &id, 4), Err(ContractError::NotEnoughAmount));
    assert_eq!(reprice_record(Some(lily()), &id, 11).unwrap().price, 11);
}

#[test]
fn transforms_on_absent_record() {
    let id = "q".to_string();
    let missing = Err(ContractError::IdNotExists { id: "q".to_string() });
    assert_eq!(transfer_record(None, &id, "b".to_string()), missing);
    assert_eq!(reassign_record(None, &id, "b".to_string()), missing);
    assert_eq!(sell_record(None, &id, 1), missing);
    assert_eq!(reprice_record(None, &id, 1), missing);
}

#[test]
fn create_checks() {
    assert_eq!(create_record(false, lily()), Ok(lily()));
    assert_eq!(create_record(true, lily()), Err(ContractError::IdTaken { id: "l".to_string() }));
    let mut bad = lily();
    bad.price = -1;
    assert_eq!(create_record(false, bad), Err(ContractError::InvalidArgument));
}
