use vstd::prelude::*;

use crate::state::Flower;

verus! {

/// Fields of the record that a new registry starts with.
#[derive(Clone, Debug, PartialEq, Eq)]
pub struct InstantiateMsg {
    pub title: String,
    pub description: String,
    pub media: String,
    pub total_nfts: i32,
    pub price: i32,
}

/// One mutating request.
#[derive(Clone, Debug, PartialEq, Eq)]
pub enum ExecuteMsg {
    AddNew {
        token_id: String,
        owner: String,
        title: String,
        description: String,
        media: String,
        total_nfts: i32,
        price: i32,
    },
    Sell { token_id: String, total_nfts: i32 },
    SwapNft { owner: String, recipient: String, owner_token_id: String, recipient_token_id: String },
    TransferNft { recipient: String, token_id: String },
    SetPrice { token_id: String, price: i32 },
}

/// One read-only request.
#[derive(Clone, Debug, PartialEq, Eq)]
pub enum QueryMsg {
    /// The record, or nothing when it is absent.
    GetFlower { token_id: String },
    /// The record, or an error when it is absent.
    GetAllFlowers { token_id: String },
}

/// The answer to a query.
#[derive(Clone, Debug, PartialEq, Eq)]
pub struct FlowerInfoResponse {
    pub flower: Option<Flower>,
}

/// What a successful mutating request reports: key/value tags.
#[derive(Clone, Debug, PartialEq, Eq)]
pub struct Response {
    pub attributes: Vec<(String, String)>,
}

impl Response {
    /// The tags as character sequences.
    pub open spec fn attrs(&self) -> Seq<(Seq<char>, Seq<char>)> {
        self.attributes@.map_values(|p: (String, String)| (p.0@, p.1@))
    }

    /// A response with no tags.
    pub fn new() -> (r: Response)
        ensures
            r.attrs() == Seq::<(Seq<char>, Seq<char>)>::empty(),
    {
        let r = Response { attributes: Vec::new() };
        assert(r.attrs() =~= Seq::<(Seq<char>, Seq<char>)>::empty());
        r
    }

    /// This response with one more tag at the end.
    pub fn add_attribute(self, key: &str, value: &str) -> (r: Response)
        ensures
            r.attrs() == self.attrs().push((key@, value@)),
    {
        let mut attributes = self.attributes;
        attributes.push((key.to_owned(), value.to_owned()));
        let r = Response { attributes };
        assert(r.attrs() =~= self.attrs().push((key@, value@)));
        r
    }
}

} // verus!
