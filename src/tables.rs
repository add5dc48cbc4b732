use vstd::prelude::*;

use crate::error::AdminError;
use crate::text::same_text;

verus! {

/// The closed set of record types that the admin surface manages.
#[derive(Clone, Copy, Debug, PartialEq, Eq, Hash, Structural)]
pub enum Table {
    Address,
    Article,
    Auction,
    AuctionItem,
    AuctionItemBid,
    AuctionItemDelivery,
    Organization,
    User,
}

/// Every kind, in declaration order.
pub open spec fn all_tables() -> Seq<Table> {
    seq![
        Table::Address,
        Table::Article,
        Table::Auction,
        Table::AuctionItem,
        Table::AuctionItemBid,
        Table::AuctionItemDelivery,
        Table::Organization,
        Table::User,
    ]
}

/// The URL-safe name of a kind.
pub open spec fn url_name_of(t: Table) -> Seq<char> {
    match t {
        Table::Address => "address"@,
        Table::Article => "article"@,
        Table::Auction => "auction"@,
        Table::AuctionItem => "auction-item"@,
        Table::AuctionItemBid => "auction-item-bid"@,
        Table::AuctionItemDelivery => "auction-item-delivery"@,
        Table::Organization => "organization"@,
        Table::User => "user"@,
    }
}

/// The name of a kind's table in the store.
pub open spec fn store_name_of(t: Table) -> Seq<char> {
    match t {
        Table::Address => "address"@,
        Table::Article => "article"@,
        Table::Auction => "auction"@,
        Table::AuctionItem => "auction_item"@,
        Table::AuctionItemBid => "auction_item_bid"@,
        Table::AuctionItemDelivery => "auction_item_delivery"@,
        Table::Organization => "organization"@,
        Table::User => "user"@,
    }
}

/// The human-readable label of a kind.
pub open spec fn label_of(t: Table) -> Seq<char> {
    match t {
        Table::Address => "Address"@,
        Table::Article => "Article"@,
        Table::Auction => "Auction"@,
        Table::AuctionItem => "Auction Item"@,
        Table::AuctionItemBid => "Auction Item Bid"@,
        Table::AuctionItemDelivery => "Auction Item Delivery"@,
        Table::Organization => "Organization"@,
        Table::User => "User"@,
    }
}

/// What `parse` gives for a slug: the kind whose URL name it is, if any.
pub open spec fn parse_result(slug: Seq<char>) -> Result<Table, AdminError> {
    if exists|t: Table| url_name_of(t) == slug {
        Ok(choose|t: Table| url_name_of(t) == slug)
    } else {
        Err(AdminError::NotFound)
    }
}

pub proof fn lemma_all_tables_complete(t: Table)
    ensures
        all_tables().contains(t),
{
    let s = all_tables();
    match t {
        Table::Address => assert(s[0] == t),
        Table::Article => assert(s[1] == t),
        Table::Auction => assert(s[2] == t),
        Table::AuctionItem => assert(s[3] == t),
        Table::AuctionItemBid => assert(s[4] == t),
        Table::AuctionItemDelivery => assert(s[5] == t),
        Table::Organization => assert(s[6] == t),
        Table::User => assert(s[7] == t),
    }
}

/// Distinct kinds have distinct URL names.
pub proof fn lemma_url_names_distinct(a: Table, b: Table)
    ensures
        url_name_of(a) == url_name_of(b) ==> a == b,
{
    reveal_strlit("address");
    reveal_strlit("article");
    reveal_strlit("auction");
    reveal_strlit("auction-item");
    reveal_strlit("auction-item-bid");
    reveal_strlit("auction-item-delivery");
    reveal_strlit("organization");
    reveal_strlit("user");
    if url_name_of(a) == url_name_of(b) && a != b {
        let x = url_name_of(a);
        let y = url_name_of(b);
        assert(x.len() == y.len());
        assert(x[0] == y[0]);
        assert(x[1] == y[1]);
        assert(false);
    }
}

/// Reading the URL name of any kind gives that kind back.
pub proof fn lemma_parse_url_name(t: Table)
    ensures
        parse_result(url_name_of(t)) == Ok::<Table, AdminError>(t),
{
    let c = choose|u: Table| url_name_of(u) == url_name_of(t);
    lemma_url_names_distinct(c, t);
}

/// A slug that names no kind is reported as not found.
pub proof fn lemma_parse_unknown(slug: Seq<char>)
    requires
        forall|t: Table| url_name_of(t) != slug,
    ensures
        parse_result(slug) == Err::<Table, AdminError>(AdminError::NotFound),
{
}

impl Table {
    /// Every kind, in declaration order, for navigation menus.
    pub fn get_table_list() -> (r: Vec<Table>)
        ensures
            r@ == all_tables(),
    {
        let r = vec![
            Table::Address,
            Table::Article,
            Table::Auction,
            Table::AuctionItem,
            Table::AuctionItemBid,
            Table::AuctionItemDelivery,
            Table::Organization,
            Table::User,
        ];
        assert(r@ =~= all_tables());
        r
    }

    pub fn to_url_name(&self) -> (r: &'static str)
        ensures
            r@ == url_name_of(*self),
    {
        match self {
            Table::Address => "address",
            Table::Article => "article",
            Table::Auction => "auction",
            Table::AuctionItem => "auction-item",
            Table::AuctionItemBid => "auction-item-bid",
            Table::AuctionItemDelivery => "auction-item-delivery",
            Table::Organization => "organization",
            Table::User => "user",
        }
    }

    pub fn to_postgres_name(&self) -> (r: &'static str)
        ensures
            r@ == store_name_of(*self),
    {
        match self {
            Table::Address => "address",
            Table::Article => "article",
            Table::Auction => "auction",
            Table::AuctionItem => "auction_item",
            Table::AuctionItemBid => "auction_item_bid",
            Table::AuctionItemDelivery => "auction_item_delivery",
            Table::Organization => "organization",
            Table::User => "user",
        }
    }

    /// The label shown to operators.
    pub fn to_label(&self) -> (r: &'static str)
        ensures
            r@ == label_of(*self),
    {
        match self {
            Table::Address => "Address",
            Table::Article => "Article",
            Table::Auction => "Auction",
            Table::AuctionItem => "Auction Item",
            Table::AuctionItemBid => "Auction Item Bid",
            Table::AuctionItemDelivery => "Auction Item Delivery",
            Table::Organization => "Organization",
            Table::User => "User",
        }
    }

    /// Turns untrusted route text into a kind; unknown text is `NotFound`.
    pub fn parse(slug: &str) -> (r: Result<Table, AdminError>)
        ensures
            r == parse_result(slug@),
    {
        let list = Table::get_table_list();
        let mut i: usize = 0;
        while i < list.len()
            invariant
                list@ == all_tables(),
                i <= list@.len(),
                forall|j: int| 0 <= j < i ==> url_name_of(#[trigger] list@[j]) != slug@,
            decreases list@.len() - i,
        {
            let t = list[i];
            if same_text(t.to_url_name(), slug) {
                proof {
                    lemma_parse_url_name(t);
                }
                return Ok(t);
            }
            i = i + 1;
        }
        proof {
            assert forall|t: Table| url_name_of(t) != slug@ by {
                lemma_all_tables_complete(t);
                let k = choose|k: int| 0 <= k < all_tables().len() && all_tables()[k] == t;
                assert(url_name_of(list@[k]) != slug@);
            }
        }
        Err(AdminError::NotFound)
    }
}

impl Default for Table {
    fn default() -> (r: Table)
        ensures
            r == Table::Organization,
    {
        Table::Organization
    }
}

} // verus!
