use hooksaurus_admin::dispatch::change_outcome;
use hooksaurus_admin::error::AdminError;
use hooksaurus_admin::tables::Table;

#[test]
fn table_list_in_declaration_order() {
    let list = Table::get_table_list();
    assert_eq!(list.len(), 8);
    assert_eq!(list[0], Table::Address);
    assert_eq!(list[3], Table::AuctionItem);
    assert_eq!(list[7], Table::User);
}

#[test]
fn url_names_round_trip() {
    for t in Table::get_table_list() {
        assert_eq!(Table::parse(t.to_url_name()), Ok(t));
    }
    assert_eq!(Table::parse("auction-item-bid"), Ok(Table::AuctionItemBid));
}

#[test]
fn unknown_slugs_are_not_found() {
    assert_eq!(Table::parse("bogus"), Err(AdminError::NotFound));
    assert_eq!(Table::parse(""), Err(AdminError::NotFound));
    assert_eq!(Table::parse("Address"), Err(AdminError::NotFound));
    assert_eq!(Table::parse("auction_item"), Err(AdminError::NotFound));
    assert_eq!(Table::parse("addresses"), Err(AdminError::NotFound));
}

#[test]
fn names_and_labels() {
    assert_eq!(Table::AuctionItemDelivery.to_url_name(), "auction-item-delivery");
    assert_eq!(Table::AuctionItemDelivery.to_postgres_name(), "auction_item_delivery");
    assert_eq!(Table::AuctionItemDelivery.to_label(), "Auction Item Delivery");
    assert_eq!(Table::User.to_postgres_name(), "user");
    assert_eq!(Table::default(), Table::Organization);
}

#[test]
fn menu_lists_every_kind() {
    let menu = hooksaurus_admin::dispatch::table_menu();
    assert_eq!(menu.len(), 8);
    assert_eq!(menu[0], ("address".to_string(), "Address".to_string()));
    assert_eq!(menu[4], ("auction-item-bid".to_string(), "Auction Item Bid".to_string()));
}

#[test]
fn update_and_delete_are_not_implemented() {
    assert_eq!(change_outcome("address"), AdminError::NotImplemented);
    assert_eq!(change_outcome("bogus"), AdminError::NotFound);
}
