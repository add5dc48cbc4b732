use hooksaurus_admin::dispatch::{
    finish_get_one, finish_insert, finish_list, insert_form_view, plan_get_one, plan_insert,
    plan_list, resubmit_view, EntityRecord, ListRequest, StoreError,
};
use hooksaurus_admin::error::{AdminError, RequiredField};
use hooksaurus_admin::ids::{AddressId, AuctionId, Etag, OrganizationId, Timestamp};
use hooksaurus_admin::pagination::Pagination;
use hooksaurus_admin::records::{Address, AddressFromForm, AdminRow, Auction};
use hooksaurus_admin::tables::Table;

fn address(n: u128, street: &str) -> Address {
    Address {
        address_id: AddressId(n),
        street_address1: street.to_string(),
        street_address2: None,
        street_address3: None,
        city: "Springfield".to_string(),
        state_province_county: "OR".to_string(),
        postal_code: Some("97477".to_string()),
        country_code: None,
        latitude: None,
        longitude: None,
        created_at: Timestamp { unix_nanos: 0 },
        updated_at: Timestamp { unix_nanos: 0 },
        etag: Etag(n),
    }
}

fn submitted(street: &str) -> AddressFromForm {
    AddressFromForm {
        street_address1: street.to_string(),
        street_address2: None,
        street_address3: None,
        city: "Springfield".to_string(),
        state_province_county: "OR".to_string(),
        postal_code: None,
        country_code: None,
        latitude: Some("44.05".to_string()),
        longitude: None,
    }
}

/// A store of addresses held in memory, answering limit/offset queries.
struct MemoryStore {
    addresses: Vec<Address>,
}

impl MemoryStore {
    fn fetch(&self, req: &ListRequest) -> Result<Vec<AdminRow>, StoreError> {
        assert_eq!(req.table, Table::Address);
        Ok(self
            .addresses
            .iter()
            .skip(req.offset as usize)
            .take(req.limit as usize)
            .map(|a| a.admin_row())
            .collect())
    }

    fn insert(&mut self, form: &AddressFromForm) -> Result<(), StoreError> {
        let n = self.addresses.len() as u128 + 1;
        let mut a = address(n, &form.street_address1);
        a.postal_code = form.postal_code.clone();
        self.addresses.push(a);
        Ok(())
    }
}

fn store_with(n: u128) -> MemoryStore {
    MemoryStore { addresses: (1..=n).map(|i| address(i, &format!("{} Main St", i))).collect() }
}

#[test]
fn list_two_of_five_addresses() {
    let store = store_with(5);
    let req = plan_list("address", Some(0), Some(2)).unwrap();
    assert_eq!(req.limit, 2);
    assert_eq!(req.offset, 0);
    let view = finish_list(&req, store.fetch(&req));
    assert_eq!(view.records.len(), 2);
    assert_eq!(view.next_page, 1);
    assert_eq!(view.table_url_name, "address");
    assert_eq!(view.table_name, "Address");
    assert_eq!(view.records[0].name, "1 Main St, Springfield, OR, 97477");
}

#[test]
fn last_short_page_still_offers_next() {
    let store = store_with(5);
    let req = plan_list("address", Some(2), Some(2)).unwrap();
    assert_eq!(req.offset, 4);
    let view = finish_list(&req, store.fetch(&req));
    assert_eq!(view.records.len(), 1);
    assert_eq!(view.next_page, 3);
}

#[test]
fn listing_never_exceeds_one_page() {
    let req = plan_list("organization", Some(0), Some(1)).unwrap();
    let rows = vec![address(1, "a").admin_row(), address(2, "b").admin_row()];
    let view = finish_list(&req, Ok(rows));
    assert_eq!(view.records.len(), 1);
}

#[test]
fn bogus_kind_is_not_found() {
    assert_eq!(plan_list("bogus", None, None), Err(AdminError::NotFound));
    assert!(matches!(insert_form_view("bogus"), Err(AdminError::NotFound)));
    assert_eq!(plan_get_one("bogus", "67e55044-10b1-426f-9247-bb680e5fe0c8"), Err(AdminError::NotFound));
}

#[test]
fn store_failure_degrades_to_empty_listing() {
    let req = plan_list("user", None, None).unwrap();
    assert_eq!(req.pagination, Pagination { page: 0, per_page: 30 });
    let view = finish_list(&req, Err(StoreError));
    assert!(view.records.is_empty());
    assert_eq!(view.next_page, 1);
    assert_eq!(view.table_name, "User");
}

#[test]
fn insert_then_list_shows_new_row() {
    let mut store = store_with(0);
    let form = submitted("12 Elm Rd");
    let table = plan_insert("address", &form).unwrap();
    assert_eq!(table, Table::Address);
    let stored = store.insert(&form);
    let req = finish_insert(table, stored).unwrap();
    assert_eq!(req.pagination, Pagination { page: 0, per_page: 30 });
    let view = finish_list(&req, store.fetch(&req));
    assert_eq!(view.records.len(), 1);
    assert_eq!(view.records[0].name, "12 Elm Rd, Springfield, OR");

    let again = finish_list(&plan_list("address", None, None).unwrap(), store.fetch(&req));
    assert_eq!(again.records[0].name, "12 Elm Rd, Springfield, OR");
}

#[test]
fn insert_failure_is_storage_error() {
    assert_eq!(finish_insert(Table::Address, Err(StoreError)), Err(AdminError::Storage));
}

#[test]
fn insert_validation() {
    assert_eq!(plan_insert("address", &submitted("")), Err(AdminError::Validation(RequiredField::StreetAddress1)));
    let mut f = submitted("1 A St");
    f.city = String::new();
    assert_eq!(plan_insert("address", &f), Err(AdminError::Validation(RequiredField::City)));
    f.city = "X".to_string();
    f.state_province_county = String::new();
    assert_eq!(plan_insert("address", &f), Err(AdminError::Validation(RequiredField::StateProvinceCounty)));
    assert_eq!(plan_insert("article", &submitted("1 A St")), Err(AdminError::NotImplemented));
    assert_eq!(plan_insert("nope", &submitted("1 A St")), Err(AdminError::NotFound));
}

#[test]
fn resubmitted_form_keeps_values() {
    let mut f = submitted("1 <b>A</b> St");
    f.city = String::new();
    let view = resubmit_view(&f);
    assert_eq!(view.submit_url, "/admin/tables/address/insert");
    assert!(view.form.contains("value=\"1 &lt;b&gt;A&lt;/b&gt; St\""));
    assert!(view.form.contains("name=\"latitude\" placeholder=\"Latitude\" value=\"44.05\""));
}

#[test]
fn unwired_insert_form_is_not_implemented() {
    assert!(matches!(insert_form_view("article"), Err(AdminError::NotImplemented)));
    assert!(matches!(insert_form_view("user"), Err(AdminError::NotImplemented)));
}

#[test]
fn address_insert_form() {
    let view = insert_form_view("address").unwrap();
    assert_eq!(view.action, "Insert");
    assert_eq!(view.table_name, "Address");
    assert_eq!(view.submit_url, "/admin/tables/address/insert");
    assert!(view.form.contains("name=\"street_address1\""));
    assert!(!view.form.contains("value="));
    assert!(!view.form.contains("name=\"title\""));
}

#[test]
fn auction_insert_form() {
    let view = insert_form_view("auction").unwrap();
    assert_eq!(view.table_name, "Auction");
    assert!(view.form.contains("<label class=\"uk-form-label\">Start Date</label>"));
    assert!(view.form.contains(
        "<textarea class=\"uk-textarea\" rows=\"5\" name=\"description\" placeholder=\"description\"></textarea>"
    ));
}

#[test]
fn detail_request_checks() {
    let pk = "67e55044-10b1-426f-9247-bb680e5fe0c8";
    let req = plan_get_one("address", pk).unwrap();
    assert_eq!(req.table, Table::Address);
    assert_eq!(req.pk, 0x67e5504410b1426f9247bb680e5fe0c8);
    assert_eq!(plan_get_one("address", "not-a-uuid"), Err(AdminError::NotFound));
    assert_eq!(plan_get_one("user", pk), Err(AdminError::NotImplemented));
}

#[test]
fn detail_of_address() {
    let req = plan_get_one("address", "00000000-0000-0000-0000-00000000002a").unwrap();
    let mut a = address(42, "9 \"Quote\" Ln");
    a.latitude = Some("-12.5".to_string());
    let view = finish_get_one(&req, Ok(Some(EntityRecord::Address(a)))).unwrap();
    assert_eq!(view.action, "Update");
    assert_eq!(view.submit_url, "/admin/tables/address/00000000-0000-0000-0000-00000000002a");
    assert!(view.form.contains("value=\"9 &quot;Quote&quot; Ln\""));
    assert!(view.form.contains("name=\"street_address2\" placeholder=\"Street address Line 2\" value=\"\""));
    assert!(view.form.contains("name=\"latitude\" placeholder=\"Latitude\" value=\"-12.5\""));
    assert!(view.form.contains("name=\"longitude\" placeholder=\"Longitude\" value=\"\""));
    assert!(!view.form.contains("None"));
    assert!(!view.form.contains("null"));
}

#[test]
fn detail_outcomes() {
    let req = plan_get_one("address", "00000000-0000-0000-0000-000000000001").unwrap();
    assert!(matches!(finish_get_one(&req, Ok(None)), Err(AdminError::NotFound)));
    assert!(matches!(finish_get_one(&req, Err(StoreError)), Err(AdminError::Storage)));
}

#[test]
fn detail_of_auction_formats_dates_and_ids() {
    let req = plan_get_one("auction", "a1a2a3a4-b1b2-c1c2-d1d2-d3d4d5d6d7d8").unwrap();
    assert_eq!(req.pk, 0xa1a2a3a4b1b2c1c2d1d2d3d4d5d6d7d8);
    let auction = Auction {
        auction_id: AuctionId(req.pk),
        title: "Spring & Summer".to_string(),
        description: "<ok>".to_string(),
        start_date: Timestamp { unix_nanos: 1_700_000_000_000_000_000 },
        end_date: Timestamp { unix_nanos: 0 },
        benefits_organization_id: Some(OrganizationId(0xff)),
        created_at: Timestamp { unix_nanos: 0 },
        updated_at: Timestamp { unix_nanos: 0 },
        etag: Etag(1),
    };
    let view = finish_get_one(&req, Ok(Some(EntityRecord::Auction(auction)))).unwrap();
    assert_eq!(view.submit_url, "/admin/tables/auction/a1a2a3a4-b1b2-c1c2-d1d2-d3d4d5d6d7d8");
    assert!(view.form.contains("value=\"Spring &amp; Summer\""));
    assert!(view.form.contains(">&lt;ok&gt;</textarea>"));
    assert!(view.form.contains("name=\"start_date\" placeholder=\"\" required value=\"2023-11-14T22:13:20Z\""));
    assert!(view.form.contains("name=\"end_date\" placeholder=\"\" required value=\"1970-01-01T00:00:00Z\""));
    assert!(view.form.contains("value=\"00000000-0000-0000-0000-0000000000ff\""));
}

#[test]
fn detail_record_of_other_kind_is_not_found() {
    let req = plan_get_one("auction", "00000000-0000-0000-0000-000000000001").unwrap();
    let rec = EntityRecord::Address(address(1, "x"));
    assert!(matches!(finish_get_one(&req, Ok(Some(rec))), Err(AdminError::NotFound)));
}
