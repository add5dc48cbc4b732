use vstd::prelude::*;
use vstd::string::{StrSliceExecFns, StringExecFns};

use crate::error::{AdminError, RequiredField};
use crate::forms::{
    form_markup, input_names, lemma_form_names_inputs, name_attr, no_values, FormField, FromForm,
    ToForm,
};
use crate::kind_forms::{
    address_fields_spec, address_values, auction_fields_spec, auction_values,
};
use crate::ids::{format_uuid, parse_uuid, uuid_parsed, uuid_text};
use crate::pagination::{
    default_pagination, limit_spec, next_page_spec, offset_spec, resolve_spec, Pagination,
};
use crate::records::{Address, AddressFromForm, AdminRow, Auction};
use crate::tables::{all_tables, label_of, parse_result, url_name_of, Table};
use crate::text::contains_run;

verus! {

/// The store could not complete an operation; what went wrong is kept out of responses.
#[derive(Clone, Copy, Debug, PartialEq, Eq, Structural)]
pub struct StoreError;

/// What to ask the store for to list one kind.
#[derive(Clone, Copy, Debug, PartialEq, Eq, Structural)]
pub struct ListRequest {
    pub table: Table,
    pub pagination: Pagination,
    pub limit: i64,
    pub offset: i64,
}

pub open spec fn list_request_of(t: Table, p: Pagination) -> ListRequest {
    ListRequest { table: t, pagination: p, limit: limit_spec(p), offset: offset_spec(p) }
}

/// What a listing shows.
#[derive(Clone, Debug)]
pub struct ListView {
    pub table_url_name: String,
    pub table_name: String,
    pub records: Vec<AdminRow>,
    pub next_page: usize,
}

/// What a form page shows: the action, the kind, the form and where it is sent.
#[derive(Clone, Debug)]
pub struct FormView {
    pub action: String,
    pub table_name: String,
    pub form: String,
    pub submit_url: String,
}

/// What to ask the store for to show one record.
#[derive(Clone, Copy, Debug, PartialEq, Eq, Structural)]
pub struct DetailRequest {
    pub table: Table,
    pub pk: u128,
}

/// A full record of a kind that has a form.
#[derive(Clone, Debug)]
pub enum EntityRecord {
    Address(Address),
    Auction(Auction),
}

/// The kinds whose forms are wired.
pub open spec fn has_form(t: Table) -> bool {
    t == Table::Address || t == Table::Auction
}

/// The kinds whose records can be inserted.
pub open spec fn has_insert(t: Table) -> bool {
    t == Table::Address
}

pub open spec fn empty_form_of(t: Table) -> Seq<char> {
    match t {
        Table::Address => <Address as ToForm>::empty_form_spec(),
        Table::Auction => <Auction as ToForm>::empty_form_spec(),
        _ => seq![],
    }
}

pub open spec fn record_table(rec: EntityRecord) -> Table {
    match rec {
        EntityRecord::Address(_) => Table::Address,
        EntityRecord::Auction(_) => Table::Auction,
    }
}

pub open spec fn filled_form_of(rec: EntityRecord) -> Seq<char> {
    match rec {
        EntityRecord::Address(a) => a.form_spec(),
        EntityRecord::Auction(a) => a.form_spec(),
    }
}

pub open spec fn insert_url(t: Table) -> Seq<char> {
    "/admin/tables/"@ + url_name_of(t) + "/insert"@
}

pub open spec fn record_url(t: Table, pk: u128) -> Seq<char> {
    "/admin/tables/"@ + url_name_of(t) + "/"@ + uuid_text(pk)
}

/// The rows a listing shows: what the store returned, at most one page of it.
pub open spec fn shown_rows(p: Pagination, rows: Seq<AdminRow>) -> Seq<AdminRow> {
    if rows.len() <= p.per_page {
        rows
    } else {
        rows.take(p.per_page as int)
    }
}

/// The first required input that a submitted address leaves empty.
pub open spec fn missing_required(f: AddressFromForm) -> Option<RequiredField> {
    if f.street_address1@.len() == 0 {
        Some(RequiredField::StreetAddress1)
    } else if f.city@.len() == 0 {
        Some(RequiredField::City)
    } else if f.state_province_county@.len() == 0 {
        Some(RequiredField::StateProvinceCounty)
    } else {
        None
    }
}

/// The navigation menu: each kind's URL name and label, in declaration order.
pub fn table_menu() -> (r: Vec<(String, String)>)
    ensures
        r@.len() == all_tables().len(),
        forall|i: int|
            0 <= i < r@.len() ==> (#[trigger] r@[i]).0@ == url_name_of(all_tables()[i]) && r@[i].1@
                == label_of(all_tables()[i]),
{
    let list = Table::get_table_list();
    let mut menu: Vec<(String, String)> = Vec::new();
    let mut i: usize = 0;
    while i < list.len()
        invariant
            list@ == all_tables(),
            i <= list@.len(),
            menu@.len() == i,
            forall|j: int|
                0 <= j < i ==> (#[trigger] menu@[j]).0@ == url_name_of(all_tables()[j]) && menu@[j].1@
                    == label_of(all_tables()[j]),
        decreases list@.len() - i,
    {
        let t = list[i];
        menu.push((String::from_str(t.to_url_name()), String::from_str(t.to_label())));
        i = i + 1;
    }
    menu
}

/// Updating or deleting a record is not offered for any kind yet: a known
/// kind gets `NotImplemented`, an unknown one `NotFound`.
pub fn change_outcome(kind_slug: &str) -> (r: AdminError)
    ensures
        r == match parse_result(kind_slug@) {
            Ok(_) => AdminError::NotImplemented,
            Err(e) => e,
        },
{
    match Table::parse(kind_slug) {
        Ok(_) => AdminError::NotImplemented,
        Err(e) => e,
    }
}

/// Whether a kind's form is wired.
pub fn form_wired(t: Table) -> (r: bool)
    ensures
        r == has_form(t),
{
    match t {
        Table::Address | Table::Auction => true,
        _ => false,
    }
}

/// A listing of a kind named by untrusted route text, with raw paging values.
pub fn plan_list(kind_slug: &str, page: Option<i64>, per_page: Option<i64>) -> (r: Result<
    ListRequest,
    AdminError,
>)
    ensures
        r == match parse_result(kind_slug@) {
            Ok(t) => Ok(list_request_of(t, resolve_spec(page, per_page))),
            Err(e) => Err::<ListRequest, AdminError>(e),
        },
{
    let table = Table::parse(kind_slug)?;
    Ok(list_for(table, Pagination::resolve(page, per_page)))
}

fn list_for(table: Table, pagination: Pagination) -> (r: ListRequest)
    ensures
        r == list_request_of(table, pagination),
{
    ListRequest { table, pagination, limit: pagination.limit(), offset: pagination.offset() }
}

/// The listing view once the store has answered; a failed store call shows no rows.
pub fn finish_list(req: &ListRequest, rows: Result<Vec<AdminRow>, StoreError>) -> (r: ListView)
    ensures
        r.table_url_name@ == url_name_of(req.table),
        r.table_name@ == label_of(req.table),
        r.next_page == next_page_spec(req.pagination),
        r.records@ == match rows {
            Ok(v) => shown_rows(req.pagination, v@),
            Err(_) => Seq::<AdminRow>::empty(),
        },
{
    let records = match rows {
        Ok(v) => {
            let mut v = v;
            v.truncate(req.pagination.per_page);
            v
        },
        Err(_) => Vec::new(),
    };
    ListView {
        table_url_name: String::from_str(req.table.to_url_name()),
        table_name: String::from_str(req.table.to_label()),
        records,
        next_page: req.pagination.next_page(),
    }
}

fn empty_form(t: Table) -> (r: String)
    requires
        has_form(t),
    ensures
        r@ == empty_form_of(t),
{
    match t {
        Table::Address => <Address as ToForm>::to_empty_form(),
        _ => <Auction as ToForm>::to_empty_form(),
    }
}

fn insert_url_text(t: Table) -> (r: String)
    ensures
        r@ == insert_url(t),
{
    let mut url = String::from_str("/admin/tables/");
    url.append(t.to_url_name());
    url.append("/insert");
    url
}

/// The empty insert form of a kind named by untrusted route text.
pub fn insert_form_view(kind_slug: &str) -> (r: Result<FormView, AdminError>)
    ensures
        match parse_result(kind_slug@) {
            Err(e) => r == Err::<FormView, AdminError>(e),
            Ok(t) => if !has_form(t) {
                r == Err::<FormView, AdminError>(AdminError::NotImplemented)
            } else {
                &&& r is Ok
                &&& r->Ok_0.action@ == "Insert"@
                &&& r->Ok_0.table_name@ == label_of(t)
                &&& r->Ok_0.form@ == empty_form_of(t)
                &&& r->Ok_0.submit_url@ == insert_url(t)
            },
        },
{
    let table = Table::parse(kind_slug)?;
    if !form_wired(table) {
        return Err(AdminError::NotImplemented);
    }
    Ok(
        FormView {
            action: String::from_str("Insert"),
            table_name: String::from_str(table.to_label()),
            form: empty_form(table),
            submit_url: insert_url_text(table),
        },
    )
}

/// Checks a submitted address form for a kind named by untrusted route text;
/// `Ok` gives the kind to insert into.
pub fn plan_insert(kind_slug: &str, form: &AddressFromForm) -> (r: Result<Table, AdminError>)
    ensures
        r == match parse_result(kind_slug@) {
            Err(e) => Err::<Table, AdminError>(e),
            Ok(t) => if !has_insert(t) {
                Err(AdminError::NotImplemented)
            } else {
                match missing_required(*form) {
                    Some(f) => Err(AdminError::Validation(f)),
                    None => Ok(t),
                }
            },
        },
{
    let table = Table::parse(kind_slug)?;
    match table {
        Table::Address => {},
        _ => return Err(AdminError::NotImplemented),
    }
    if form.street_address1.as_str().unicode_len() == 0 {
        Err(AdminError::Validation(RequiredField::StreetAddress1))
    } else if form.city.as_str().unicode_len() == 0 {
        Err(AdminError::Validation(RequiredField::City))
    } else if form.state_province_county.as_str().unicode_len() == 0 {
        Err(AdminError::Validation(RequiredField::StateProvinceCounty))
    } else {
        Ok(table)
    }
}

/// The form shown again, with what was submitted, after a validation error.
pub fn resubmit_view(form: &AddressFromForm) -> (r: FormView)
    ensures
        r.action@ == "Insert"@,
        r.table_name@ == label_of(Table::Address),
        r.form@ == form.form_spec(),
        r.submit_url@ == insert_url(Table::Address),
{
    FormView {
        action: String::from_str("Insert"),
        table_name: String::from_str(Table::Address.to_label()),
        form: form.to_form(),
        submit_url: insert_url_text(Table::Address),
    }
}

/// After an insert: on success the same kind is listed again from the first
/// page, so the new record is read back in the same response.
pub fn finish_insert(table: Table, stored: Result<(), StoreError>) -> (r: Result<
    ListRequest,
    AdminError,
>)
    ensures
        r == match stored {
            Ok(_) => Ok(list_request_of(table, default_pagination())),
            Err(_) => Err::<ListRequest, AdminError>(AdminError::Storage),
        },
{
    match stored {
        Ok(_) => Ok(list_for(table, Pagination::default())),
        Err(_) => Err(AdminError::Storage),
    }
}

/// A detail request for a kind, given the primary key as read from the route.
pub fn detail_request(table: Table, pk: Option<u128>) -> (r: Result<DetailRequest, AdminError>)
    ensures
        r == if !has_form(table) {
            Err::<DetailRequest, AdminError>(AdminError::NotImplemented)
        } else {
            match pk {
                Some(v) => Ok(DetailRequest { table, pk: v }),
                None => Err(AdminError::NotFound),
            }
        },
{
    if !form_wired(table) {
        return Err(AdminError::NotImplemented);
    }
    match pk {
        Some(v) => Ok(DetailRequest { table, pk: v }),
        None => Err(AdminError::NotFound),
    }
}

/// A detail request from untrusted route text: the kind, then the primary key.
pub fn plan_get_one(kind_slug: &str, pk: &str) -> (r: Result<DetailRequest, AdminError>)
    ensures
        r == match parse_result(kind_slug@) {
            Err(e) => Err::<DetailRequest, AdminError>(e),
            Ok(t) => if !has_form(t) {
                Err(AdminError::NotImplemented)
            } else {
                match uuid_parsed(pk@) {
                    Some(v) => Ok(DetailRequest { table: t, pk: v }),
                    None => Err(AdminError::NotFound),
                }
            },
        },
{
    let table = Table::parse(kind_slug)?;
    if !form_wired(table) {
        return Err(AdminError::NotImplemented);
    }
    detail_request(table, parse_uuid(pk))
}

/// The filled form of one record once the store has answered.
pub fn finish_get_one(req: &DetailRequest, found: Result<Option<EntityRecord>, StoreError>) -> (r:
    Result<FormView, AdminError>)
    ensures
        match found {
            Err(_) => r == Err::<FormView, AdminError>(AdminError::Storage),
            Ok(None) => r == Err::<FormView, AdminError>(AdminError::NotFound),
            Ok(Some(rec)) => if record_table(rec) != req.table {
                r == Err::<FormView, AdminError>(AdminError::NotFound)
            } else {
                &&& r is Ok
                &&& r->Ok_0.action@ == "Update"@
                &&& r->Ok_0.table_name@ == label_of(req.table)
                &&& r->Ok_0.form@ == filled_form_of(rec)
                &&& r->Ok_0.submit_url@ == record_url(req.table, req.pk)
            },
        },
{
    let rec = match found {
        Err(_) => return Err(AdminError::Storage),
        Ok(None) => return Err(AdminError::NotFound),
        Ok(Some(rec)) => rec,
    };
    let form = match (&rec, req.table) {
        (EntityRecord::Address(a), Table::Address) => a.to_form(),
        (EntityRecord::Auction(a), Table::Auction) => a.to_form(),
        _ => return Err(AdminError::NotFound),
    };
    let mut url = String::from_str("/admin/tables/");
    url.append(req.table.to_url_name());
    url.append("/");
    let id = format_uuid(req.pk);
    url.append(id.as_str());
    Ok(
        FormView {
            action: String::from_str("Update"),
            table_name: String::from_str(req.table.to_label()),
            form,
            submit_url: url,
        },
    )
}

/// The inputs of a kind's form.
pub open spec fn form_fields_of(t: Table) -> Seq<FormField> {
    match t {
        Table::Address => address_fields_spec(),
        Table::Auction => auction_fields_spec(),
        _ => seq![],
    }
}

/// The empty form of a kind and the form filled from any of its records have
/// the same inputs: for each name of the kind's fields, both hold an input of
/// that name, and neither is built from any other field list.
pub proof fn lemma_forms_share_inputs(rec: EntityRecord, n: Seq<char>)
    requires
        input_names(form_fields_of(record_table(rec))).contains(n),
    ensures
        contains_run(empty_form_of(record_table(rec)), name_attr(n)),
        contains_run(filled_form_of(rec), name_attr(n)),
        empty_form_of(record_table(rec)) == form_markup(
            form_fields_of(record_table(rec)),
            no_values(form_fields_of(record_table(rec)).len()),
        ),
        filled_form_of(rec) == form_markup(
            form_fields_of(record_table(rec)),
            match rec {
                EntityRecord::Address(a) => address_values(a),
                EntityRecord::Auction(a) => auction_values(a),
            },
        ),
{
    let fields = form_fields_of(record_table(rec));
    let k = choose|k: int| 0 <= k < input_names(fields).len() && input_names(fields)[k] == n;
    assert(fields[k].name@ == n);
    let vals = match rec {
        EntityRecord::Address(a) => address_values(a),
        EntityRecord::Auction(a) => auction_values(a),
    };
    lemma_form_names_inputs(fields, no_values(fields.len()), k);
    lemma_form_names_inputs(fields, vals, k);
}

} // verus!
