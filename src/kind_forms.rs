use vstd::prelude::*;

use crate::forms::{
    as_text, form_markup, no_values, opt_view, render_form, text_or_empty, FormField,
    FromForm, InputKind, ToForm,
};
use crate::ids::{format_rfc3339, format_uuid, rfc3339_text, uuid_text};
use crate::records::{Address, AddressFromForm, Auction};

verus! {

pub open spec fn address_fields_spec() -> Seq<FormField> {
    seq![
        FormField { name: "street_address1", label: "", placeholder: "Street address Line 1", kind: InputKind::Text, required: true },
        FormField { name: "street_address2", label: "", placeholder: "Street address Line 2", kind: InputKind::Text, required: false },
        FormField { name: "street_address3", label: "", placeholder: "Street address Line 3", kind: InputKind::Text, required: false },
        FormField { name: "city", label: "", placeholder: "City", kind: InputKind::Text, required: true },
        FormField { name: "state_province_county", label: "", placeholder: "State, Province, or County", kind: InputKind::Text, required: true },
        FormField { name: "postal_code", label: "", placeholder: "Postal Code", kind: InputKind::Text, required: false },
        FormField { name: "country_code", label: "", placeholder: "Country", kind: InputKind::Text, required: false },
        FormField { name: "latitude", label: "", placeholder: "Latitude", kind: InputKind::Number, required: false },
        FormField { name: "longitude", label: "", placeholder: "Longitude", kind: InputKind::Number, required: false },
    ]
}

pub open spec fn auction_fields_spec() -> Seq<FormField> {
    seq![
        FormField { name: "title", label: "", placeholder: "Auction Title", kind: InputKind::Text, required: true },
        FormField { name: "description", label: "", placeholder: "description", kind: InputKind::TextArea, required: false },
        FormField { name: "start_date", label: "Start Date", placeholder: "", kind: InputKind::DateTimeLocal, required: true },
        FormField { name: "end_date", label: "End Date", placeholder: "", kind: InputKind::DateTimeLocal, required: true },
        FormField { name: "benefits_organization_id", label: "Auction Benefits Organization", placeholder: "Shore Sanctuary", kind: InputKind::Text, required: true },
    ]
}

/// The inputs of the address form, in order.
pub fn address_fields() -> (r: Vec<FormField>)
    ensures
        r@ == address_fields_spec(),
{
    let r = vec![
        FormField { name: "street_address1", label: "", placeholder: "Street address Line 1", kind: InputKind::Text, required: true },
        FormField { name: "street_address2", label: "", placeholder: "Street address Line 2", kind: InputKind::Text, required: false },
        FormField { name: "street_address3", label: "", placeholder: "Street address Line 3", kind: InputKind::Text, required: false },
        FormField { name: "city", label: "", placeholder: "City", kind: InputKind::Text, required: true },
        FormField { name: "state_province_county", label: "", placeholder: "State, Province, or County", kind: InputKind::Text, required: true },
        FormField { name: "postal_code", label: "", placeholder: "Postal Code", kind: InputKind::Text, required: false },
        FormField { name: "country_code", label: "", placeholder: "Country", kind: InputKind::Text, required: false },
        FormField { name: "latitude", label: "", placeholder: "Latitude", kind: InputKind::Number, required: false },
        FormField { name: "longitude", label: "", placeholder: "Longitude", kind: InputKind::Number, required: false },
    ];
    assert(r@ =~= address_fields_spec());
    r
}

/// The inputs of the auction form, in order.
pub fn auction_fields() -> (r: Vec<FormField>)
    ensures
        r@ == auction_fields_spec(),
{
    let r = vec![
        FormField { name: "title", label: "", placeholder: "Auction Title", kind: InputKind::Text, required: true },
        FormField { name: "description", label: "", placeholder: "description", kind: InputKind::TextArea, required: false },
        FormField { name: "start_date", label: "Start Date", placeholder: "", kind: InputKind::DateTimeLocal, required: true },
        FormField { name: "end_date", label: "End Date", placeholder: "", kind: InputKind::DateTimeLocal, required: true },
        FormField { name: "benefits_organization_id", label: "Auction Benefits Organization", placeholder: "Shore Sanctuary", kind: InputKind::Text, required: true },
    ];
    assert(r@ =~= auction_fields_spec());
    r
}

/// The values an address fills in; an absent one shows as empty text.
pub open spec fn address_values(a: Address) -> Seq<Option<Seq<char>>> {
    seq![
        Some(a.street_address1@),
        Some(text_or_empty(a.street_address2)),
        Some(text_or_empty(a.street_address3)),
        Some(a.city@),
        Some(a.state_province_county@),
        Some(text_or_empty(a.postal_code)),
        Some(text_or_empty(a.country_code)),
        Some(text_or_empty(a.latitude)),
        Some(text_or_empty(a.longitude)),
    ]
}

/// The values a submitted address form fills back in.
pub open spec fn submitted_address_values(a: AddressFromForm) -> Seq<Option<Seq<char>>> {
    seq![
        Some(a.street_address1@),
        Some(text_or_empty(a.street_address2)),
        Some(text_or_empty(a.street_address3)),
        Some(a.city@),
        Some(a.state_province_county@),
        Some(text_or_empty(a.postal_code)),
        Some(text_or_empty(a.country_code)),
        Some(text_or_empty(a.latitude)),
        Some(text_or_empty(a.longitude)),
    ]
}

/// The values an auction fills in: dates in RFC 3339 form, the organization
/// by its hyphenated id, or empty where there is none.
pub open spec fn auction_values(a: Auction) -> Seq<Option<Seq<char>>> {
    seq![
        Some(a.title@),
        Some(a.description@),
        Some(rfc3339_text(a.start_date.unix_nanos)),
        Some(rfc3339_text(a.end_date.unix_nanos)),
        Some(
            match a.benefits_organization_id {
                Some(id) => uuid_text(id.0),
                None => seq![],
            },
        ),
    ]
}

fn empty_values(n: usize) -> (r: Vec<Option<&'static str>>)
    ensures
        r@.map_values(|o: Option<&str>| opt_view(o)) == no_values(n as nat),
        r@.len() == n,
{
    let mut r: Vec<Option<&'static str>> = Vec::new();
    let mut i: usize = 0;
    while i < n
        invariant
            i <= n,
            r@.len() == i,
            forall|j: int| 0 <= j < i ==> r@[j] is None,
        decreases n - i,
    {
        r.push(None);
        i = i + 1;
    }
    assert(r@.map_values(|o: Option<&str>| opt_view(o)) =~= no_values(n as nat));
    r
}

impl ToForm for Address {
    open spec fn form_spec(&self) -> Seq<char> {
        form_markup(address_fields_spec(), address_values(*self))
    }

    open spec fn empty_form_spec() -> Seq<char> {
        form_markup(address_fields_spec(), no_values(9))
    }

    fn to_form(&self) -> (r: String) {
        let fields = address_fields();
        let values: Vec<Option<&str>> = vec![
            Some(self.street_address1.as_str()),
            Some(as_text(&self.street_address2)),
            Some(as_text(&self.street_address3)),
            Some(self.city.as_str()),
            Some(self.state_province_county.as_str()),
            Some(as_text(&self.postal_code)),
            Some(as_text(&self.country_code)),
            Some(as_text(&self.latitude)),
            Some(as_text(&self.longitude)),
        ];
        assert(values@.map_values(|o: Option<&str>| opt_view(o)) =~= address_values(*self));
        render_form(&fields, &values)
    }

    fn to_empty_form() -> (r: String) {
        let fields = address_fields();
        let values = empty_values(9);
        render_form(&fields, &values)
    }
}

impl FromForm for AddressFromForm {
    open spec fn form_spec(&self) -> Seq<char> {
        form_markup(address_fields_spec(), submitted_address_values(*self))
    }

    open spec fn empty_form_spec() -> Seq<char> {
        form_markup(address_fields_spec(), no_values(9))
    }

    fn to_form(&self) -> (r: String) {
        let fields = address_fields();
        let values: Vec<Option<&str>> = vec![
            Some(self.street_address1.as_str()),
            Some(as_text(&self.street_address2)),
            Some(as_text(&self.street_address3)),
            Some(self.city.as_str()),
            Some(self.state_province_county.as_str()),
            Some(as_text(&self.postal_code)),
            Some(as_text(&self.country_code)),
            Some(as_text(&self.latitude)),
            Some(as_text(&self.longitude)),
        ];
        assert(values@.map_values(|o: Option<&str>| opt_view(o)) =~= submitted_address_values(
            *self,
        ));
        render_form(&fields, &values)
    }

    fn to_empty_form() -> (r: String) {
        let fields = address_fields();
        let values = empty_values(9);
        render_form(&fields, &values)
    }
}

impl ToForm for Auction {
    open spec fn form_spec(&self) -> Seq<char> {
        form_markup(auction_fields_spec(), auction_values(*self))
    }

    open spec fn empty_form_spec() -> Seq<char> {
        form_markup(auction_fields_spec(), no_values(5))
    }

    fn to_form(&self) -> (r: String) {
        let fields = auction_fields();
        let start = format_rfc3339(self.start_date.unix_nanos);
        let end = format_rfc3339(self.end_date.unix_nanos);
        let org = match &self.benefits_organization_id {
            Some(id) => format_uuid(id.0),
            None => String::new(),
        };
        let values: Vec<Option<&str>> = vec![
            Some(self.title.as_str()),
            Some(self.description.as_str()),
            Some(start.as_str()),
            Some(end.as_str()),
            Some(org.as_str()),
        ];
        assert(values@.map_values(|o: Option<&str>| opt_view(o)) =~= auction_values(*self));
        render_form(&fields, &values)
    }

    fn to_empty_form() -> (r: String) {
        let fields = auction_fields();
        let values = empty_values(5);
        render_form(&fields, &values)
    }
}

} // verus!
