use vstd::prelude::*;
use vstd::string::StringExecFns;

use crate::ids::{AddressId, AuctionId, Etag, OrganizationId, Timestamp};
use crate::text::join_with;

verus! {

/// One stored address.
#[derive(Clone, Debug)]
pub struct Address {
    pub address_id: AddressId,
    pub street_address1: String,
    pub street_address2: Option<String>,
    pub street_address3: Option<String>,
    pub city: String,
    pub state_province_county: String,
    pub postal_code: Option<String>,
    pub country_code: Option<String>,
    /// Decimal text of the latitude, as stored.
    pub latitude: Option<String>,
    /// Decimal text of the longitude, as stored.
    pub longitude: Option<String>,
    pub created_at: Timestamp,
    pub updated_at: Timestamp,
    pub etag: Etag,
}

/// The caller-suppliable part of an address, as submitted on a form.
#[derive(Clone, Debug)]
pub struct AddressFromForm {
    pub street_address1: String,
    pub street_address2: Option<String>,
    pub street_address3: Option<String>,
    pub city: String,
    pub state_province_county: String,
    pub postal_code: Option<String>,
    pub country_code: Option<String>,
    pub latitude: Option<String>,
    pub longitude: Option<String>,
}

/// One stored auction.
#[derive(Clone, Debug)]
pub struct Auction {
    pub auction_id: AuctionId,
    pub title: String,
    pub description: String,
    pub start_date: Timestamp,
    pub end_date: Timestamp,
    pub benefits_organization_id: Option<OrganizationId>,
    pub created_at: Timestamp,
    pub updated_at: Timestamp,
    pub etag: Etag,
}

#[derive(Clone, Copy, Debug, PartialEq, Eq, Structural)]
pub enum OrgType {
    Business,
    FarmAnimalSanctuary,
    NonProfit,
}

/// One stored organization.
#[derive(Clone, Debug)]
pub struct Organization {
    pub organization_id: OrganizationId,
    pub org_type: OrgType,
    pub name: String,
    pub description: Option<String>,
    pub image: Option<String>,
    pub email: String,
    pub website: String,
    pub contact_name: Option<String>,
    pub phone_number: Option<String>,
    pub alt_phone_number: Option<String>,
    pub primary_address_id: AddressId,
    pub created_at: Timestamp,
    pub updated_at: Timestamp,
    pub etag: Etag,
}

/// The uniform listing row of any kind.
#[derive(Clone, Debug)]
pub struct AdminRow {
    pub pk: u128,
    pub name: String,
    pub created_at: Timestamp,
    pub updated_at: Timestamp,
}

/// The parts of an address's display name: street, city, region and, where
/// there is one, postal code.
pub open spec fn address_name_parts(a: Address) -> Seq<Seq<char>> {
    let base = seq![a.street_address1@, a.city@, a.state_province_county@];
    match a.postal_code {
        Some(p) => base.push(p@),
        None => base,
    }
}

/// An address is listed by its parts joined with ", ".
pub open spec fn address_display_name(a: Address) -> Seq<char> {
    join_with(address_name_parts(a), ", "@)
}

impl Address {
    pub fn admin_row(&self) -> (r: AdminRow)
        ensures
            r.pk == self.address_id.0,
            r.name@ == address_display_name(*self),
            r.created_at == self.created_at,
            r.updated_at == self.updated_at,
    {
        let ghost parts = address_name_parts(*self);
        let mut name = self.street_address1.clone();
        name.append(", ");
        name.append(self.city.as_str());
        name.append(", ");
        name.append(self.state_province_county.as_str());
        proof {
            let three = seq![self.street_address1@, self.city@, self.state_province_county@];
            let two = seq![self.street_address1@, self.city@];
            let one = seq![self.street_address1@];
            assert(two.drop_last() =~= one);
            assert(three.drop_last() =~= two);
            assert(join_with(one, ", "@) == self.street_address1@);
            assert(join_with(two, ", "@) == self.street_address1@ + ", "@ + self.city@);
            assert(join_with(three, ", "@) =~= name@);
        }
        match &self.postal_code {
            Some(p) => {
                name.append(", ");
                name.append(p.as_str());
                proof {
                    let three = seq![self.street_address1@, self.city@, self.state_province_county@];
                    assert(parts.drop_last() =~= three);
                }
            },
            None => {},
        }
        AdminRow {
            pk: self.address_id.0,
            name,
            created_at: self.created_at,
            updated_at: self.updated_at,
        }
    }
}

impl Auction {
    /// An auction is listed by its title.
    pub fn admin_row(&self) -> (r: AdminRow)
        ensures
            r.pk == self.auction_id.0,
            r.name@ == self.title@,
            r.created_at == self.created_at,
            r.updated_at == self.updated_at,
    {
        AdminRow {
            pk: self.auction_id.0,
            name: self.title.clone(),
            created_at: self.created_at,
            updated_at: self.updated_at,
        }
    }
}

impl Organization {
    /// An organization is listed by its name.
    pub fn admin_row(&self) -> (r: AdminRow)
        ensures
            r.pk == self.organization_id.0,
            r.name@ == self.name@,
            r.created_at == self.created_at,
            r.updated_at == self.updated_at,
    {
        AdminRow {
            pk: self.organization_id.0,
            name: self.name.clone(),
            created_at: self.created_at,
            updated_at: self.updated_at,
        }
    }
}

} // verus!
