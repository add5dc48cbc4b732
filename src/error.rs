use vstd::prelude::*;

verus! {

/// A required input that was left empty on a submitted form.
#[derive(Clone, Copy, Debug, PartialEq, Eq, Structural)]
pub enum RequiredField {
    StreetAddress1,
    City,
    StateProvinceCounty,
}

/// The four outcomes that the admin surface shows a caller instead of a page.
#[derive(Clone, Copy, Debug, PartialEq, Eq, Structural)]
pub enum AdminError {
    /// An unknown entity kind, or a record that does not exist.
    NotFound,
    /// A registered entity kind whose operation is not wired yet.
    NotImplemented,
    /// A submitted form lacks a required value.
    Validation(RequiredField),
    /// The store failed; the detail stays out of the response.
    Storage,
}

} // verus!
