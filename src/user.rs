use vstd::prelude::*;

verus! {

/// The envelope of every user request and response.
#[derive(Clone, Debug, Default)]
pub struct UserBody<T> {
    pub user: T,
}

#[derive(Clone, Debug, Default)]
pub struct NewUser {
    pub username: String,
    pub email: String,
    pub password: String,
}

#[derive(Clone, Debug, Default)]
pub struct LoginUser {
    pub email: String,
    pub password: String,
}

/// A partial update: absent fields are left as they are.
#[derive(Clone, Debug, Default, PartialEq)]
pub struct UpdateUser {
    pub email: Option<String>,
    pub username: Option<String>,
    pub password: Option<String>,
    pub bio: Option<String>,
    pub role: String,
    pub image: Option<String>,
}

#[derive(Clone, Debug, Default, PartialEq)]
pub struct User {
    pub email: String,
    pub token: String,
    pub username: String,
    pub bio: String,
    pub role: String,
    pub image: Option<String>,
}

#[derive(Clone, Debug, PartialEq)]
pub struct ProfileInfo {
    pub username: String,
    pub bio: String,
    pub image: Option<String>,
}

#[derive(Clone, Debug, PartialEq)]
pub struct ProfileInfoWrapper {
    pub profile: ProfileInfo,
}

} // verus!
