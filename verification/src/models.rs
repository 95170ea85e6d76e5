//! The user records and the request and response bodies of the user API.
use vstd::prelude::*;

verus! {

/// A stored user. Times are microseconds since the Unix epoch.
#[derive(Debug, Clone, PartialEq, Eq)]
pub struct User {
    pub id: u128,
    pub email: String,
    pub username: String,
    pub password_hash: String,
    pub display_name: Option<String>,
    pub bio: Option<String>,
    pub avatar_url: Option<String>,
    pub created_at: i64,
    pub updated_at: i64,
}

/// What the API shows of a user: everything but the password hash.
#[derive(Debug, Clone, PartialEq, Eq)]
pub struct UserResponse {
    pub id: u128,
    pub email: String,
    pub username: String,
    pub display_name: Option<String>,
    pub bio: Option<String>,
    pub avatar_url: Option<String>,
    pub created_at: i64,
    pub updated_at: i64,
}

/// The public view of a user.
pub open spec fn response_of(u: User) -> UserResponse {
    UserResponse {
        id: u.id,
        email: u.email,
        username: u.username,
        display_name: u.display_name,
        bio: u.bio,
        avatar_url: u.avatar_url,
        created_at: u.created_at,
        updated_at: u.updated_at,
    }
}

impl From<User> for UserResponse {
    fn from(u: User) -> (r: UserResponse) {
        UserResponse {
            id: u.id,
            email: u.email,
            username: u.username,
            display_name: u.display_name,
            bio: u.bio,
            avatar_url: u.avatar_url,
            created_at: u.created_at,
            updated_at: u.updated_at,
        }
    }
}

impl vstd::std_specs::convert::FromSpecImpl<User> for UserResponse {
    open spec fn obeys_from_spec() -> bool {
        true
    }

    open spec fn from_spec(u: User) -> UserResponse {
        response_of(u)
    }
}

/// The public view of a user.
pub fn user_response(u: User) -> (r: UserResponse)
    ensures
        r == response_of(u),
        r.id == u.id,
        r.email == u.email,
        r.username == u.username,
        r.display_name == u.display_name,
        r.bio == u.bio,
        r.avatar_url == u.avatar_url,
        r.created_at == u.created_at,
        r.updated_at == u.updated_at,
{
    UserResponse::from(u)
}

/// The public view of a user shows each of the user's fields but the
/// password hash, as it is stored: the same id, email, username, display
/// name, bio, avatar, creation time and update time, for every user.
pub proof fn lemma_public_view_fields(u: User)
    ensures
        response_of(u).id == u.id,
        response_of(u).email == u.email,
        response_of(u).username == u.username,
        response_of(u).display_name == u.display_name,
        response_of(u).bio == u.bio,
        response_of(u).avatar_url == u.avatar_url,
        response_of(u).created_at == u.created_at,
        response_of(u).updated_at == u.updated_at,
{
}

/// The body of a registration request.
#[derive(Debug, Clone, PartialEq, Eq)]
pub struct RegisterRequest {
    pub email: String,
    pub username: String,
    pub password: String,
    pub display_name: Option<String>,
}

/// The body of a login request.
#[derive(Debug, Clone, PartialEq, Eq)]
pub struct LoginRequest {
    pub email: String,
    pub password: String,
}

/// The body of a profile update: the fields to change, `None` for those
/// that stay.
#[derive(Debug, Clone, PartialEq, Eq)]
pub struct UpdateProfileRequest {
    pub display_name: Option<String>,
    pub bio: Option<String>,
    pub avatar_url: Option<String>,
}

/// The answer to a successful login.
#[derive(Debug, Clone, PartialEq, Eq)]
pub struct AuthResponse {
    pub token: String,
    pub user: UserResponse,
}

} // verus!
