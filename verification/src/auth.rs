//! Identity, roles and the role gate.
//!
//! An authenticated request carries a [`Claims`] value produced by an outer
//! authentication layer; the core trusts it verbatim.  Roles form a total
//! order (`super_admin` above `admin` above `user`), and every role check is
//! a rank comparison in that order.

use vstd::prelude::*;
use crate::errors::AppError;

verus! {

/// A user's role, ordered: every super admin may do what an admin may,
/// and every admin may do what a plain user may.
#[derive(Debug, Clone, Copy, PartialEq, Eq, Structural)]
pub enum UserRole {
    User,
    Admin,
    SuperAdmin,
}

impl UserRole {
    /// Rank in the total order of roles: a caller passes a check that
    /// requires some role exactly when the caller's rank is at least as high.
    pub open spec fn rank(self) -> int {
        match self {
            UserRole::User => 0,
            UserRole::Admin => 1,
            UserRole::SuperAdmin => 2,
        }
    }

    /// Whether this role may manage user accounts.
    pub fn can_manage_users(&self) -> (r: bool)
        ensures
            r == (self.rank() >= UserRole::Admin.rank()),
    {
        matches!(self, UserRole::Admin | UserRole::SuperAdmin)
    }

    /// Whether this role may manage administrator accounts.
    pub fn can_manage_admins(&self) -> (r: bool)
        ensures
            r == (self.rank() >= UserRole::SuperAdmin.rank()),
    {
        matches!(self, UserRole::SuperAdmin)
    }

    /// Whether this role may delete content it does not own.
    pub fn can_delete_any_content(&self) -> (r: bool)
        ensures
            r == (self.rank() >= UserRole::Admin.rank()),
    {
        matches!(self, UserRole::Admin | UserRole::SuperAdmin)
    }
}

/// Whether `user_role` passes a check that requires `required_role`.
pub fn has_permission(user_role: &UserRole, required_role: &UserRole) -> (r: bool)
    ensures
        r == (user_role.rank() >= required_role.rank()),
{
    let user_rank: u8 = match user_role {
        UserRole::User => 0,
        UserRole::Admin => 1,
        UserRole::SuperAdmin => 2,
    };
    let required_rank: u8 = match required_role {
        UserRole::User => 0,
        UserRole::Admin => 1,
        UserRole::SuperAdmin => 2,
    };
    user_rank >= required_rank
}

/// The role named by a role string: unknown strings mean a plain user.
pub open spec fn role_of(s: Seq<char>) -> UserRole {
    if s == "admin"@ {
        UserRole::Admin
    } else if s == "super_admin"@ {
        UserRole::SuperAdmin
    } else {
        UserRole::User
    }
}

/// The verified identity and role attached to an authenticated request.
///
/// The outer authentication layer verifies the session token's signature
/// and hands the decoded payload here; the core never re-verifies it.
#[derive(Debug, Clone)]
pub struct Claims {
    /// The user id the token is about.
    pub sub: String,
    /// The user's email.
    pub email: String,
    /// The user's username.
    pub username: String,
    /// The user's role, as stored: "user", "admin" or "super_admin".
    pub role: String,
    /// When the token expires, as a Unix timestamp.
    pub exp: usize,
    /// When the token was issued, as a Unix timestamp.
    pub iat: usize,
}

impl Claims {
    /// The caller's role, decoded from the role string.
    pub fn get_role(&self) -> (r: UserRole)
        ensures
            r == role_of(self.role@),
    {
        if self.role == "admin".to_owned() {
            UserRole::Admin
        } else if self.role == "super_admin".to_owned() {
            UserRole::SuperAdmin
        } else {
            UserRole::User
        }
    }
}

/// The identity payload a verified Google id token carries.
#[derive(Debug)]
pub struct GoogleIdToken {
    pub email: String,
    pub name: Option<String>,
    pub picture: Option<String>,
    /// Google's user id.
    pub sub: String,
    pub email_verified: bool,
}

/// A login request carrying the id token from Google.
#[derive(Debug)]
pub struct GoogleLoginRequest {
    pub credential: String,
}

/// A login request carrying a bare token.
#[derive(Debug)]
pub struct GoogleAuthRequest {
    pub token: String,
}

/// What a successful login returns: the locally issued session token and
/// the user it identifies.
#[derive(Debug)]
pub struct AuthResponse {
    pub token: String,
    pub user: UserInfo,
}

/// The user as login responses describe it.
#[derive(Debug)]
pub struct UserInfo {
    pub id: String,
    pub email: String,
    pub name: Option<String>,
    pub user_name: Option<String>,
    pub picture_url: Option<String>,
    pub role: String,
    pub provider: String,
    /// The provider's own id for the user.
    pub provider_id: String,
    pub created_at: String,
    pub updated_at: String,
}

/// A request to change the caller's account settings.
#[derive(Debug)]
pub struct UpdateUserRequest {
    pub user_name: Option<String>,
    pub email: Option<String>,
    pub timezone: Option<String>,
    pub language: Option<String>,
}

/// The caller's profile as the profile route returns it.
#[derive(Debug)]
pub struct ProfileResponse {
    pub email: String,
    pub name: String,
}

/// A request to change the caller's profile.
#[derive(Debug)]
pub struct UpdateProfileRequest {
    pub name: String,
}

/// Whether the caller passes the admin-or-above gate.
pub open spec fn is_admin_role(claims: Claims) -> bool {
    role_of(claims.role@).rank() >= UserRole::Admin.rank()
}

/// Rejects a caller whose role is below `required_role`.
pub fn require_role(claims: &Claims, required_role: &UserRole) -> (r: Result<(), AppError>)
    ensures
        r is Ok <==> role_of(claims.role@).rank() >= required_role.rank(),
        r is Err ==> r->Err_0 is Forbidden,
{
    let user_role = claims.get_role();
    if has_permission(&user_role, required_role) {
        Ok(())
    } else {
        Err(AppError::Forbidden("Requires a higher role".to_owned()))
    }
}

/// Rejects a caller who is neither an admin nor a super admin.
pub fn require_admin(claims: &Claims) -> (r: Result<(), AppError>)
    ensures
        r is Ok <==> is_admin_role(*claims),
        r is Err ==> r->Err_0 is Forbidden,
{
    match claims.get_role() {
        UserRole::Admin | UserRole::SuperAdmin => Ok(()),
        UserRole::User => Err(AppError::Forbidden("Admin access required".to_owned())),
    }
}

/// Rejects a caller who is not a super admin.
pub fn require_super_admin(claims: &Claims) -> (r: Result<(), AppError>)
    ensures
        r is Ok <==> role_of(claims.role@) == UserRole::SuperAdmin,
        r is Err ==> r->Err_0 is Forbidden,
{
    match claims.get_role() {
        UserRole::SuperAdmin => Ok(()),
        _ => Err(AppError::Forbidden("SuperAdmin access required".to_owned())),
    }
}

/// The session token inside an Authorization header value: whatever
/// follows the "Bearer " prefix, or nothing for any other shape.
pub open spec fn bearer_token(header: Seq<char>) -> Option<Seq<char>> {
    if header.len() >= 7 && header.subrange(0, 7) == "Bearer "@ {
        Some(header.subrange(7, header.len() as int))
    } else {
        None
    }
}

/// Pulls the session token out of an Authorization header value.
pub fn extract_token(auth_header: &str) -> (r: Result<String, AppError>)
    ensures
        (match r {
            Ok(t) => bearer_token(auth_header@) == Some(t@),
            Err(e) => bearer_token(auth_header@) is None && e is Unauthorized,
        }),
{
    let n = auth_header.unicode_len();
    if n < 7 {
        return Err(
            AppError::Unauthorized(
                "Authorization header must start with 'Bearer '".to_owned(),
            ),
        );
    }
    let prefix = auth_header.substring_char(0, 7);
    if prefix.to_owned() == "Bearer ".to_owned() {
        let token = auth_header.substring_char(7, n);
        proof {
            assert(auth_header@.subrange(0, 7) == "Bearer "@);
        }
        Ok(token.to_owned())
    } else {
        Err(
            AppError::Unauthorized(
                "Authorization header must start with 'Bearer '".to_owned(),
            ),
        )
    }
}

/// Allows access when the caller owns the resource or is at least an admin.
pub fn require_owner_or_admin(resource_user_id: &String, claims: &Claims) -> (r: Result<
    (),
    AppError,
>)
    ensures
        r is Ok <==> (claims.sub@ == resource_user_id@ || is_admin_role(*claims)),
        r is Err ==> r->Err_0 is Forbidden,
{
    let role = claims.get_role();
    if claims.sub == *resource_user_id || matches!(role, UserRole::Admin | UserRole::SuperAdmin) {
        Ok(())
    } else {
        Err(AppError::Forbidden("Access denied".to_owned()))
    }
}

} // verus!
