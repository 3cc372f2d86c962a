use vstd::prelude::*;

use crate::taxonomy_path::TaxonomyPath;

verus! {

/// An administrator's request to create a user.
pub struct CreateUser {
    pub username: String,
    pub email: String,
    pub phc: String,
}

/// Changes to a user's e-mail and password hash.
pub struct UpdateUser {
    pub email: Option<String>,
    pub phc: Option<String>,
}

/// A visitor's request to sign up.
pub struct RegisterInput {
    pub username: String,
    pub email: String,
    pub password: String,
}

/// A visitor's request to sign in.
pub struct LoginInput {
    pub email: String,
    pub password: String,
}

/// Roles to give a user, by their identifiers in text.
pub struct GrantRolesInput {
    pub roles: Vec<String>,
}

/// Roles to take from a user, by their identifiers in text.
pub struct RevokeRolesInput {
    pub roles: Vec<String>,
}

/// A request to create a role.
pub struct CreateRole {
    pub name: String,
    pub description: Option<String>,
}

/// Changes to a role's name and description.
pub struct UpdateRole {
    pub name: Option<String>,
    pub description: Option<String>,
}

/// Permission codes to grant a role.
pub struct GrantPermissionsInput {
    pub permissions: Vec<String>,
}

/// Permission codes to revoke from a role.
pub struct RevokePermissionsInput {
    pub permissions: Vec<String>,
}

/// A request to create a permission.
pub struct CreatePermission {
    pub code: String,
    pub description: Option<String>,
}

/// Changes to a permission's code and description.
pub struct UpdatePermission {
    pub code: Option<String>,
    pub description: Option<String>,
}

/// What other parts of the system may know of a user.
pub struct UserSummary {
    pub id: u128,
    pub username: String,
    pub email: Option<String>,
}

/// A request to write a post.
pub struct CreatePost {
    pub title: String,
    pub content: String,
}

/// Changes to a post's title and content.
pub struct UpdatePost {
    pub title: Option<String>,
    pub content: Option<String>,
}

/// A request to create a tag.
pub struct CreateTag {
    pub name: String,
    pub hero: Option<String>,
    pub description: String,
}

/// Changes to a tag.
pub struct UpdateTag {
    pub name: Option<String>,
    pub hero: Option<String>,
    pub description: Option<String>,
}

/// A request to create a taxonomy.
pub struct CreateTaxonomy {
    pub name: String,
    pub slug: String,
    pub path: TaxonomyPath,
    pub description: String,
    pub hero: Option<String>,
}

/// Changes to a taxonomy.
pub struct UpdateTaxonomy {
    pub name: Option<String>,
    pub slug: Option<String>,
    pub path: Option<TaxonomyPath>,
    pub description: Option<String>,
    pub hero: Option<String>,
}

} // verus!
