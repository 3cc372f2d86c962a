use vstd::prelude::*;
use vstd::string::*;

use crate::aggregate::opt_view;
use crate::dto::{
    CreatePermission, CreatePost, CreateRole, CreateTag, CreateTaxonomy, CreateUser,
    GrantPermissionsInput, GrantRolesInput, RegisterInput, RevokePermissionsInput,
    RevokeRolesInput, UpdatePermission, UpdatePost, UpdateRole, UpdateTag, UpdateTaxonomy,
    UpdateUser,
};
use crate::permission_code::{code_outcome, CodeError, PermissionCode};
use crate::role::{Role, RoleView};
use crate::sets::{text_set, IdSet, NameSet};
use crate::user::User;
use crate::{permission, post, role, tag, taxonomy, user};

verus! {

/// What `ulid::Ulid::from_string` decodes the text `s` to, or `None` when it
/// refuses the text.
pub uninterp spec fn ulid_decode(s: Seq<char>) -> Option<u128>;

/// Calls `ulid::Ulid::from_string` and keeps the 128-bit value. Claimed: the
/// result is `ulid_decode(s)`, and a text whose UTF-8 encoding is not 26 bytes
/// long is refused.
#[verifier::external_body]
fn decode_ulid(s: &str) -> (r: Option<u128>)
    ensures
        r == ulid_decode(s@),
        s.spec_bytes().len() != 26 ==> r is None,
{
    match ulid::Ulid::from_string(s) {
        Ok(u) => Some(u.0),
        Err(_) => None,
    }
}

/// The identifiers that the texts of `v` decode to; texts that are not
/// identifiers are skipped.
pub open spec fn decoded_ids(v: Seq<String>) -> Set<u128> {
    Set::new(|x: u128| exists|i: int| 0 <= i < v.len() && ulid_decode(#[trigger] v[i]@) == Some(x))
}

/// The identifiers named by `roles`, skipping texts that are not identifiers.
pub fn parse_role_ids(roles: &Vec<String>) -> (r: IdSet)
    ensures
        r@ == decoded_ids(roles@),
{
    let mut ids = IdSet::new();
    let mut i: usize = 0;
    while i < roles.len()
        invariant
            0 <= i <= roles@.len(),
            ids@ == decoded_ids(roles@.subrange(0, i as int)),
        decreases roles.len() - i,
    {
        let ghost before = roles@.subrange(0, i as int);
        let ghost after = roles@.subrange(0, i + 1);
        if let Some(x) = decode_ulid(roles[i].as_str()) {
            ids.insert(x);
            assert(ids@ =~= decoded_ids(after)) by {
                assert forall|y: u128| decoded_ids(after).contains(y) implies ids@.contains(y) by {
                    let k = choose|k: int| 0 <= k < after.len() && ulid_decode(#[trigger] after[k]@) == Some(y);
                    if k < i {
                        assert(before[k] == after[k]);
                    }
                }
                assert forall|y: u128| ids@.contains(y) implies decoded_ids(after).contains(y) by {
                    if y == x {
                        assert(after[i as int] == roles@[i as int]);
                    } else {
                        let k = choose|k: int| 0 <= k < before.len() && ulid_decode(#[trigger] before[k]@) == Some(y);
                        assert(before[k] == after[k]);
                    }
                }
            }
        } else {
            assert(ids@ =~= decoded_ids(after)) by {
                assert forall|y: u128| decoded_ids(after).contains(y) implies ids@.contains(y) by {
                    let k = choose|k: int| 0 <= k < after.len() && ulid_decode(#[trigger] after[k]@) == Some(y);
                    if k < i {
                        assert(before[k] == after[k]);
                    } else {
                        assert(after[k] == roles@[i as int]);
                    }
                }
                assert forall|y: u128| ids@.contains(y) implies decoded_ids(after).contains(y) by {
                    let k = choose|k: int| 0 <= k < before.len() && ulid_decode(#[trigger] before[k]@) == Some(y);
                    assert(before[k] == after[k]);
                }
            }
        }
        i = i + 1;
    }
    assert(roles@.subrange(0, roles@.len() as int) =~= roles@);
    ids
}

/// The command that signs up a visitor as user `id`, with the hash `phc` of
/// the password they gave.
pub fn register_command(id: u128, input: RegisterInput, phc: String) -> (r: user::Command)
    ensures
        r == (user::Command::CreateByEmail {
            id,
            username: input.username,
            email: input.email,
            phc,
        }),
{
    user::Command::CreateByEmail { id, username: input.username, email: input.email, phc }
}

/// The command that creates user `id`.
pub fn user_create_command(id: u128, input: CreateUser) -> (r: user::Command)
    ensures
        r == (user::Command::CreateByEmail {
            id,
            username: input.username,
            email: input.email,
            phc: input.phc,
        }),
{
    user::Command::CreateByEmail { id, username: input.username, email: input.email, phc: input.phc }
}

/// The commands that carry out a user update, in the order they are issued:
/// the e-mail first, then the password hash, each only when given.
pub open spec fn user_update_plan(input: UpdateUser) -> Seq<user::Command> {
    (match input.email {
        Some(email) => seq![user::Command::UpdateEmail { email: Some(email) }],
        None => Seq::empty(),
    }) + (match input.phc {
        Some(phc) => seq![user::Command::UpdatePhc { phc: Some(phc) }],
        None => Seq::empty(),
    })
}

/// The commands that carry out a user update.
pub fn user_update_commands(input: UpdateUser) -> (r: Vec<user::Command>)
    ensures
        r@ == user_update_plan(input),
{
    let mut out: Vec<user::Command> = Vec::new();
    if let Some(email) = input.email {
        out.push(user::Command::UpdateEmail { email: Some(email) });
    }
    if let Some(phc) = input.phc {
        out.push(user::Command::UpdatePhc { phc: Some(phc) });
    }
    out
}

/// The command that gives a user the roles named in `input`.
pub fn grant_roles_command(input: &GrantRolesInput) -> (r: user::Command)
    ensures
        r matches user::Command::AssignRoles { roles } && roles@ == decoded_ids(input.roles@),
{
    user::Command::AssignRoles { roles: parse_role_ids(&input.roles) }
}

/// The command that takes from a user the roles named in `input`.
pub fn revoke_roles_command(input: &RevokeRolesInput) -> (r: user::Command)
    ensures
        r matches user::Command::RevokeRoles { roles } && roles@ == decoded_ids(input.roles@),
{
    user::Command::RevokeRoles { roles: parse_role_ids(&input.roles) }
}

/// The command that deletes user `id`.
pub fn user_delete_command(id: u128) -> (r: user::Command)
    ensures
        r == (user::Command::UserDelete { id }),
{
    user::Command::UserDelete { id }
}

/// The command that creates role `id`.
pub fn role_create_command(id: u128, input: CreateRole) -> (r: role::Command)
    ensures
        r == (role::Command::Create { id, name: input.name, description: input.description }),
{
    role::Command::Create { id, name: input.name, description: input.description }
}

/// The commands that carry out a role update, in the order they are issued:
/// the name first, then the description, each only when given.
pub open spec fn role_update_plan(input: UpdateRole) -> Seq<role::Command> {
    (match input.name {
        Some(name) => seq![role::Command::UpdateName { name }],
        None => Seq::empty(),
    }) + (match input.description {
        Some(d) => seq![role::Command::UpdateDescription { description: Some(d) }],
        None => Seq::empty(),
    })
}

/// The commands that carry out a role update.
pub fn role_update_commands(input: UpdateRole) -> (r: Vec<role::Command>)
    ensures
        r@ == role_update_plan(input),
{
    let mut out: Vec<role::Command> = Vec::new();
    if let Some(name) = input.name {
        out.push(role::Command::UpdateName { name });
    }
    if let Some(d) = input.description {
        out.push(role::Command::UpdateDescription { description: Some(d) });
    }
    out
}

/// The commands issued, in order, to delete a role: remove its parent, then
/// revoke an empty set of permissions.
pub fn role_delete_commands() -> (r: Vec<role::Command>)
    ensures
        r@.len() == 2,
        r@[0] == role::Command::RemoveParent,
        r@[1] matches role::Command::RevokePermissions { permissions } && permissions@
            == Set::<Seq<char>>::empty(),
{
    vec![role::Command::RemoveParent, role::Command::RevokePermissions { permissions: NameSet::new() }]
}

/// The command that grants a role the permission codes in `input`.
pub fn grant_permissions_command(input: GrantPermissionsInput) -> (r: role::Command)
    ensures
        r matches role::Command::GrantPermissions { permissions } && permissions@ == text_set(
            input.permissions@,
        ),
{
    role::Command::GrantPermissions { permissions: NameSet::from_vec(input.permissions) }
}

/// The command that revokes from a role the permission codes in `input`.
pub fn revoke_permissions_command(input: RevokePermissionsInput) -> (r: role::Command)
    ensures
        r matches role::Command::RevokePermissions { permissions } && permissions@ == text_set(
            input.permissions@,
        ),
{
    role::Command::RevokePermissions { permissions: NameSet::from_vec(input.permissions) }
}

/// The command that creates permission `id`, refused when the code is not a
/// valid permission code.
pub fn permission_create_command(id: u128, input: CreatePermission) -> (r: Result<
    permission::Command,
    CodeError,
>)
    ensures
        code_outcome(
            input.code@,
            match r {
                Ok(_) => Ok(()),
                Err(e) => Err(e),
            },
        ),
        r matches Ok(c) ==> (c matches permission::Command::Create { id: i, code, description }
            && i == id && code@ == input.code@ && description == input.description),
{
    let code = PermissionCode::new(input.code.as_str())?;
    Ok(permission::Command::Create { id, code, description: input.description })
}

/// The commands that carry out a permission update, in the order they are
/// issued: the code first, then the description, each only when given. An
/// invalid code refuses the whole update before any command.
pub fn permission_update_commands(input: UpdatePermission) -> (r: Result<
    Vec<permission::Command>,
    CodeError,
>)
    ensures
        match input.code {
            Some(c) => code_outcome(
                c@,
                match r {
                    Ok(_) => Ok(()),
                    Err(e) => Err(e),
                },
            ),
            None => r is Ok,
        },
        r matches Ok(cmds) ==> {
            &&& cmds@.len() == (if input.code is Some { 1int } else { 0 }) + (if input.description is Some {
                1int
            } else {
                0
            })
            &&& input.code matches Some(c) ==> (cmds@[0] matches permission::Command::UpdateCode {
                code,
            } && code@ == c@)
            &&& input.description matches Some(d) ==> cmds@[cmds@.len() - 1]
                == permission::Command::UpdateDescription { description: Some(d) }
        },
{
    let mut out: Vec<permission::Command> = Vec::new();
    if let Some(code) = input.code {
        let code = PermissionCode::new(code.as_str())?;
        out.push(permission::Command::UpdateCode { code });
    }
    if let Some(d) = input.description {
        out.push(permission::Command::UpdateDescription { description: Some(d) });
    }
    Ok(out)
}

/// The command issued to delete a permission: it clears the description.
pub fn permission_delete_command() -> (r: permission::Command)
    ensures
        r == (permission::Command::UpdateDescription { description: None }),
{
    permission::Command::UpdateDescription { description: None }
}

/// The command that creates tag `id`.
pub fn tag_create_command(id: u128, input: CreateTag) -> (r: tag::Command)
    ensures
        r == (tag::Command::Create {
            id,
            name: input.name,
            hero: input.hero,
            description: input.description,
        }),
{
    tag::Command::Create { id, name: input.name, hero: input.hero, description: input.description }
}

/// The commands that carry out a tag update, in the order they are issued:
/// name, hero, description, each only when given.
pub open spec fn tag_update_plan(input: UpdateTag) -> Seq<tag::Command> {
    (match input.name {
        Some(name) => seq![tag::Command::UpdateName { name }],
        None => Seq::empty(),
    }) + (match input.hero {
        Some(h) => seq![tag::Command::UpdateHero { hero: Some(h) }],
        None => Seq::empty(),
    }) + (match input.description {
        Some(description) => seq![tag::Command::UpdateDescription { description }],
        None => Seq::empty(),
    })
}

/// The commands that carry out a tag update.
pub fn tag_update_commands(input: UpdateTag) -> (r: Vec<tag::Command>)
    ensures
        r@ == tag_update_plan(input),
{
    let mut out: Vec<tag::Command> = Vec::new();
    if let Some(name) = input.name {
        out.push(tag::Command::UpdateName { name });
    }
    if let Some(h) = input.hero {
        out.push(tag::Command::UpdateHero { hero: Some(h) });
    }
    if let Some(description) = input.description {
        out.push(tag::Command::UpdateDescription { description });
    }
    out
}

/// The command that creates taxonomy `id`.
pub fn taxonomy_create_command(id: u128, input: CreateTaxonomy) -> (r: taxonomy::Command)
    ensures
        r == (taxonomy::Command::Create {
            id,
            name: input.name,
            slug: input.slug,
            path: input.path,
            description: input.description,
            hero: input.hero,
        }),
{
    taxonomy::Command::Create {
        id,
        name: input.name,
        slug: input.slug,
        path: input.path,
        description: input.description,
        hero: input.hero,
    }
}

/// The commands that carry out a taxonomy update, in the order they are
/// issued: name, slug, path, description, hero, each only when given.
pub open spec fn taxonomy_update_plan(input: UpdateTaxonomy) -> Seq<taxonomy::Command> {
    (match input.name {
        Some(name) => seq![taxonomy::Command::UpdateName { name }],
        None => Seq::empty(),
    }) + (match input.slug {
        Some(slug) => seq![taxonomy::Command::UpdateSlug { slug }],
        None => Seq::empty(),
    }) + (match input.path {
        Some(path) => seq![taxonomy::Command::UpdatePath { path }],
        None => Seq::empty(),
    }) + (match input.description {
        Some(description) => seq![taxonomy::Command::UpdateDescription { description }],
        None => Seq::empty(),
    }) + (match input.hero {
        Some(h) => seq![taxonomy::Command::UpdateHero { hero: Some(h) }],
        None => Seq::empty(),
    })
}

/// The commands that carry out a taxonomy update.
pub fn taxonomy_update_commands(input: UpdateTaxonomy) -> (r: Vec<taxonomy::Command>)
    ensures
        r@ == taxonomy_update_plan(input),
{
    let mut out: Vec<taxonomy::Command> = Vec::new();
    if let Some(name) = input.name {
        out.push(taxonomy::Command::UpdateName { name });
    }
    if let Some(slug) = input.slug {
        out.push(taxonomy::Command::UpdateSlug { slug });
    }
    if let Some(path) = input.path {
        out.push(taxonomy::Command::UpdatePath { path });
    }
    if let Some(description) = input.description {
        out.push(taxonomy::Command::UpdateDescription { description });
    }
    if let Some(h) = input.hero {
        out.push(taxonomy::Command::UpdateHero { hero: Some(h) });
    }
    out
}

/// The command by which user `uid` writes post `id`.
pub fn post_create_command(id: u128, uid: u128, input: CreatePost) -> (r: post::Command)
    ensures
        r == (post::Command::Create {
            id,
            title: input.title,
            content: input.content,
            author_id: uid,
        }),
{
    post::Command::Create { id, title: input.title, content: input.content, author_id: uid }
}

/// The command by which user `uid` changes their post.
pub fn post_update_command(uid: u128, input: UpdatePost) -> (r: post::Command)
    ensures
        r == (post::Command::AuthorOwnUpdate {
            author_id: uid,
            title: input.title,
            content: input.content,
        }),
{
    post::Command::AuthorOwnUpdate { author_id: uid, title: input.title, content: input.content }
}

/// The command by which user `uid` deletes their post.
pub fn post_delete_command(uid: u128) -> (r: post::Command)
    ensures
        r == (post::Command::AuthorOwnDelete { author_id: uid }),
{
    post::Command::AuthorOwnDelete { author_id: uid }
}

/// The next step of deciding whether a role grants a permission.
#[derive(Debug, Clone, Copy, PartialEq, Eq, Structural)]
pub enum PermissionStep {
    /// The role grants it.
    Granted,
    /// Neither the role nor any role it inherits from grants it.
    Denied,
    /// The role does not grant it itself; ask its parent.
    AskParent(u128),
}

/// The step that follows from reading the role (or finding none).
pub open spec fn permission_step_spec(role: Option<RoleView>, code: Seq<char>) -> PermissionStep {
    match role {
        None => PermissionStep::Denied,
        Some(r) => if r.permissions.contains(code) {
            PermissionStep::Granted
        } else {
            match r.parent {
                Some(p) => PermissionStep::AskParent(p),
                None => PermissionStep::Denied,
            }
        },
    }
}

/// Decides, from a role read from the store (or none found), whether it
/// grants `code`, denies it, or defers to its parent.
pub fn role_permission_step(role: Option<&Role>, code: &String) -> (r: PermissionStep)
    ensures
        r == permission_step_spec(opt_view(role), code@),
{
    match role {
        None => PermissionStep::Denied,
        Some(r) => {
            if r.permissions.contains(code) {
                PermissionStep::Granted
            } else {
                match r.parent {
                    Some(p) => PermissionStep::AskParent(p),
                    None => PermissionStep::Denied,
                }
            }
        },
    }
}

/// Whether the user read from the store (or none found) holds role `role_id`.
pub fn user_has_role_in(user: Option<&User>, role_id: u128) -> (r: bool)
    ensures
        r == (opt_view(user) matches Some(u) && u.roles.contains(role_id)),
{
    match user {
        Some(u) => u.roles.contains(role_id),
        None => false,
    }
}

/// The account to check a sign-in against: the first user found for the
/// e-mail, with its password hash, when it has one.
pub fn login_target(users: &Vec<User>) -> (r: Option<(u128, &String)>)
    ensures
        users@.len() == 0 ==> r is None,
        users@.len() > 0 ==> match users@[0].phc {
            Some(p) => r == Some((users@[0].id, &p)),
            None => r is None,
        },
{
    if users.len() == 0 {
        return None;
    }
    let u = &users[0];
    match &u.phc {
        Some(p) => Some((u.id, p)),
        None => None,
    }
}

/// 1 when the field is given, 0 when it is not.
pub open spec fn given<T>(o: Option<T>) -> int {
    if o is Some {
        1
    } else {
        0
    }
}

/// A user update issues one command per field given, the e-mail first and
/// the password hash after it; each carries the value given, and neither
/// depends on whether the other field is given.
pub proof fn law_user_update_one_command_per_field(input: UpdateUser)
    ensures
        user_update_plan(input).len() == given(input.email) + given(input.phc),
        input.email matches Some(e) ==> user_update_plan(input)[0] == (user::Command::UpdateEmail {
            email: Some(e),
        }),
        input.phc matches Some(p) ==> user_update_plan(input)[given(input.email)]
            == (user::Command::UpdatePhc { phc: Some(p) }),
{
}

/// A role update issues one command per field given, the name first and the
/// description after it, each carrying the value given.
pub proof fn law_role_update_one_command_per_field(input: UpdateRole)
    ensures
        role_update_plan(input).len() == given(input.name) + given(input.description),
        input.name matches Some(n) ==> role_update_plan(input)[0] == (role::Command::UpdateName {
            name: n,
        }),
        input.description matches Some(d) ==> role_update_plan(input)[given(input.name)]
            == (role::Command::UpdateDescription { description: Some(d) }),
{
}

/// A tag update issues one command per field given, in the order name, hero,
/// description, each carrying the value given.
pub proof fn law_tag_update_one_command_per_field(input: UpdateTag)
    ensures
        tag_update_plan(input).len() == given(input.name) + given(input.hero) + given(
            input.description,
        ),
        input.name matches Some(n) ==> tag_update_plan(input)[0] == (tag::Command::UpdateName {
            name: n,
        }),
        input.hero matches Some(h) ==> tag_update_plan(input)[given(input.name)]
            == (tag::Command::UpdateHero { hero: Some(h) }),
        input.description matches Some(d) ==> tag_update_plan(input)[given(input.name) + given(
            input.hero,
        )] == (tag::Command::UpdateDescription { description: d }),
{
}

/// A taxonomy update issues one command per field given, in the order name,
/// slug, path, description, hero, each carrying the value given.
pub proof fn law_taxonomy_update_one_command_per_field(input: UpdateTaxonomy)
    ensures
        taxonomy_update_plan(input).len() == given(input.name) + given(input.slug) + given(
            input.path,
        ) + given(input.description) + given(input.hero),
        input.name matches Some(n) ==> taxonomy_update_plan(input)[0]
            == (taxonomy::Command::UpdateName { name: n }),
        input.slug matches Some(x) ==> taxonomy_update_plan(input)[given(input.name)]
            == (taxonomy::Command::UpdateSlug { slug: x }),
        input.path matches Some(x) ==> taxonomy_update_plan(input)[given(input.name) + given(
            input.slug,
        )] == (taxonomy::Command::UpdatePath { path: x }),
        input.description matches Some(x) ==> taxonomy_update_plan(input)[given(input.name)
            + given(input.slug) + given(input.path)] == (taxonomy::Command::UpdateDescription {
            description: x,
        }),
        input.hero matches Some(x) ==> taxonomy_update_plan(input)[given(input.name) + given(
            input.slug,
        ) + given(input.path) + given(input.description)] == (taxonomy::Command::UpdateHero {
            hero: Some(x),
        }),
{
}

/// The identifiers named by a list of texts are exactly those that some
/// text of the list decodes to.
pub proof fn law_decoded_ids(v: Seq<String>, x: u128)
    ensures
        decoded_ids(v).contains(x) <==> exists|i: int| 0 <= i < v.len() && ulid_decode(#[trigger] v[i]@) == Some(x),
{
}

/// The role read from the store, looked up by identifier.
pub open spec fn role_in(store: Map<u128, RoleView>, id: u128) -> Option<RoleView> {
    if store.contains_key(id) {
        Some(store[id])
    } else {
        None
    }
}

/// What deciding, step by step, whether role `id` grants `code` gives with at
/// most `n` reads of `store`: `Some(true)` granted, `Some(false)` denied,
/// `None` still undecided.
pub open spec fn decide_in(store: Map<u128, RoleView>, id: u128, code: Seq<char>, n: nat) -> Option<bool>
    decreases n,
{
    if n == 0 {
        None
    } else {
        match permission_step_spec(role_in(store, id), code) {
            PermissionStep::Granted => Some(true),
            PermissionStep::Denied => Some(false),
            PermissionStep::AskParent(p) => decide_in(store, p, code, (n - 1) as nat),
        }
    }
}

/// Role `id` is in `store` and holds `code`, or its parent, within `n` links
/// up the chain of parents, does.
pub open spec fn holds_through_parents(store: Map<u128, RoleView>, id: u128, code: Seq<char>, n: nat) -> bool
    decreases n,
{
    store.contains_key(id) && (store[id].permissions.contains(code) || (n > 0 && match store[id].parent {
        Some(p) => holds_through_parents(store, p, code, (n - 1) as nat),
        None => false,
    }))
}

/// One step of the decision: a role found that holds the code grants it; one
/// that does not hold it asks its parent when it has one, whatever else it
/// holds, and denies the code otherwise; no role found denies it.
pub proof fn law_role_step(role: Option<RoleView>, code: Seq<char>)
    ensures
        role is None ==> permission_step_spec(role, code) == PermissionStep::Denied,
        role matches Some(r) ==> {
            &&& r.permissions.contains(code) ==> permission_step_spec(role, code)
                == PermissionStep::Granted
            &&& !r.permissions.contains(code) ==> permission_step_spec(role, code) == match r.parent {
                Some(p) => PermissionStep::AskParent(p),
                None => PermissionStep::Denied,
            }
        },
{
}

/// Deciding step by step grants a code exactly when the role, or an ancestor
/// reached through its parents, holds it: with `n + 1` reads the answer is
/// "granted" if and only if a role within `n` links up the chain holds the
/// code.
pub proof fn law_granted_through_parents(store: Map<u128, RoleView>, id: u128, code: Seq<char>, n: nat)
    ensures
        decide_in(store, id, code, n + 1) == Some(true) <==> holds_through_parents(store, id, code, n),
    decreases n,
{
    let k = (n + 1) as nat;
    assert(decide_in(store, id, code, k) == match permission_step_spec(role_in(store, id), code) {
        PermissionStep::Granted => Some(true),
        PermissionStep::Denied => Some(false),
        PermissionStep::AskParent(p) => decide_in(store, p, code, n),
    });
    if n > 0 && store.contains_key(id) && !store[id].permissions.contains(code) {
        if let Some(p) = store[id].parent {
            let m = (n - 1) as nat;
            law_granted_through_parents(store, p, code, m);
            assert((m + 1) as nat == n);
        }
    }
    if n == 0 && store.contains_key(id) && !store[id].permissions.contains(code) {
        if let Some(p) = store[id].parent {
            assert(decide_in(store, p, code, 0) is None);
        }
    }
}

} // verus!
