use suibi::dto::{
    CreatePermission, CreateUser, GrantPermissionsInput, GrantRolesInput, RegisterInput,
    RevokeRolesInput, UpdatePermission, UpdatePost, UpdateRole, UpdateTag, UpdateTaxonomy,
    UpdateUser,
};
use suibi::permission;
use suibi::permission_code::CodeError;
use suibi::post;
use suibi::role::{self, Role};
use suibi::sets::{IdSet, NameSet};
use suibi::tag;
use suibi::taxonomy;
use suibi::taxonomy_path::TaxonomyPath;
use suibi::usecase::{
    grant_permissions_command, grant_roles_command, login_target, parse_role_ids,
    permission_create_command, permission_delete_command, permission_update_commands,
    post_delete_command, post_update_command, register_command, revoke_roles_command,
    role_delete_commands, role_permission_step, role_update_commands, tag_update_commands,
    taxonomy_update_commands, user_create_command, user_delete_command, user_has_role_in,
    user_update_commands, PermissionStep,
};
use suibi::user::{self, User};

fn s(x: &str) -> String {
    x.to_string()
}

#[test]
fn role_ids_are_decoded_and_bad_ones_skipped() {
    let input = GrantRolesInput {
        roles: vec![s("01D39ZY06FGSCTVN4T2V9PKHFZ"), s("not-a-ulid"), s("01ARZ3NDEKTSV4RRFFQ69G5FAV")],
    };
    match grant_roles_command(&input) {
        user::Command::AssignRoles { roles } => {
            let mut v = roles.to_vec();
            v.sort();
            assert_eq!(
                v,
                vec![1777027686520646174104517696511196507u128, 1873526660931231682191479120471901695u128]
            );
        }
        _ => panic!("wrong command"),
    }
    match revoke_roles_command(&RevokeRolesInput { roles: vec![s("short")] }) {
        user::Command::RevokeRoles { roles } => assert!(roles.is_empty()),
        _ => panic!("wrong command"),
    }
    assert!(parse_role_ids(&vec![s("01d39zy06fgsctvn4t2v9pkhfz")]).contains(1873526660931231682191479120471901695));
}

#[test]
fn user_commands() {
    let c = register_command(3, RegisterInput { username: s("u"), email: s("e"), password: s("pw") }, s("$h"));
    assert!(matches!(c, user::Command::CreateByEmail { id: 3, ref username, ref email, ref phc }
        if username == "u" && email == "e" && phc == "$h"));
    let c = user_create_command(4, CreateUser { username: s("u"), email: s("e"), phc: s("p") });
    assert!(matches!(c, user::Command::CreateByEmail { id: 4, ref phc, .. } if phc == "p"));
    let cmds = user_update_commands(UpdateUser { email: Some(s("e2")), phc: Some(s("p2")) });
    assert_eq!(cmds.len(), 2);
    assert!(matches!(&cmds[0], user::Command::UpdateEmail { email: Some(e) } if e == "e2"));
    assert!(matches!(&cmds[1], user::Command::UpdatePhc { phc: Some(p) } if p == "p2"));
    assert!(user_update_commands(UpdateUser { email: None, phc: None }).is_empty());
    let cmds = user_update_commands(UpdateUser { email: None, phc: Some(s("p3")) });
    assert!(matches!(&cmds[..], [user::Command::UpdatePhc { phc: Some(_) }]));
    assert!(matches!(user_delete_command(5), user::Command::UserDelete { id: 5 }));
}

#[test]
fn role_commands() {
    let cmds = role_update_commands(UpdateRole { name: Some(s("n")), description: Some(s("d")) });
    assert!(matches!(&cmds[..], [role::Command::UpdateName { name }, role::Command::UpdateDescription { description: Some(d) }] if name == "n" && d == "d"));
    let cmds = role_delete_commands();
    assert!(matches!(&cmds[0], role::Command::RemoveParent));
    assert!(matches!(&cmds[1], role::Command::RevokePermissions { permissions } if permissions.is_empty()));
    match grant_permissions_command(GrantPermissionsInput { permissions: vec![s("a"), s("b"), s("a")] }) {
        role::Command::GrantPermissions { permissions } => {
            let mut v = permissions.to_vec();
            v.sort();
            assert_eq!(v, vec![s("a"), s("b")]);
        }
        _ => panic!("wrong command"),
    }
}

#[test]
fn permission_commands() {
    match permission_create_command(1, CreatePermission { code: s("user.read"), description: None }) {
        Ok(permission::Command::Create { id: 1, code, description: None }) => assert_eq!(code.as_str(), "user.read"),
        _ => panic!("wrong command"),
    }
    assert!(matches!(
        permission_create_command(1, CreatePermission { code: s("user..read"), description: None }),
        Err(CodeError::EmptySegment)
    ));
    let cmds = permission_update_commands(UpdatePermission { code: Some(s("a.b")), description: Some(s("d")) }).unwrap();
    assert_eq!(cmds.len(), 2);
    assert!(matches!(&cmds[0], permission::Command::UpdateCode { code } if code.as_str() == "a.b"));
    assert!(matches!(&cmds[1], permission::Command::UpdateDescription { description: Some(d) } if d == "d"));
    assert!(matches!(
        permission_update_commands(UpdatePermission { code: Some(s("ok.a-b")), description: Some(s("d")) }),
        Err(CodeError::InvalidChar(seg)) if seg == "a-b"
    ));
    assert!(matches!(permission_delete_command(), permission::Command::UpdateDescription { description: None }));
}

#[test]
fn tag_and_taxonomy_commands() {
    let cmds = tag_update_commands(UpdateTag { name: Some(s("n")), hero: Some(s("h")), description: None });
    assert!(matches!(&cmds[..], [tag::Command::UpdateName { .. }, tag::Command::UpdateHero { hero: Some(_) }]));
    let cmds = taxonomy_update_commands(UpdateTaxonomy {
        name: None,
        slug: Some(s("s")),
        path: Some(TaxonomyPath::new(s("a/b"))),
        description: Some(s("d")),
        hero: Some(s("h")),
    });
    assert!(matches!(
        &cmds[..],
        [
            taxonomy::Command::UpdateSlug { .. },
            taxonomy::Command::UpdatePath { .. },
            taxonomy::Command::UpdateDescription { .. },
            taxonomy::Command::UpdateHero { hero: Some(_) }
        ]
    ));
}

#[test]
fn post_commands() {
    let c = post_update_command(9, UpdatePost { title: None, content: Some(s("c")) });
    assert!(matches!(c, post::Command::AuthorOwnUpdate { author_id: 9, title: None, content: Some(_) }));
    assert!(matches!(post_delete_command(9), post::Command::AuthorOwnDelete { author_id: 9 }));
}

fn role_with(perms: &[&str], parent: Option<u128>) -> Role {
    Role {
        id: 1,
        name: s("r"),
        description: None,
        permissions: NameSet::from_vec(perms.iter().map(|p| s(p)).collect()),
        parent,
    }
}

#[test]
fn permission_steps() {
    let code = s("user.read");
    assert_eq!(role_permission_step(None, &code), PermissionStep::Denied);
    assert_eq!(role_permission_step(Some(&role_with(&["user.read"], Some(2))), &code), PermissionStep::Granted);
    assert_eq!(role_permission_step(Some(&role_with(&["x"], Some(2))), &code), PermissionStep::AskParent(2));
    assert_eq!(role_permission_step(Some(&role_with(&["x"], None)), &code), PermissionStep::Denied);
}

fn user_with(phc: Option<&str>) -> User {
    User { id: 7, username: s("u"), email: None, phc: phc.map(s), roles: IdSet::from_vec(vec![3]) }
}

#[test]
fn user_lookups() {
    let u = user_with(Some("$h"));
    assert!(user_has_role_in(Some(&u), 3));
    assert!(!user_has_role_in(Some(&u), 4));
    assert!(!user_has_role_in(None, 3));
    let users = vec![u, user_with(None)];
    assert_eq!(login_target(&users).map(|(id, p)| (id, p.clone())), Some((7, s("$h"))));
    assert!(login_target(&vec![user_with(None)]).is_none());
    assert!(login_target(&Vec::new()).is_none());
}
