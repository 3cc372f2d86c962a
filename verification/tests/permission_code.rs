use suibi::permission_code::{CodeError, PermissionCode};

#[test]
fn test_valid_code() {
    assert!(PermissionCode::new("user.create").is_ok());
    assert!(PermissionCode::new("user_read").is_ok());
    assert!(PermissionCode::new("ROLE_CREATE").is_ok());
    assert!(PermissionCode::new("a.b.c").is_ok());
}

#[test]
fn test_invalid_code() {
    assert!(PermissionCode::new("").is_err());
    assert!(PermissionCode::new("user.create.123").is_err());
    assert!(PermissionCode::new("user-create").is_err());
    assert!(PermissionCode::new("user..create").is_err());
}

#[test]
fn code_errors_name_the_first_defect() {
    assert_eq!(PermissionCode::new("").unwrap_err(), CodeError::Empty);
    assert_eq!(PermissionCode::new("user..create").unwrap_err(), CodeError::EmptySegment);
    assert_eq!(PermissionCode::new(".user").unwrap_err(), CodeError::EmptySegment);
    assert_eq!(PermissionCode::new("user.").unwrap_err(), CodeError::EmptySegment);
    assert_eq!(PermissionCode::new("user-create").unwrap_err(), CodeError::InvalidChar("user-create".to_string()));
    assert_eq!(PermissionCode::new("user.create.123").unwrap_err(), CodeError::InvalidChar("123".to_string()));
    assert_eq!(PermissionCode::new("a1..b").unwrap_err(), CodeError::InvalidChar("a1".to_string()));
    assert_eq!(PermissionCode::new("a..b1").unwrap_err(), CodeError::EmptySegment);
}

#[test]
fn code_keeps_its_text() {
    let code = PermissionCode::new("user.create").unwrap();
    assert_eq!(code.as_str(), "user.create");
    let copy = code.clone();
    assert_eq!(copy.as_str(), "user.create");
}
