use picodata::role_graph::holders;
use picodata::schema::{PrivilegeDef, PrivilegeType, SchemaObjectType};

fn def(
    privilege: PrivilegeType,
    object_type: SchemaObjectType,
    object_id: Option<u32>,
    grantee_id: u32,
) -> PrivilegeDef {
    PrivilegeDef { privilege, object_type, object_id, grantee_id, grantor_id: 1, schema_version: 0 }
}

fn sorted(privileges: &Vec<PrivilegeDef>, role: u32) -> Vec<u32> {
    let mut found: Vec<u32> = holders(privileges, role).into_iter().collect();
    found.sort();
    found
}

#[test]
fn holders_follow_role_grants_only() {
    let role = SchemaObjectType::Role;
    let execute = PrivilegeType::Execute;
    let privileges = vec![
        def(execute, role, Some(10), 11),
        def(execute, role, Some(11), 12),
        def(execute, role, Some(10), 13),
        // None of these hands a role on.
        def(PrivilegeType::Drop, role, Some(12), 14),
        def(execute, SchemaObjectType::Table, Some(12), 15),
        def(execute, role, None, 16),
    ];
    assert_eq!(sorted(&privileges, 10), vec![10, 11, 12, 13]);
    assert_eq!(sorted(&privileges, 11), vec![11, 12]);
    assert_eq!(sorted(&privileges, 12), vec![12]);
    assert_eq!(sorted(&privileges, 99), vec![99]);
}

#[test]
fn holding_is_transitive() {
    let role = SchemaObjectType::Role;
    let privileges: Vec<PrivilegeDef> =
        (0..50).map(|i| def(PrivilegeType::Execute, role, Some(i), i + 1)).collect();
    assert_eq!(sorted(&privileges, 0).len(), 51);
    assert!(holders(&privileges, 0).contains(&50));
    assert!(!holders(&privileges, 50).contains(&0));
}
