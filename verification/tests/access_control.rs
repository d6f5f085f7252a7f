use std::collections::HashMap;

use picodata::access_control::{
    access_check_acl, access_check_ddl, access_check_op, is_covered, is_owned_by_creator, user_by_id,
};
use picodata::schema::{
    AuthDef, Distribution, PrivilegeDef, PrivilegeType, SchemaObjectType, SpaceEngineType, UserDef,
    ADMIN_ID,
};
use picodata::traft::op::{Acl, Ddl, Dml, Op};
use picodata::transcript::{
    AccessCheck, Pending, PrivType, Request, TableMetadata, TarantoolError, TarantoolErrorCode,
    TntSchemaObjectType, Transcript, UserMetadata, UserMetadataKind,
};
use picodata::tuple::TupleBuffer;

/// An instance that answers the questions of access checks the way tarantool does.
struct Instance {
    users: Vec<UserMetadata>,
    tables: Vec<TableMetadata>,
    /// Privileges in force on this instance.
    granted: Vec<PrivilegeDef>,
    /// Privileges that the cluster keeps track of.
    clusterwide: Vec<PrivilegeDef>,
    next_user_id: u32,
}

fn metadata(id: u32, owner_id: u32, name: &str, ty: UserMetadataKind) -> UserMetadata {
    UserMetadata {
        id,
        owner_id,
        name: name.to_string(),
        ty,
        auth: HashMap::new(),
        auth_history: [],
        last_modified: 0,
    }
}

impl Instance {
    fn new() -> Self {
        Self {
            users: vec![
                metadata(0, ADMIN_ID, "guest", UserMetadataKind::User),
                metadata(ADMIN_ID, ADMIN_ID, "admin", UserMetadataKind::User),
                metadata(2, ADMIN_ID, "public", UserMetadataKind::Role),
            ],
            tables: vec![],
            granted: vec![],
            clusterwide: vec![],
            next_user_id: 42,
        }
    }

    fn next_user_id(&mut self) -> u32 {
        self.next_user_id += 1;
        self.next_user_id
    }

    fn make_user(&mut self, name: &str, owner: u32) -> u32 {
        let id = self.next_user_id();
        self.users.push(metadata(id, owner, name, UserMetadataKind::User));
        id
    }

    fn make_role(&mut self, name: &str, owner: u32) -> u32 {
        let id = self.next_user_id();
        self.users.push(metadata(id, owner, name, UserMetadataKind::Role));
        id
    }

    fn make_table(&mut self, name: &str, owner: u32) -> u32 {
        let id = 512 + self.tables.len() as u32;
        self.tables.push(TableMetadata { id, user_id: owner, name: name.to_string() });
        id
    }

    fn user_name(&self, id: u32) -> &str {
        &self.users.iter().find(|u| u.id == id).unwrap().name
    }

    fn box_access_check(&self, check: &AccessCheck) -> Result<(), TarantoolError> {
        let (name, id, owner, object_type, access, as_user) = match check {
            AccessCheck::Ddl { object_name, object_id, owner_id, object_type, access, as_user } => {
                (object_name.as_str(), *object_id, *owner_id, *object_type, *access, *as_user)
            }
            AccessCheck::Space { space_id, access, as_user } => {
                let table = self.tables.iter().find(|t| t.id == *space_id).unwrap();
                (
                    table.name.as_str(),
                    *space_id,
                    table.user_id,
                    TntSchemaObjectType::Space,
                    *access,
                    *as_user,
                )
            }
        };
        if matches!(access, PrivType::Grant | PrivType::Revoke) {
            assert_eq!(owner, as_user, "for grant and revoke owner_id must be current user");
        }
        let (wanted_type, kind) = match object_type {
            TntSchemaObjectType::Space => (SchemaObjectType::Table, "space"),
            TntSchemaObjectType::User => (SchemaObjectType::User, "user"),
            TntSchemaObjectType::Role => (SchemaObjectType::Role, "role"),
        };
        let wanted = match access {
            PrivType::Write => Some(PrivilegeType::Write),
            PrivType::Create => Some(PrivilegeType::Create),
            PrivType::Drop => Some(PrivilegeType::Drop),
            PrivType::Alter => Some(PrivilegeType::Alter),
            PrivType::Grant | PrivType::Revoke => None,
        };
        // An object that is about to be created has no owner yet.
        let exists = self.tables.iter().any(|t| t.id == id) || self.users.iter().any(|u| u.id == id);
        let has_privilege = self.granted.iter().any(|p| {
            p.grantee_id == as_user
                && p.object_type == wanted_type
                && Some(p.privilege) == wanted
                && (p.object_id.is_none() || p.object_id == Some(id))
        });
        if as_user == ADMIN_ID || (exists && owner == as_user) || has_privilege {
            return Ok(());
        }
        Err(TarantoolError::Foreign(format!(
            "tarantool error: AccessDenied: {:?} access to {} '{}' is denied for user '{}'",
            access,
            kind,
            name,
            self.user_name(as_user)
        )))
    }

    fn answer(&self, transcript: &mut Transcript, request: Request) {
        match request {
            Request::User(id) => {
                let found = self.users.iter().find(|u| u.id == id).cloned();
                transcript.record_user(id, Ok(found));
            }
            Request::Table(id) => {
                let found = self.tables.iter().find(|t| t.id == id).cloned();
                let answer = found.ok_or(TarantoolError::Foreign("no such table".to_string()));
                transcript.record_table(id, answer);
            }
            Request::Privileges => transcript.record_privileges(Ok(self.clusterwide.clone())),
            Request::Access(check) => {
                let answer = self.box_access_check(&check);
                transcript.record_access(check, answer);
            }
        }
    }

    fn settle(
        &self,
        check: impl Fn(&Transcript) -> Result<(), Pending>,
    ) -> Result<(), TarantoolError> {
        let mut transcript = Transcript::new();
        for _ in 0..6 {
            match check(&transcript) {
                Ok(()) => return Ok(()),
                Err(Pending::Fail(error)) => return Err(error),
                Err(Pending::Ask(request)) => self.answer(&mut transcript, request),
            }
        }
        check(&transcript).map_err(|pending| match pending {
            Pending::Fail(error) => error,
            Pending::Ask(request) => panic!("still asking: {:?}", request),
        })
    }

    fn check_ddl(&self, ddl: &Ddl, as_user: u32) -> Result<(), TarantoolError> {
        self.settle(|transcript| access_check_ddl(transcript, ddl, as_user))
    }

    fn check_acl(&self, acl: &Acl, as_user: u32) -> Result<(), TarantoolError> {
        self.settle(|transcript| access_check_acl(transcript, acl, as_user))
    }

    fn check_op(&self, op: &Op, as_user: u32) -> Result<(), TarantoolError> {
        self.settle(|transcript| access_check_op(transcript, op, as_user))
    }

    fn grant(
        &mut self,
        privilege: PrivilegeType,
        object_type: SchemaObjectType,
        object_id: Option<u32>,
        grantee_id: u32,
        grantor_id: u32,
    ) {
        let priv_def = PrivilegeDef {
            privilege,
            object_type,
            object_id,
            grantee_id,
            grantor_id,
            schema_version: 0,
        };
        self.check_op(&Op::Acl(Acl::GrantPrivilege { priv_def }), grantor_id).unwrap();
        self.granted.push(priv_def);
    }

    fn revoke(
        &mut self,
        grantee_id: u32,
        privilege: PrivilegeType,
        object_type: SchemaObjectType,
        object_id: Option<u32>,
    ) {
        let priv_def = PrivilegeDef {
            privilege,
            object_type,
            object_id,
            grantee_id,
            grantor_id: ADMIN_ID,
            schema_version: 0,
        };
        let op = Op::Acl(Acl::RevokePrivilege { priv_def, initiator: ADMIN_ID });
        self.check_op(&op, ADMIN_ID).unwrap();
        self.granted.retain(|p| {
            !(p.grantee_id == grantee_id
                && p.privilege == privilege
                && p.object_type == object_type
                && p.object_id == object_id)
        });
    }
}

fn dummy_auth_def() -> AuthDef {
    AuthDef { method: "chap-sha1".to_string(), data: String::new() }
}

fn user_def(id: u32, name: &str, owner: u32) -> UserDef {
    UserDef {
        id,
        name: name.to_string(),
        schema_version: 0,
        auth: Some(dummy_auth_def()),
        owner,
    }
}

fn role_def(id: u32, name: &str, owner: u32) -> UserDef {
    UserDef { id, name: name.to_string(), schema_version: 0, auth: None, owner }
}

#[test]
fn decode_user_metadata() {
    let instance = Instance::new();
    let mut transcript = Transcript::new();
    assert_eq!(
        user_by_id(&transcript, ADMIN_ID).unwrap_err(),
        Pending::Ask(Request::User(ADMIN_ID))
    );
    instance.answer(&mut transcript, Request::User(ADMIN_ID));
    let sys_user = user_by_id(&transcript, ADMIN_ID).unwrap();
    assert_eq!(sys_user.id, ADMIN_ID);
    assert_eq!(sys_user.owner_id, ADMIN_ID);
    assert_eq!(&sys_user.name, "admin");
    assert_eq!(sys_user.ty, UserMetadataKind::User);
    assert_eq!(sys_user.auth, HashMap::new());
    assert_eq!(sys_user.auth_history, []);
    assert_eq!(sys_user.last_modified, 0);
}

#[test]
fn a_user_comes_back_as_it_was_read() {
    let auth = HashMap::from([("chap-sha1".to_string(), "xyz".to_string())]);
    let user = UserMetadata {
        id: 60,
        owner_id: 50,
        name: "bob".to_string(),
        ty: UserMetadataKind::User,
        auth,
        auth_history: [],
        last_modified: 1700000000,
    };
    let mut transcript = Transcript::new();
    transcript.record_user(60, Ok(Some(user.clone())));
    assert_eq!(user_by_id(&transcript, 60), Ok(&user));
}

#[test]
fn unknown_user_is_reported_by_id() {
    let mut transcript = Transcript::new();
    transcript.record_user(77, Ok(None));
    match user_by_id(&transcript, 77).unwrap_err() {
        Pending::Fail(error) => {
            assert_eq!(error.to_string(), "tarantool error: NoSuchUser: no such user #77")
        }
        pending => panic!("{:?}", pending),
    }
    transcript.record_user(78, Err(TarantoolError::Foreign("disk on fire".to_string())));
    assert_eq!(
        user_by_id(&transcript, 78).unwrap_err(),
        Pending::Fail(TarantoolError::Foreign("disk on fire".to_string()))
    );
}

#[test]
fn validate_access_check_ddl() {
    let user_name = "box_access_check_space_test_user";

    let mut instance = Instance::new();
    let user_id = instance.make_user(user_name, ADMIN_ID);

    // space
    let space_name = "test_box_access_check_ddl";
    let space = instance.make_table(space_name, ADMIN_ID);

    // create space
    {
        let space_to_be_created = Ddl::CreateTable {
            id: 42,
            name: String::from("space_to_be_created"),
            format: vec![],
            primary_key: vec![],
            distribution: Distribution::Global,
            engine: SpaceEngineType::Blackhole,
            owner: user_id,
        };

        let e = instance.check_ddl(&space_to_be_created, user_id).unwrap_err();

        assert_eq!(
            e.to_string(),
            format!("tarantool error: AccessDenied: Create access to space 'space_to_be_created' is denied for user '{user_name}'"),
        );

        instance.grant(PrivilegeType::Create, SchemaObjectType::Table, None, user_id, ADMIN_ID);

        instance.check_ddl(&space_to_be_created, user_id).unwrap();
    }

    let drop_table = Ddl::DropTable { id: space, initiator: user_id };
    let denied = format!("tarantool error: AccessDenied: Drop access to space '{space_name}' is denied for user '{user_name}'");

    // drop can be granted with wildcard, check on particular entity works
    {
        let e = instance.check_ddl(&drop_table, user_id).unwrap_err();
        assert_eq!(e.to_string(), denied);

        instance.grant(PrivilegeType::Drop, SchemaObjectType::Table, None, user_id, ADMIN_ID);

        instance.check_ddl(&drop_table, user_id).unwrap();
    }

    instance.revoke(user_id, PrivilegeType::Drop, SchemaObjectType::Table, None);

    // drop on particular entity works
    {
        let e = instance.check_ddl(&drop_table, user_id).unwrap_err();
        assert_eq!(e.to_string(), denied);

        instance.grant(
            PrivilegeType::Drop,
            SchemaObjectType::Table,
            Some(space),
            user_id,
            ADMIN_ID,
        );

        instance.check_ddl(&drop_table, user_id).unwrap();
    }

    // owner has privileges on the object
    // owner can grant permissions on the object to other users
    {
        let grantee_user_name = format!("{user_name}_grantee");
        let grantee_user_id = instance.make_user(&grantee_user_name, ADMIN_ID);

        let space_name_grant = format!("{space_name}_grant");
        let space_grant = instance.make_table(&space_name_grant, user_id);

        let drop_op = |initiator| Op::DdlPrepare {
            schema_version: 0,
            ddl: Ddl::DropTable { id: space_grant, initiator },
        };
        let write_op = |initiator| {
            Op::Dml(Dml::Insert {
                table: space_grant,
                tuple: TupleBuffer::try_from_vec(vec![0x91, 0x01]).unwrap(),
                initiator,
            })
        };

        // owner himself has permission on an object
        for op in [drop_op(user_id), write_op(user_id)] {
            instance.check_op(&op, user_id).unwrap();
        }

        // owner can grant permissions to another user
        for (privilege, privilege_name, op) in [
            (PrivilegeType::Drop, "Drop", drop_op(grantee_user_id)),
            (PrivilegeType::Write, "Write", write_op(grantee_user_id)),
        ] {
            // run access check for another user, it fails without grant
            let e = instance.check_op(&op, grantee_user_id).unwrap_err();

            assert_eq!(
                e.to_string(),
                format!("tarantool error: AccessDenied: {privilege_name} access to space '{space_name_grant}' is denied for user '{grantee_user_name}'"),
            );

            // grant permission on behalf of the user owning the space
            instance.grant(
                privilege,
                SchemaObjectType::Table,
                Some(space_grant),
                grantee_user_id,
                user_id,
            );

            // access check should succeed
            instance.check_op(&op, grantee_user_id).unwrap();
        }
    }
}

#[test]
fn validate_access_check_acl_user() {
    // create works with passed id
    let actor_user_name = "box_access_check_ddl_test_user_actor";
    let user_under_test_name = "box_access_check_ddl_test_user";

    let mut instance = Instance::new();

    let actor_user_id = instance.make_user(actor_user_name, ADMIN_ID);
    let user_under_test_id = instance.make_user(user_under_test_name, ADMIN_ID);

    // create works with passed id
    {
        let acl = Acl::CreateUser { user_def: user_def(123, "user_to_be_created", actor_user_id) };
        let e = instance.check_acl(&acl, actor_user_id).unwrap_err();

        assert_eq!(
            e.to_string(),
            format!("tarantool error: AccessDenied: Create access to user 'user_to_be_created' is denied for user '{actor_user_name}'"),
        );

        instance.grant(PrivilegeType::Create, SchemaObjectType::User, None, actor_user_id, ADMIN_ID);

        instance.check_acl(&acl, actor_user_id).unwrap();
    }

    let drop_user = Acl::DropUser {
        user_id: user_under_test_id,
        initiator: actor_user_id,
        schema_version: 0,
    };
    let change_auth = Acl::ChangeAuth {
        user_id: user_under_test_id,
        auth: dummy_auth_def(),
        initiator: actor_user_id,
        schema_version: 0,
    };

    // drop and alter can be granted with wildcard, check on particular entity works
    // drop and alter on particular entity work
    for object_id in [None, Some(user_under_test_id)] {
        for (privilege, privilege_name, acl) in [
            (PrivilegeType::Drop, "Drop", &drop_user),
            (PrivilegeType::Alter, "Alter", &change_auth),
        ] {
            let e = instance.check_acl(acl, actor_user_id).unwrap_err();

            assert_eq!(
                e.to_string(),
                format!("tarantool error: AccessDenied: {privilege_name} access to user '{user_under_test_name}' is denied for user '{actor_user_name}'"),
            );

            instance.grant(privilege, SchemaObjectType::User, object_id, actor_user_id, ADMIN_ID);

            instance.check_acl(acl, actor_user_id).unwrap();
        }
        for privilege in [PrivilegeType::Drop, PrivilegeType::Alter] {
            instance.revoke(actor_user_id, privilege, SchemaObjectType::User, object_id);
        }
    }

    // owner has privileges on the object
    // owner can grant permissions on the object to other users
    {
        let grantee_user_name = format!("{actor_user_name}_grantee");
        let grantee_user_id = instance.make_user(&grantee_user_name, ADMIN_ID);

        let user_name_grant = format!("{actor_user_name}_grant");
        let user_id_grant = instance.make_user(&user_name_grant, actor_user_id);

        let drop_op = |initiator| {
            Op::Acl(Acl::DropUser { user_id: user_id_grant, initiator, schema_version: 0 })
        };

        let alter_op = |initiator| {
            Op::Acl(Acl::ChangeAuth {
                user_id: user_id_grant,
                auth: dummy_auth_def(),
                initiator,
                schema_version: 0,
            })
        };

        // owner himself has permission on an object
        for op in [drop_op(actor_user_id), alter_op(actor_user_id)] {
            instance.check_op(&op, actor_user_id).unwrap();
        }

        // owner can grant it to another user
        for (privilege, privilege_name, op) in [
            (PrivilegeType::Drop, "Drop", drop_op(grantee_user_id)),
            (PrivilegeType::Alter, "Alter", alter_op(grantee_user_id)),
        ] {
            // run access check for another user, it fails without grant
            let e = instance.check_op(&op, grantee_user_id).unwrap_err();

            assert_eq!(
                e.to_string(),
                format!("tarantool error: AccessDenied: {privilege_name} access to user '{user_name_grant}' is denied for user '{grantee_user_name}'"),
            );

            // grant permission on behalf of the user owning the user
            instance.grant(
                privilege,
                SchemaObjectType::User,
                Some(user_id_grant),
                grantee_user_id,
                actor_user_id,
            );

            // access check should succeed
            instance.check_op(&op, grantee_user_id).unwrap();
        }
    }
}

#[test]
fn validate_access_check_acl_role() {
    let user_name = "box_access_check_ddl_test_role";

    let mut instance = Instance::new();
    let user_id = instance.make_user(user_name, ADMIN_ID);

    let role_name = "box_access_check_ddl_test_role_some_role";
    let role_id = instance.make_role(role_name, ADMIN_ID);

    // create works with passed id
    {
        let acl = Acl::CreateRole { role_def: role_def(123, "role_to_be_created", user_id) };

        let e = instance.check_acl(&acl, user_id).unwrap_err();

        assert_eq!(
            e.to_string(),
            format!("tarantool error: AccessDenied: Create access to role 'role_to_be_created' is denied for user '{user_name}'"),
        );

        instance.grant(PrivilegeType::Create, SchemaObjectType::Role, None, user_id, ADMIN_ID);

        instance.check_acl(&acl, user_id).unwrap();
    }

    let drop_role = Acl::DropRole { role_id, initiator: user_id, schema_version: 0 };

    // drop can be granted with wildcard, check on particular entity works
    // drop on particular entity works
    for object_id in [None, Some(role_id)] {
        let e = instance.check_acl(&drop_role, user_id).unwrap_err();

        assert_eq!(
            e.to_string(),
            format!("tarantool error: AccessDenied: Drop access to role '{role_name}' is denied for user '{user_name}'"),
        );

        instance.grant(PrivilegeType::Drop, SchemaObjectType::Role, object_id, user_id, ADMIN_ID);

        instance.check_acl(&drop_role, user_id).unwrap();

        instance.revoke(user_id, PrivilegeType::Drop, SchemaObjectType::Role, object_id);
    }

    // owner has privileges on the object
    // owner can grant permissions on the object to other users
    {
        let grantee_user_name = format!("{user_name}_grantee");
        let grantee_user_id = instance.make_user(&grantee_user_name, ADMIN_ID);

        let role_name_grant = format!("{role_name}_grant");
        let role_id_grant = instance.make_role(&role_name_grant, user_id);

        let op = |initiator| {
            Op::Acl(Acl::DropRole { role_id: role_id_grant, initiator, schema_version: 0 })
        };

        // owner himself has permission on an object
        instance.check_op(&op(user_id), user_id).unwrap();

        // run access check for another user, it fails without grant
        let e = instance.check_op(&op(grantee_user_id), grantee_user_id).unwrap_err();

        assert_eq!(
            e.to_string(),
            format!("tarantool error: AccessDenied: Drop access to role '{role_name_grant}' is denied for user '{grantee_user_name}'"),
        );

        // grant permission on behalf of the user owning the role
        instance.grant(
            PrivilegeType::Drop,
            SchemaObjectType::Role,
            Some(role_id_grant),
            grantee_user_id,
            user_id,
        );

        // access check should succeed
        instance.check_op(&op(grantee_user_id), grantee_user_id).unwrap();
    }
}

#[test]
fn prohibit_circular_role_grant() {
    let mut instance = Instance::new();

    let parent_id = instance.make_role("Parent", ADMIN_ID);
    let child_id = instance.make_role("Child", ADMIN_ID);

    // circular grant: child to parent, parent to child should throw error
    instance.grant(
        PrivilegeType::Execute,
        SchemaObjectType::Role,
        Some(child_id),
        parent_id,
        ADMIN_ID,
    );

    // grant child to parent
    instance.clusterwide.push(PrivilegeDef {
        privilege: PrivilegeType::Execute,
        object_type: SchemaObjectType::Role,
        object_id: Some(child_id),
        grantee_id: parent_id,
        grantor_id: ADMIN_ID,
        schema_version: 0,
    });

    // grant parent to child
    let privilege = PrivilegeDef {
        privilege: PrivilegeType::Execute,
        object_type: SchemaObjectType::Role,
        object_id: Some(parent_id),
        grantee_id: child_id,
        grantor_id: ADMIN_ID,
        schema_version: 0,
    };

    let e = instance
        .check_acl(&Acl::GrantPrivilege { priv_def: privilege }, ADMIN_ID)
        .unwrap_err();

    assert_eq!(
        e.to_string(),
        format!("tarantool error: RoleLoop: Granting role Parent to role Child would create a loop"),
    );
}

fn role_grant(role: u32, grantee_id: u32) -> PrivilegeDef {
    PrivilegeDef {
        privilege: PrivilegeType::Execute,
        object_type: SchemaObjectType::Role,
        object_id: Some(role),
        grantee_id,
        grantor_id: ADMIN_ID,
        schema_version: 0,
    }
}

#[test]
fn longer_loops_and_self_grants_are_refused() {
    let mut instance = Instance::new();
    let a = instance.make_role("a", ADMIN_ID);
    let b = instance.make_role("b", ADMIN_ID);
    let c = instance.make_role("c", ADMIN_ID);
    instance.clusterwide.push(role_grant(a, b));
    instance.clusterwide.push(role_grant(b, c));

    for (role, grantee, refused) in
        [(c, a, true), (b, a, true), (a, a, true), (a, c, false), (b, c, false)]
    {
        let acl = Acl::GrantPrivilege { priv_def: role_grant(role, grantee) };
        assert_eq!(instance.check_acl(&acl, ADMIN_ID).is_err(), refused);
    }
}

#[test]
fn a_loop_that_is_already_there_does_not_hang_the_check() {
    let mut instance = Instance::new();
    let a = instance.make_role("a", ADMIN_ID);
    let b = instance.make_role("b", ADMIN_ID);
    let c = instance.make_role("c", ADMIN_ID);
    instance.clusterwide.push(role_grant(a, b));
    instance.clusterwide.push(role_grant(b, a));
    let acl = Acl::GrantPrivilege { priv_def: role_grant(c, a) };
    instance.check_acl(&acl, ADMIN_ID).unwrap();
}

#[test]
fn only_admin_grants_widely() {
    let mut instance = Instance::new();
    let user = instance.make_user("mallory", ADMIN_ID);
    for (object_type, object_id, text) in [
        (SchemaObjectType::Table, None, "table"),
        (SchemaObjectType::User, None, "user"),
        (SchemaObjectType::Role, None, "role"),
        (SchemaObjectType::Universe, None, "universe"),
        (SchemaObjectType::Universe, Some(0), "universe"),
    ] {
        let priv_def = PrivilegeDef {
            privilege: PrivilegeType::Read,
            object_type,
            object_id,
            grantee_id: user,
            grantor_id: user,
            schema_version: 0,
        };
        let grant = Op::Acl(Acl::GrantPrivilege { priv_def });
        let revoke = Op::Acl(Acl::RevokePrivilege { priv_def, initiator: user });
        assert_eq!(
            instance.check_op(&grant, user).unwrap_err().to_string(),
            format!("tarantool error: AccessDenied: Grant access to {text} '' is denied for user 'mallory'")
        );
        assert_eq!(
            instance.check_op(&revoke, user).unwrap_err().to_string(),
            format!("tarantool error: AccessDenied: Revoke access to {text} '' is denied for user 'mallory'")
        );
        instance.check_op(&grant, ADMIN_ID).unwrap();
        instance.check_op(&revoke, ADMIN_ID).unwrap();
    }
}

#[test]
fn only_owners_grant_on_their_objects() {
    let mut instance = Instance::new();
    let user = instance.make_user("mallory", ADMIN_ID);
    let table = instance.make_table("t", ADMIN_ID);
    let role = instance.make_role("r", ADMIN_ID);
    let other = instance.make_user("bob", ADMIN_ID);
    for (object_type, object_id, text) in [
        (SchemaObjectType::Table, table, "table 't'"),
        (SchemaObjectType::Role, role, "role 'r'"),
        (SchemaObjectType::User, other, "user 'bob'"),
    ] {
        let priv_def = PrivilegeDef {
            privilege: PrivilegeType::Drop,
            object_type,
            object_id: Some(object_id),
            grantee_id: user,
            grantor_id: user,
            schema_version: 0,
        };
        let grant = Op::Acl(Acl::GrantPrivilege { priv_def });
        assert_eq!(
            instance.check_op(&grant, user).unwrap_err().to_string(),
            format!("tarantool error: AccessDenied: Grant access to {text} is denied for user 'mallory'")
        );
        instance.check_op(&grant, ADMIN_ID).unwrap();
    }
}

#[test]
fn a_role_is_no_user() {
    let mut instance = Instance::new();
    let role = instance.make_role("r", ADMIN_ID);
    let priv_def = PrivilegeDef {
        privilege: PrivilegeType::Drop,
        object_type: SchemaObjectType::User,
        object_id: Some(role),
        grantee_id: 0,
        grantor_id: ADMIN_ID,
        schema_version: 0,
    };
    let grant = Op::Acl(Acl::GrantPrivilege { priv_def });
    assert_eq!(
        instance.check_op(&grant, ADMIN_ID).unwrap_err(),
        TarantoolError::Raised {
            code: TarantoolErrorCode::NoSuchUser,
            message: "no user named r".to_string(),
        }
    );
}

#[test]
fn everyone_grants_public() {
    let mut instance = Instance::new();
    let user = instance.make_user("alice", ADMIN_ID);
    let other = instance.make_user("bob", ADMIN_ID);
    let mut priv_def = role_grant(2, other);
    // Passing the role on is open to everyone, here as in tarantool's own check.
    let check = |def| access_check_acl_questions(&instance, def, user);
    assert_eq!(
        check(priv_def),
        vec![
            Request::User(user),
            Request::User(2),
            Request::User(other),
            Request::Privileges,
            Request::Access(AccessCheck::Ddl {
                object_name: "public".to_string(),
                object_id: 2,
                owner_id: user,
                object_type: TntSchemaObjectType::Role,
                access: PrivType::Grant,
                as_user: user,
            }),
        ]
    );
    // Any other privilege on it is not.
    priv_def.privilege = PrivilegeType::Drop;
    assert_eq!(check(priv_def), vec![Request::User(user), Request::User(2)]);
}

/// The questions that a check of a grant asks, one after the other.
fn access_check_acl_questions(
    instance: &Instance,
    priv_def: PrivilegeDef,
    as_user: u32,
) -> Vec<Request> {
    let acl = Acl::GrantPrivilege { priv_def };
    let mut transcript = Transcript::new();
    let mut asked = vec![];
    while let Err(Pending::Ask(request)) = access_check_acl(&transcript, &acl, as_user) {
        if let Err(Pending::Ask(again)) = access_check_acl(&transcript, &acl, as_user) {
            instance.answer(&mut transcript, again);
        }
        asked.push(request);
    }
    asked
}

#[test]
fn schema_changes_are_ended_by_admin_only() {
    let mut instance = Instance::new();
    let user = instance.make_user("alice", ADMIN_ID);
    for op in [Op::DdlCommit, Op::DdlAbort] {
        instance.check_op(&op, ADMIN_ID).unwrap();
        assert_eq!(
            instance.check_op(&op, user).unwrap_err().to_string(),
            "tarantool error: AccessDenied: ddl access to universe '' is denied for user 'alice'"
        );
    }
    instance.check_op(&Op::Nop, user).unwrap();
}

#[test]
fn tarantool_has_the_last_word() {
    let op = Op::Dml(Dml::Delete {
        table: 7,
        key: TupleBuffer::try_from_vec(vec![0x91, 0x01]).unwrap(),
        initiator: 50,
    });
    let mut transcript = Transcript::new();
    let request = Request::Access(AccessCheck::Space {
        space_id: 7,
        access: PrivType::Write,
        as_user: 50,
    });
    assert_eq!(access_check_op(&transcript, &op, 50), Err(Pending::Ask(request)));
    // An answer to another question does not count.
    transcript.record_access(
        AccessCheck::Space { space_id: 8, access: PrivType::Write, as_user: 50 },
        Ok(()),
    );
    assert!(access_check_op(&transcript, &op, 50).is_err());
    let check = || AccessCheck::Space { space_id: 7, access: PrivType::Write, as_user: 50 };
    transcript.record_access(check(), Err(TarantoolError::Foreign("no".to_string())));
    assert_eq!(
        access_check_op(&transcript, &op, 50),
        Err(Pending::Fail(TarantoolError::Foreign("no".to_string())))
    );
    transcript.record_access(check(), Ok(()));
    assert_eq!(access_check_op(&transcript, &op, 50), Ok(()));
}

#[test]
fn indexes_follow_their_table() {
    let mut instance = Instance::new();
    let user = instance.make_user("alice", ADMIN_ID);
    let table = instance.make_table("t", ADMIN_ID);
    let create = Ddl::CreateIndex { space_id: table, index_id: 1, by_fields: vec![] };
    let drop = Ddl::DropIndex { space_id: table, index_id: 1 };
    assert_eq!(
        instance.check_ddl(&create, user).unwrap_err().to_string(),
        "tarantool error: AccessDenied: Create access to space 't' is denied for user 'alice'"
    );
    assert_eq!(
        instance.check_ddl(&drop, user).unwrap_err().to_string(),
        "tarantool error: AccessDenied: Drop access to space 't' is denied for user 'alice'"
    );
    instance.check_ddl(&create, ADMIN_ID).unwrap();
    let missing = Ddl::DropTable { id: 9999, initiator: user };
    assert_eq!(instance.check_ddl(&missing, user).unwrap_err().to_string(), "no such table");
}

#[test]
fn operations_without_a_rule_are_told_apart() {
    assert!(is_covered(&Op::Nop));
    assert!(is_covered(&Op::Acl(Acl::DropRole { role_id: 5, initiator: 1, schema_version: 0 })));
    assert!(!is_covered(&Op::BatchDml { ops: vec![] }));
    assert!(!is_covered(&Op::DdlPrepare {
        schema_version: 1,
        ddl: Ddl::DropProcedure { id: 1, initiator: 1 },
    }));
    assert!(!is_covered(&Op::Acl(Acl::RenameUser {
        user_id: 5,
        name: "x".to_string(),
        initiator: 1,
        schema_version: 0,
    })));
}

#[test]
fn creators_are_owners() {
    let create_user = Op::Acl(Acl::CreateUser { user_def: user_def(123, "u", 50) });
    let create_role = Op::Acl(Acl::CreateRole { role_def: role_def(124, "r", 50) });
    for op in [create_user, create_role] {
        assert!(is_owned_by_creator(&op, 50));
        assert!(!is_owned_by_creator(&op, 51));
    }
    assert!(is_owned_by_creator(&Op::Nop, 51));
}
