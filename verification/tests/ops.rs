use picodata::schema::{
    AuthDef, Distribution, PrivilegeDef, PrivilegeType, SchemaObjectType, SpaceEngineType, UserDef,
};
use picodata::traft::error::Error;
use picodata::traft::op::{Acl, Ddl, DdlBuilder, Dml, DmlInLua, DmlKind, Op};
use picodata::traft::vec_of_raw_byte_buf::{deserialize, serialize};
use picodata::tuple::TupleBuffer;

fn tuple(bytes: &[u8]) -> TupleBuffer {
    TupleBuffer::try_from_vec(bytes.to_vec()).unwrap()
}

fn user_def(name: &str) -> UserDef {
    UserDef { id: 33, name: name.to_string(), schema_version: 5, auth: None, owner: 1 }
}

fn priv_def(object_id: Option<u32>) -> PrivilegeDef {
    PrivilegeDef {
        privilege: PrivilegeType::Alter,
        object_type: SchemaObjectType::User,
        object_id,
        grantee_id: 12,
        grantor_id: 11,
        schema_version: 9,
    }
}

fn create_table(distribution: Distribution) -> Ddl {
    Ddl::CreateTable {
        id: 100,
        name: "t".to_string(),
        format: vec![],
        primary_key: vec![],
        distribution,
        engine: SpaceEngineType::Memtx,
        owner: 1,
    }
}

#[test]
fn data_modifications_are_shown() {
    let insert = Dml::Insert { table: 7, tuple: tuple(&[0x92, 1, 2]), initiator: 1 };
    let replace = Dml::Replace { table: 7, tuple: tuple(&[0x91, 0xc3]), initiator: 1 };
    let update = |ops| Dml::Update { table: 7, key: tuple(&[0x91, 1]), ops, initiator: 1 };
    let delete = Dml::Delete { table: 4294967295, key: tuple(&[0x90]), initiator: 1 };
    assert_eq!(Op::Dml(insert.clone()).to_string(), "Insert(7, [1,2])");
    assert_eq!(Op::Dml(replace).to_string(), "Replace(7, [true])");
    assert_eq!(Op::Dml(update(vec![])).to_string(), "Update(7, [1], [])");
    assert_eq!(
        Op::Dml(update(vec![tuple(&[0x93, 0xa1, b'=', 1, 5])])).to_string(),
        "Update(7, [1], [[\"=\",1,5]])"
    );
    assert_eq!(
        Op::Dml(update(vec![tuple(&[0x90]), tuple(&[0x91, 3]), tuple(&[0x90])])).to_string(),
        "Update(7, [1], [[], [3], []])"
    );
    assert_eq!(Op::Dml(delete.clone()).to_string(), "Delete(4294967295, [])");
    assert_eq!(
        Op::BatchDml { ops: vec![insert, delete] }.to_string(),
        "Insert(7, [1,2])\nDelete(4294967295, [])\n"
    );
    assert_eq!(Op::BatchDml { ops: vec![] }.to_string(), "");
}

#[test]
fn schema_changes_are_shown() {
    let show = |ddl| DdlBuilder::with_schema_version(3).with_op(ddl).to_string();
    assert_eq!(
        show(create_table(Distribution::Global)),
        "DdlPrepare(3, CreateTable(100, Global))"
    );
    assert_eq!(
        show(create_table(Distribution::ShardedImplicitly { sharding_key: vec![] })),
        "DdlPrepare(3, CreateTable(100, ShardedImplicitly))"
    );
    assert_eq!(
        show(create_table(Distribution::ShardedByField { field: "f".to_string() })),
        "DdlPrepare(3, CreateTable(100, ShardedByField))"
    );
    assert_eq!(show(Ddl::DropTable { id: 1, initiator: 1 }), "DdlPrepare(3, DropTable(1))");
    assert_eq!(
        show(Ddl::CreateIndex { space_id: 1, index_id: 2, by_fields: vec![] }),
        "DdlPrepare(3, CreateIndex(1, 2))"
    );
    assert_eq!(show(Ddl::DropIndex { space_id: 1, index_id: 2 }), "DdlPrepare(3, DropIndex(1, 2))");
    assert_eq!(
        show(Ddl::CreateProcedure {
            id: 8,
            name: "p".to_string(),
            params: vec![],
            language: "SQL".to_string(),
            body: String::new(),
            security: "invoker".to_string(),
            owner: 1,
        }),
        "DdlPrepare(3, CreateProcedure(8, p))"
    );
    assert_eq!(show(Ddl::DropProcedure { id: 8, initiator: 1 }), "DdlPrepare(3, DropProcedure(8))");
    assert_eq!(
        show(Ddl::RenameProcedure {
            routine_id: 8,
            old_name: "p".to_string(),
            new_name: "q".to_string(),
            initiator_id: 1,
            owner_id: 1,
            schema_version: 3,
        }),
        "DdlPrepare(3, CreateProcedure(8, p -> q))"
    );
    assert_eq!(Op::Nop.to_string(), "Nop");
    assert_eq!(Op::DdlCommit.to_string(), "DdlCommit");
    assert_eq!(Op::DdlAbort.to_string(), "DdlAbort");
}

fn acls() -> Vec<(Acl, &'static str, u64)> {
    let auth = AuthDef { method: "md5".to_string(), data: "x".to_string() };
    vec![
        (Acl::CreateUser { user_def: user_def("bob") }, "CreateUser(5, 33, \"bob\")", 5),
        (
            Acl::RenameUser {
                user_id: 33,
                name: "rob".to_string(),
                initiator: 1,
                schema_version: 6,
            },
            "RenameUser(6, 33, \"rob\")",
            6,
        ),
        (
            Acl::ChangeAuth { user_id: 33, auth, initiator: 2, schema_version: 7 },
            "ChangeAuth(7, 33, 2)",
            7,
        ),
        (Acl::DropUser { user_id: 33, initiator: 2, schema_version: 8 }, "DropUser(8, 33 2)", 8),
        (Acl::CreateRole { role_def: user_def("ops") }, "CreateRole(5, 33, \"ops\")", 5),
        (Acl::DropRole { role_id: 33, initiator: 2, schema_version: 8 }, "DropRole(8, 33)", 8),
        (
            Acl::GrantPrivilege { priv_def: priv_def(Some(3)) },
            "GrantPrivilege(9, 11, 12, user, Some(3), alter)",
            9,
        ),
        (
            Acl::RevokePrivilege { priv_def: priv_def(None), initiator: 1 },
            "RevokePrivilege(9, 11, 12, user, None, alter)",
            9,
        ),
    ]
}

#[test]
fn changes_of_users_and_roles_are_shown() {
    for (acl, text, schema_version) in acls() {
        assert_eq!(acl.schema_version(), schema_version);
        assert_eq!(Op::Acl(acl).to_string(), text);
    }
}

#[test]
fn schema_changes_are_told_apart() {
    for (acl, _, _) in acls() {
        assert!(Op::Acl(acl).is_schema_change());
    }
    let ddl = Ddl::DropTable { id: 1, initiator: 1 };
    assert!(Op::DdlPrepare { schema_version: 1, ddl }.is_schema_change());
    assert!(!Op::Nop.is_schema_change());
    assert!(!Op::DdlCommit.is_schema_change());
    assert!(!Op::DdlAbort.is_schema_change());
    assert!(!Op::BatchDml { ops: vec![] }.is_schema_change());
    let dml = Dml::Delete { table: 1, key: tuple(&[0x90]), initiator: 1 };
    assert!(!Op::from(dml).is_schema_change());
}

#[test]
fn built_in_users_and_roles_are_protected() {
    let auth = || AuthDef { method: "md5".to_string(), data: String::new() };
    let change_auth = |user_id| Acl::ChangeAuth {
        user_id,
        auth: auth(),
        initiator: 1,
        schema_version: 0,
    };
    let drop_user = |user_id| Acl::DropUser { user_id, initiator: 1, schema_version: 0 };
    let drop_role = |role_id| Acl::DropRole { role_id, initiator: 1, schema_version: 0 };
    let text = |acl: Acl| acl.validate().map_err(|e| e.to_string());
    assert_eq!(
        text(change_auth(0)),
        Err("altering guest user's password is not allowed".to_string())
    );
    assert_eq!(text(change_auth(1)), Ok(()));
    assert_eq!(text(drop_user(0)), Err("dropping system user is not allowed".to_string()));
    assert_eq!(text(drop_user(1)), Err("dropping system user is not allowed".to_string()));
    assert_eq!(text(drop_user(2)), Ok(()));
    assert_eq!(text(drop_role(2)), Err("dropping system role is not allowed".to_string()));
    assert_eq!(text(drop_role(31)), Err("dropping system role is not allowed".to_string()));
    assert_eq!(text(drop_role(0)), Ok(()));
    assert_eq!(text(Acl::CreateUser { user_def: user_def("x") }), Ok(()));
}

#[test]
fn operations_keep_table_and_initiator() {
    let t = || Ok::<TupleBuffer, Error>(tuple(&[0x91, 1]));
    for dml in [
        Dml::insert(5, t(), 7).unwrap(),
        Dml::replace(5, t(), 7).unwrap(),
        Dml::update(5, t(), vec![], 7).unwrap(),
        Dml::delete(5, t(), 7).unwrap(),
    ] {
        assert_eq!(dml.space(), 5);
        assert_eq!(dml.initiator(), 7);
    }
    let failed = || Err::<TupleBuffer, Error>(Error::other("cannot serialize"));
    assert_eq!(Dml::insert(5, failed(), 7), Err(Error::other("cannot serialize")));
    assert_eq!(Dml::replace(5, failed(), 7), Err(Error::other("cannot serialize")));
    assert_eq!(Dml::update(5, failed(), vec![], 7), Err(Error::other("cannot serialize")));
    assert_eq!(Dml::delete(5, failed(), 7), Err(Error::other("cannot serialize")));
}

#[test]
fn lua_arguments_are_checked() {
    let args = |kind, t: bool, k: bool, o: bool| DmlInLua {
        table: "t".to_string(),
        kind,
        tuple: if t { Some(tuple(&[0x91, 1])) } else { None },
        key: if k { Some(tuple(&[0x91, 2])) } else { None },
        ops: if o { Some(vec![tuple(&[0x90])]) } else { None },
    };
    let parse = |args| Dml::from_lua_args(Ok(5), args, 7);
    let err = |text: &str| Err(text.to_string());
    assert_eq!(
        parse(args(DmlKind::Insert, true, true, true)),
        Ok(Dml::Insert { table: 5, tuple: tuple(&[0x91, 1]), initiator: 7 })
    );
    assert_eq!(
        parse(args(DmlKind::Insert, false, true, true)),
        err("insert operation must have a tuple")
    );
    assert_eq!(
        parse(args(DmlKind::Replace, true, false, false)),
        Ok(Dml::Replace { table: 5, tuple: tuple(&[0x91, 1]), initiator: 7 })
    );
    assert_eq!(
        parse(args(DmlKind::Replace, false, true, true)),
        err("replace operation must have a tuple")
    );
    assert_eq!(
        parse(args(DmlKind::Update, false, true, true)),
        Ok(Dml::Update {
            table: 5,
            key: tuple(&[0x91, 2]),
            ops: vec![tuple(&[0x90])],
            initiator: 7,
        })
    );
    assert_eq!(
        parse(args(DmlKind::Update, true, false, false)),
        err("update operation must have a key")
    );
    assert_eq!(
        parse(args(DmlKind::Update, true, true, false)),
        err("update operation must have ops")
    );
    assert_eq!(
        parse(args(DmlKind::Delete, false, true, false)),
        Ok(Dml::Delete { table: 5, key: tuple(&[0x91, 2]), initiator: 7 })
    );
    assert_eq!(
        parse(args(DmlKind::Delete, true, false, true)),
        err("delete operation must have a key")
    );
    assert_eq!(
        Dml::from_lua_args(Err("no such table".to_string()), args(DmlKind::Insert, false, false, false), 7),
        err("no such table")
    );
}

#[test]
fn ddl_builder_passes_the_version_on() {
    let op = DdlBuilder::with_schema_version(1).with_op(Ddl::DropTable { id: 1, initiator: 1 });
    assert_eq!(
        op,
        Op::DdlPrepare { schema_version: 1, ddl: Ddl::DropTable { id: 1, initiator: 1 } }
    );
    let op = DdlBuilder::new(Ok(8)).unwrap().with_op(Ddl::DropTable { id: 1, initiator: 1 });
    assert_eq!(
        op,
        Op::DdlPrepare { schema_version: 8, ddl: Ddl::DropTable { id: 1, initiator: 1 } }
    );
    assert_eq!(DdlBuilder::new(Err(Error::Timeout)).err(), Some(Error::Timeout));
}

#[test]
fn tuple_lists_are_read_back() {
    let tuples = vec![tuple(&[0x90]), tuple(&[0xdc, 0, 1, 5]), tuple(&[0xdd, 0, 0, 0, 0])];
    let bytes: Vec<Vec<u8>> = serialize(&tuples).iter().map(|buf| buf.to_vec()).collect();
    assert_eq!(bytes, vec![vec![0x90], vec![0xdc, 0, 1, 5], vec![0xdd, 0, 0, 0, 0]]);
    assert_eq!(deserialize(bytes), Ok(tuples));
    assert_eq!(deserialize(vec![]), Ok(vec![]));
}

#[test]
fn the_first_buffer_that_is_no_tuple_is_reported() {
    let bad = TupleBuffer::try_from_vec(vec![0x01]).unwrap_err();
    let worse = TupleBuffer::try_from_vec(vec![]).unwrap_err();
    assert_ne!(bad, worse);
    assert_eq!(deserialize(vec![vec![0x90], vec![0x01], vec![]]), Err(bad));
    assert_eq!(deserialize(vec![vec![0x90], vec![], vec![0x01]]), Err(worse));
}
