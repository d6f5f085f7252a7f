//! Operations of the replicated log.
use vstd::prelude::*;
use vstd::string::*;

use crate::json::{display_tuple, tuple_text};
use crate::schema::{
    AuthDef, Distribution, Field, IndexId, Part, PrivilegeDef, RoutineId, RoutineParam,
    SpaceEngineType, SpaceId, UserDef, UserId, ADMIN_ID, GUEST_ID, PUBLIC_ID, SUPER_ID,
};
use crate::text::{decimal, push_decimal};
use crate::traft::error::Error;
use crate::tuple::TupleBuffer;

verus! {

/// The operation on the raft state machine.
#[derive(Clone, Debug, PartialEq, Eq)]
pub enum Op {
    /// No operation.
    Nop,
    /// Cluster-wide data modification operation.
    /// Should be used to manipulate the cluster-wide configuration.
    Dml(Dml),
    /// Batch cluster-wide data modification operation.
    BatchDml { ops: Vec<Dml> },
    /// Start cluster-wide data schema definition operation.
    /// Should be used to manipulate the cluster-wide schema.
    ///
    /// The provided DDL operation will be set as pending.
    /// Only one pending DDL operation can exist at the same time.
    DdlPrepare { schema_version: u64, ddl: Ddl },
    /// Commit the pending DDL operation.
    DdlCommit,
    /// Abort the pending DDL operation.
    DdlAbort,
    /// Cluster-wide access control list change operation.
    Acl(Acl),
}

/// A batch that borrows its operations. It stands for the same operation as
/// [`Op::BatchDml`]. The bytes of either on the wire are the serializer's, and nothing is said
/// of them here.
#[derive(Debug, PartialEq, Eq)]
pub enum BatchRef<'ops> {
    BatchDml { ops: &'ops [Dml] },
}

/// Cluster-wide data modification operation.
#[derive(Clone, Debug, PartialEq, Eq)]
pub enum Dml {
    Insert { table: SpaceId, tuple: TupleBuffer, initiator: UserId },
    Replace { table: SpaceId, tuple: TupleBuffer, initiator: UserId },
    Update {
        table: SpaceId,
        /// Key in primary index
        key: TupleBuffer,
        ops: Vec<TupleBuffer>,
        initiator: UserId,
    },
    Delete {
        table: SpaceId,
        /// Key in primary index
        key: TupleBuffer,
        initiator: UserId,
    },
}

/// The kinds of data modification.
#[derive(Clone, Copy, Debug, PartialEq, Eq, Structural)]
pub enum DmlKind {
    Insert,
    Replace,
    Update,
    Delete,
}

/// A lua table that describes a [`Dml`] operation.
#[derive(Clone, Debug, PartialEq, Eq)]
pub struct DmlInLua {
    pub table: String,
    pub kind: DmlKind,
    pub tuple: Option<TupleBuffer>,
    pub key: Option<TupleBuffer>,
    pub ops: Option<Vec<TupleBuffer>>,
}

/// A lua table that describes a batch of [`Dml`] operations.
#[derive(Clone, Debug, PartialEq, Eq)]
pub struct BatchDmlInLua {
    pub ops: Vec<DmlInLua>,
}

/// Represents Ddl operations performed on the cluster.
///
/// For the purpose of audit log some variants keep the initiator. For `Create<...>`
/// operations initiator and owner are the same, so only the owner is kept.
#[derive(Clone, Debug, PartialEq, Eq)]
pub enum Ddl {
    CreateTable {
        id: SpaceId,
        name: String,
        format: Vec<Field>,
        primary_key: Vec<Part>,
        distribution: Distribution,
        engine: SpaceEngineType,
        owner: UserId,
    },
    DropTable { id: SpaceId, initiator: UserId },
    CreateIndex { space_id: SpaceId, index_id: IndexId, by_fields: Vec<Part> },
    DropIndex { space_id: SpaceId, index_id: IndexId },
    CreateProcedure {
        id: RoutineId,
        name: String,
        params: Vec<RoutineParam>,
        language: String,
        body: String,
        security: String,
        owner: UserId,
    },
    DropProcedure { id: RoutineId, initiator: UserId },
    RenameProcedure {
        routine_id: u32,
        old_name: String,
        new_name: String,
        initiator_id: UserId,
        owner_id: UserId,
        schema_version: u64,
    },
}

/// Cluster-wide access control list change operation.
#[derive(Clone, Debug, PartialEq, Eq)]
pub enum Acl {
    /// Create a tarantool user. Grant it default privileges.
    CreateUser { user_def: UserDef },
    /// Rename a tarantool user.
    RenameUser { user_id: UserId, name: String, initiator: UserId, schema_version: u64 },
    /// Update the tarantool user's authentication details (e.g. password).
    ChangeAuth { user_id: UserId, auth: AuthDef, initiator: UserId, schema_version: u64 },
    /// Drop a tarantool user and any entities owned by it.
    DropUser { user_id: UserId, initiator: UserId, schema_version: u64 },
    /// Create a tarantool role. Grant it default privileges.
    CreateRole { role_def: UserDef },
    /// Drop a tarantool role and revoke it from any grantees.
    DropRole { role_id: UserId, initiator: UserId, schema_version: u64 },
    /// Grant some privilege to a user or a role.
    GrantPrivilege { priv_def: PrivilegeDef },
    /// Revoke some privilege from a user or a role.
    RevokePrivilege { priv_def: PrivilegeDef, initiator: UserId },
}

////////////////////////////////////////////////////////////////////////////////
// Texts of operations
////////////////////////////////////////////////////////////////////////////////

/// Tuples shown one after the other.
pub open spec fn joined_tuples(tuples: Seq<TupleBuffer>) -> Seq<char>
    decreases tuples.len(),
{
    if tuples.len() == 0 {
        Seq::empty()
    } else if tuples.len() == 1 {
        tuple_text(tuples[0]@)
    } else {
        joined_tuples(tuples.drop_last()) + ", "@ + tuple_text(tuples.last()@)
    }
}

/// A list of tuples as shown.
pub open spec fn tuples_text(tuples: Seq<TupleBuffer>) -> Seq<char> {
    "["@ + joined_tuples(tuples) + "]"@
}

/// A data modification as shown.
pub open spec fn dml_text(dml: Dml) -> Seq<char> {
    match dml {
        Dml::Insert { table, tuple, .. } => "Insert("@ + decimal(table as nat) + ", "@
            + tuple_text(tuple@) + ")"@,
        Dml::Replace { table, tuple, .. } => "Replace("@ + decimal(table as nat) + ", "@
            + tuple_text(tuple@) + ")"@,
        Dml::Update { table, key, ops, .. } => "Update("@ + decimal(table as nat) + ", "@
            + tuple_text(key@) + ", "@ + tuples_text(ops@) + ")"@,
        Dml::Delete { table, key, .. } => "Delete("@ + decimal(table as nat) + ", "@
            + tuple_text(key@) + ")"@,
    }
}

/// A batch as shown: one line for each modification.
pub open spec fn batch_text(ops: Seq<Dml>) -> Seq<char>
    decreases ops.len(),
{
    if ops.len() == 0 {
        Seq::empty()
    } else {
        batch_text(ops.drop_last()) + dml_text(ops.last()) + "\n"@
    }
}

/// A batch is shown operation by operation, each on a line of its own: what is shown of one
/// part does not depend on the other.
pub proof fn law_batch_is_shown_line_by_line(first: Seq<Dml>, rest: Seq<Dml>)
    ensures
        batch_text(first + rest) == batch_text(first) + batch_text(rest),
        forall|dml: Dml| #[trigger] batch_text(seq![dml]) == dml_text(dml) + "\n"@,
    decreases rest.len(),
{
    if rest.len() == 0 {
        assert(first + rest =~= first);
        assert(batch_text(first) + batch_text(rest) =~= batch_text(first));
    } else {
        law_batch_is_shown_line_by_line(first, rest.drop_last());
        assert((first + rest).drop_last() =~= first + rest.drop_last());
        assert(batch_text(first + rest) =~= batch_text(first) + batch_text(rest));
    }
    assert forall|dml: Dml| #[trigger] batch_text(seq![dml]) == dml_text(dml) + "\n"@ by {
        reveal_with_fuel(batch_text, 2);
        assert(seq![dml].drop_last() =~= Seq::empty());
        assert(batch_text(seq![dml]) =~= dml_text(dml) + "\n"@);
    }
}

/// The name of a distribution, without its parameters.
pub open spec fn distribution_name(distribution: Distribution) -> Seq<char> {
    match distribution {
        Distribution::Global => "Global"@,
        Distribution::ShardedImplicitly { .. } => "ShardedImplicitly"@,
        Distribution::ShardedByField { .. } => "ShardedByField"@,
    }
}

/// A schema change as shown. Renaming a procedure is shown as its creation.
pub open spec fn ddl_text(ddl: Ddl) -> Seq<char> {
    match ddl {
        Ddl::CreateTable { id, distribution, .. } => "CreateTable("@ + decimal(id as nat) + ", "@
            + distribution_name(distribution) + ")"@,
        Ddl::DropTable { id, .. } => "DropTable("@ + decimal(id as nat) + ")"@,
        Ddl::CreateIndex { space_id, index_id, .. } => "CreateIndex("@ + decimal(space_id as nat)
            + ", "@ + decimal(index_id as nat) + ")"@,
        Ddl::DropIndex { space_id, index_id } => "DropIndex("@ + decimal(space_id as nat) + ", "@
            + decimal(index_id as nat) + ")"@,
        Ddl::CreateProcedure { id, name, .. } => "CreateProcedure("@ + decimal(id as nat) + ", "@
            + name@ + ")"@,
        Ddl::DropProcedure { id, .. } => "DropProcedure("@ + decimal(id as nat) + ")"@,
        Ddl::RenameProcedure { routine_id, old_name, new_name, .. } => "CreateProcedure("@
            + decimal(routine_id as nat) + ", "@ + old_name@ + " -> "@ + new_name@ + ")"@,
    }
}

/// An optional object identifier as shown.
pub open spec fn object_id_text(object_id: Option<u32>) -> Seq<char> {
    match object_id {
        Some(id) => "Some("@ + decimal(id as nat) + ")"@,
        None => "None"@,
    }
}

/// A privilege as shown.
pub open spec fn privilege_text(def: PrivilegeDef) -> Seq<char> {
    decimal(def.schema_version as nat) + ", "@ + decimal(def.grantor_id as nat) + ", "@ + decimal(
        def.grantee_id as nat,
    ) + ", "@ + def.object_type.name() + ", "@ + object_id_text(def.object_id) + ", "@
        + def.privilege.name()
}

/// A change of users, roles or privileges as shown.
pub open spec fn acl_text(acl: Acl) -> Seq<char> {
    match acl {
        Acl::CreateUser { user_def } => "CreateUser("@ + decimal(user_def.schema_version as nat)
            + ", "@ + decimal(user_def.id as nat) + ", \""@ + user_def.name@ + "\")"@,
        Acl::RenameUser { user_id, name, schema_version, .. } => "RenameUser("@ + decimal(
            schema_version as nat,
        ) + ", "@ + decimal(user_id as nat) + ", \""@ + name@ + "\")"@,
        Acl::ChangeAuth { user_id, initiator, schema_version, .. } => "ChangeAuth("@ + decimal(
            schema_version as nat,
        ) + ", "@ + decimal(user_id as nat) + ", "@ + decimal(initiator as nat) + ")"@,
        Acl::DropUser { user_id, initiator, schema_version } => "DropUser("@ + decimal(
            schema_version as nat,
        ) + ", "@ + decimal(user_id as nat) + " "@ + decimal(initiator as nat) + ")"@,
        Acl::CreateRole { role_def } => "CreateRole("@ + decimal(role_def.schema_version as nat)
            + ", "@ + decimal(role_def.id as nat) + ", \""@ + role_def.name@ + "\")"@,
        Acl::DropRole { role_id, schema_version, .. } => "DropRole("@ + decimal(
            schema_version as nat,
        ) + ", "@ + decimal(role_id as nat) + ")"@,
        Acl::GrantPrivilege { priv_def } => "GrantPrivilege("@ + privilege_text(priv_def) + ")"@,
        Acl::RevokePrivilege { priv_def, .. } => "RevokePrivilege("@ + privilege_text(priv_def)
            + ")"@,
    }
}

/// An operation as shown.
pub open spec fn op_text(op: Op) -> Seq<char> {
    match op {
        Op::Nop => "Nop"@,
        Op::Dml(dml) => dml_text(dml),
        Op::BatchDml { ops } => batch_text(ops@),
        Op::DdlPrepare { schema_version, ddl } => "DdlPrepare("@ + decimal(schema_version as nat)
            + ", "@ + ddl_text(ddl) + ")"@,
        Op::DdlCommit => "DdlCommit"@,
        Op::DdlAbort => "DdlAbort"@,
        Op::Acl(acl) => acl_text(acl),
    }
}

fn show_tuples(tuples: &Vec<TupleBuffer>) -> (r: String)
    ensures
        r@ == tuples_text(tuples@),
{
    let mut items = String::new();
    let mut i: usize = 0;
    while i < tuples.len()
        invariant
            i <= tuples.len(),
            items@ == joined_tuples(tuples@.take(i as int)),
        decreases tuples.len() - i,
    {
        if i > 0 {
            items.append(", ");
        }
        items.append(display_tuple(&tuples[i]).as_str());
        i = i + 1;
        proof {
            assert(tuples@.take(i as int).drop_last() =~= tuples@.take(i - 1));
            assert(i == 1 ==> Seq::<char>::empty() + tuple_text(tuples@[0]@) =~= tuple_text(
                tuples@[0]@,
            ));
        }
    }
    assert(tuples@.take(i as int) =~= tuples@);
    let mut out = "[".to_owned();
    out.append(items.as_str());
    out.append("]");
    out
}

fn show_dml(dml: &Dml) -> (r: String)
    ensures
        r@ == dml_text(*dml),
{
    match dml {
        Dml::Insert { table, tuple, .. } => {
            let mut out = "Insert(".to_owned();
            push_decimal(&mut out, *table as u64);
            out.append(", ");
            out.append(display_tuple(tuple).as_str());
            out.append(")");
            out
        },
        Dml::Replace { table, tuple, .. } => {
            let mut out = "Replace(".to_owned();
            push_decimal(&mut out, *table as u64);
            out.append(", ");
            out.append(display_tuple(tuple).as_str());
            out.append(")");
            out
        },
        Dml::Update { table, key, ops, .. } => {
            let mut out = "Update(".to_owned();
            push_decimal(&mut out, *table as u64);
            out.append(", ");
            out.append(display_tuple(key).as_str());
            out.append(", ");
            out.append(show_tuples(ops).as_str());
            out.append(")");
            out
        },
        Dml::Delete { table, key, .. } => {
            let mut out = "Delete(".to_owned();
            push_decimal(&mut out, *table as u64);
            out.append(", ");
            out.append(display_tuple(key).as_str());
            out.append(")");
            out
        },
    }
}

fn show_batch(ops: &Vec<Dml>) -> (r: String)
    ensures
        r@ == batch_text(ops@),
{
    let mut out = String::new();
    let mut i: usize = 0;
    while i < ops.len()
        invariant
            i <= ops.len(),
            out@ == batch_text(ops@.take(i as int)),
        decreases ops.len() - i,
    {
        out.append(show_dml(&ops[i]).as_str());
        out.append("\n");
        i = i + 1;
        assert(ops@.take(i as int).drop_last() =~= ops@.take(i - 1));
    }
    assert(ops@.take(i as int) =~= ops@);
    out
}

fn show_ddl(ddl: &Ddl) -> (r: String)
    ensures
        r@ == ddl_text(*ddl),
{
    match ddl {
        Ddl::CreateTable { id, distribution, .. } => {
            let mut out = "CreateTable(".to_owned();
            push_decimal(&mut out, *id as u64);
            out.append(", ");
            out.append(
                match distribution {
                    Distribution::Global => "Global",
                    Distribution::ShardedImplicitly { .. } => "ShardedImplicitly",
                    Distribution::ShardedByField { .. } => "ShardedByField",
                },
            );
            out.append(")");
            out
        },
        Ddl::DropTable { id, .. } => {
            let mut out = "DropTable(".to_owned();
            push_decimal(&mut out, *id as u64);
            out.append(")");
            out
        },
        Ddl::CreateIndex { space_id, index_id, .. } => {
            let mut out = "CreateIndex(".to_owned();
            push_decimal(&mut out, *space_id as u64);
            out.append(", ");
            push_decimal(&mut out, *index_id as u64);
            out.append(")");
            out
        },
        Ddl::DropIndex { space_id, index_id } => {
            let mut out = "DropIndex(".to_owned();
            push_decimal(&mut out, *space_id as u64);
            out.append(", ");
            push_decimal(&mut out, *index_id as u64);
            out.append(")");
            out
        },
        Ddl::CreateProcedure { id, name, .. } => {
            let mut out = "CreateProcedure(".to_owned();
            push_decimal(&mut out, *id as u64);
            out.append(", ");
            out.append(name.as_str());
            out.append(")");
            out
        },
        Ddl::DropProcedure { id, .. } => {
            let mut out = "DropProcedure(".to_owned();
            push_decimal(&mut out, *id as u64);
            out.append(")");
            out
        },
        Ddl::RenameProcedure { routine_id, old_name, new_name, .. } => {
            let mut out = "CreateProcedure(".to_owned();
            push_decimal(&mut out, *routine_id as u64);
            out.append(", ");
            out.append(old_name.as_str());
            out.append(" -> ");
            out.append(new_name.as_str());
            out.append(")");
            out
        },
    }
}

fn show_object_id(object_id: Option<u32>) -> (r: String)
    ensures
        r@ == object_id_text(object_id),
{
    match object_id {
        Some(id) => {
            let mut out = "Some(".to_owned();
            push_decimal(&mut out, id as u64);
            out.append(")");
            out
        },
        None => "None".to_owned(),
    }
}

fn show_privilege(def: &PrivilegeDef) -> (r: String)
    ensures
        r@ == privilege_text(*def),
{
    let mut out = String::new();
    push_decimal(&mut out, def.schema_version);
    assert(out@ =~= decimal(def.schema_version as nat));
    out.append(", ");
    push_decimal(&mut out, def.grantor_id as u64);
    out.append(", ");
    push_decimal(&mut out, def.grantee_id as u64);
    out.append(", ");
    out.append(def.object_type.as_str());
    out.append(", ");
    out.append(show_object_id(def.object_id).as_str());
    out.append(", ");
    out.append(def.privilege.as_str());
    out
}

/// `head(version, id, "name")`.
fn show_named(head: &str, schema_version: u64, id: UserId, name: &String) -> (r: String)
    ensures
        r@ == head@ + decimal(schema_version as nat) + ", "@ + decimal(id as nat) + ", \""@ + name@
            + "\")"@,
{
    let mut out = head.to_owned();
    push_decimal(&mut out, schema_version);
    out.append(", ");
    push_decimal(&mut out, id as u64);
    out.append(", \"");
    out.append(name.as_str());
    out.append("\")");
    out
}

fn show_acl(acl: &Acl) -> (r: String)
    ensures
        r@ == acl_text(*acl),
{
    match acl {
        Acl::CreateUser { user_def } => show_named(
            "CreateUser(",
            user_def.schema_version,
            user_def.id,
            &user_def.name,
        ),
        Acl::RenameUser { user_id, name, schema_version, .. } => show_named(
            "RenameUser(",
            *schema_version,
            *user_id,
            name,
        ),
        Acl::ChangeAuth { user_id, initiator, schema_version, .. } => {
            let mut out = "ChangeAuth(".to_owned();
            push_decimal(&mut out, *schema_version);
            out.append(", ");
            push_decimal(&mut out, *user_id as u64);
            out.append(", ");
            push_decimal(&mut out, *initiator as u64);
            out.append(")");
            out
        },
        Acl::DropUser { user_id, initiator, schema_version } => {
            let mut out = "DropUser(".to_owned();
            push_decimal(&mut out, *schema_version);
            out.append(", ");
            push_decimal(&mut out, *user_id as u64);
            out.append(" ");
            push_decimal(&mut out, *initiator as u64);
            out.append(")");
            out
        },
        Acl::CreateRole { role_def } => show_named(
            "CreateRole(",
            role_def.schema_version,
            role_def.id,
            &role_def.name,
        ),
        Acl::DropRole { role_id, schema_version, .. } => {
            let mut out = "DropRole(".to_owned();
            push_decimal(&mut out, *schema_version);
            out.append(", ");
            push_decimal(&mut out, *role_id as u64);
            out.append(")");
            out
        },
        Acl::GrantPrivilege { priv_def } => {
            let mut out = "GrantPrivilege(".to_owned();
            out.append(show_privilege(priv_def).as_str());
            out.append(")");
            out
        },
        Acl::RevokePrivilege { priv_def, .. } => {
            let mut out = "RevokePrivilege(".to_owned();
            out.append(show_privilege(priv_def).as_str());
            out.append(")");
            out
        },
    }
}

impl Op {
    /// Writes the operation out, for the log and for diagnostics.
    pub fn to_string(&self) -> (r: String)
        ensures
            r@ == op_text(*self),
    {
        match self {
            Op::Nop => "Nop".to_owned(),
            Op::Dml(dml) => show_dml(dml),
            Op::BatchDml { ops } => show_batch(ops),
            Op::DdlPrepare { schema_version, ddl } => {
                let mut out = "DdlPrepare(".to_owned();
                push_decimal(&mut out, *schema_version);
                out.append(", ");
                out.append(show_ddl(ddl).as_str());
                out.append(")");
                out
            },
            Op::DdlCommit => "DdlCommit".to_owned(),
            Op::DdlAbort => "DdlAbort".to_owned(),
            Op::Acl(acl) => show_acl(acl),
        }
    }

    /// Whether the operation changes the schema, and with it the schema version.
    pub fn is_schema_change(&self) -> (r: bool)
        ensures
            r == (self is DdlPrepare || self is Acl),
    {
        match self {
            Op::Nop | Op::Dml(_) | Op::DdlAbort | Op::DdlCommit | Op::BatchDml { .. } => false,
            Op::DdlPrepare { .. } | Op::Acl(_) => true,
        }
    }
}

////////////////////////////////////////////////////////////////////////////////
// Dml
////////////////////////////////////////////////////////////////////////////////

impl Dml {
    pub open spec fn spec_initiator(self) -> UserId {
        match self {
            Dml::Insert { initiator, .. } => initiator,
            Dml::Replace { initiator, .. } => initiator,
            Dml::Update { initiator, .. } => initiator,
            Dml::Delete { initiator, .. } => initiator,
        }
    }

    pub open spec fn spec_space(self) -> SpaceId {
        match self {
            Dml::Insert { table, .. } => table,
            Dml::Replace { table, .. } => table,
            Dml::Update { table, .. } => table,
            Dml::Delete { table, .. } => table,
        }
    }

    /// The user on whose behalf the data is modified.
    pub fn initiator(&self) -> (r: UserId)
        ensures
            r == self.spec_initiator(),
    {
        match self {
            Dml::Insert { initiator, .. } => *initiator,
            Dml::Replace { initiator, .. } => *initiator,
            Dml::Update { initiator, .. } => *initiator,
            Dml::Delete { initiator, .. } => *initiator,
        }
    }

    /// The table that is modified.
    pub fn space(&self) -> (r: SpaceId)
        ensures
            r == self.spec_space(),
    {
        match self {
            Dml::Insert { table, .. } => *table,
            Dml::Replace { table, .. } => *table,
            Dml::Update { table, .. } => *table,
            Dml::Delete { table, .. } => *table,
        }
    }

    /// A [`Dml::Insert`] of the serialized `tuple`, unless serializing it failed.
    pub fn insert<E>(space: SpaceId, tuple: Result<TupleBuffer, E>, initiator: UserId) -> (r: Result<
        Dml,
        E,
    >)
        ensures
            r == (match tuple {
                Ok(tuple) => Ok::<Dml, E>(Dml::Insert { table: space, tuple, initiator }),
                Err(error) => Err(error),
            }),
    {
        match tuple {
            Ok(tuple) => Ok(Dml::Insert { table: space, tuple, initiator }),
            Err(error) => Err(error),
        }
    }

    /// A [`Dml::Replace`] with the serialized `tuple`, unless serializing it failed.
    pub fn replace<E>(space: SpaceId, tuple: Result<TupleBuffer, E>, initiator: UserId) -> (r:
        Result<Dml, E>)
        ensures
            r == (match tuple {
                Ok(tuple) => Ok::<Dml, E>(Dml::Replace { table: space, tuple, initiator }),
                Err(error) => Err(error),
            }),
    {
        match tuple {
            Ok(tuple) => Ok(Dml::Replace { table: space, tuple, initiator }),
            Err(error) => Err(error),
        }
    }

    /// A [`Dml::Update`] at the serialized `key`, unless serializing it failed.
    pub fn update<E>(
        space: SpaceId,
        key: Result<TupleBuffer, E>,
        ops: Vec<TupleBuffer>,
        initiator: UserId,
    ) -> (r: Result<Dml, E>)
        ensures
            r == (match key {
                Ok(key) => Ok::<Dml, E>(Dml::Update { table: space, key, ops, initiator }),
                Err(error) => Err(error),
            }),
    {
        match key {
            Ok(key) => Ok(Dml::Update { table: space, key, ops, initiator }),
            Err(error) => Err(error),
        }
    }

    /// A [`Dml::Delete`] at the serialized `key`, unless serializing it failed.
    pub fn delete<E>(space: SpaceId, key: Result<TupleBuffer, E>, initiator: UserId) -> (r: Result<
        Dml,
        E,
    >)
        ensures
            r == (match key {
                Ok(key) => Ok::<Dml, E>(Dml::Delete { table: space, key, initiator }),
                Err(error) => Err(error),
            }),
    {
        match key {
            Ok(key) => Ok(Dml::Delete { table: space, key, initiator }),
            Err(error) => Err(error),
        }
    }

    /// What is wrong with the arguments of a lua api function such as `pico.cas`, if
    /// anything is: the table is looked up first, and a key is asked for before the ops.
    pub open spec fn lua_args_fault(table: Result<SpaceId, String>, op: DmlInLua) -> Option<
        Seq<char>,
    > {
        match table {
            Err(text) => Some(text@),
            Ok(_) => match op.kind {
                DmlKind::Insert => if op.tuple is None {
                    Some("insert operation must have a tuple"@)
                } else {
                    None
                },
                DmlKind::Replace => if op.tuple is None {
                    Some("replace operation must have a tuple"@)
                } else {
                    None
                },
                DmlKind::Update => if op.key is None {
                    Some("update operation must have a key"@)
                } else if op.ops is None {
                    Some("update operation must have ops"@)
                } else {
                    None
                },
                DmlKind::Delete => if op.key is None {
                    Some("delete operation must have a key"@)
                } else {
                    None
                },
            },
        }
    }

    /// The operation that faultless arguments describe.
    pub open spec fn described(table: SpaceId, op: DmlInLua, initiator: UserId) -> Dml {
        match op.kind {
            DmlKind::Insert => Dml::Insert { table, tuple: op.tuple->0, initiator },
            DmlKind::Replace => Dml::Replace { table, tuple: op.tuple->0, initiator },
            DmlKind::Update => Dml::Update { table, key: op.key->0, ops: op.ops->0, initiator },
            DmlKind::Delete => Dml::Delete { table, key: op.key->0, initiator },
        }
    }

    /// Turns the arguments of a lua api function such as `pico.cas` into an operation.
    /// `table` is what looking up the table by its name gave.
    pub fn from_lua_args(table: Result<SpaceId, String>, op: DmlInLua, initiator: UserId) -> (r:
        Result<Dml, String>)
        ensures
            r is Ok <==> Dml::lua_args_fault(table, op) is None,
            r matches Ok(dml) ==> dml == Dml::described(table->Ok_0, op, initiator),
            r matches Err(text) ==> Dml::lua_args_fault(table, op) == Some(text@),
    {
        let table = match table {
            Ok(table) => table,
            Err(text) => return Err(text),
        };
        match op.kind {
            DmlKind::Insert => match op.tuple {
                Some(tuple) => Ok(Dml::Insert { table, tuple, initiator }),
                None => Err("insert operation must have a tuple".to_owned()),
            },
            DmlKind::Replace => match op.tuple {
                Some(tuple) => Ok(Dml::Replace { table, tuple, initiator }),
                None => Err("replace operation must have a tuple".to_owned()),
            },
            DmlKind::Update => match op.key {
                Some(key) => match op.ops {
                    Some(ops) => Ok(Dml::Update { table, key, ops, initiator }),
                    None => Err("update operation must have ops".to_owned()),
                },
                None => Err("update operation must have a key".to_owned()),
            },
            DmlKind::Delete => match op.key {
                Some(key) => Ok(Dml::Delete { table, key, initiator }),
                None => Err("delete operation must have a key".to_owned()),
            },
        }
    }
}

/// An operation that lua arguments describe is of their kind, on the table that was found, by
/// the user who asked for it.
pub proof fn law_lua_args_keep_table_and_initiator(
    table: SpaceId,
    op: DmlInLua,
    initiator: UserId,
)
    ensures
        Dml::described(table, op, initiator).spec_space() == table,
        Dml::described(table, op, initiator).spec_initiator() == initiator,
        Dml::described(table, op, initiator) is Insert <==> op.kind == DmlKind::Insert,
        Dml::described(table, op, initiator) is Replace <==> op.kind == DmlKind::Replace,
        Dml::described(table, op, initiator) is Update <==> op.kind == DmlKind::Update,
        Dml::described(table, op, initiator) is Delete <==> op.kind == DmlKind::Delete,
{
}

impl From<Dml> for Op {
    fn from(op: Dml) -> (r: Op) {
        Op::Dml(op)
    }
}

impl vstd::std_specs::convert::FromSpecImpl<Dml> for Op {
    open spec fn obeys_from_spec() -> bool {
        true
    }

    open spec fn from_spec(op: Dml) -> Op {
        Op::Dml(op)
    }
}

////////////////////////////////////////////////////////////////////////////////
// Ddl
////////////////////////////////////////////////////////////////////////////////

/// Builder for [`Op::DdlPrepare`] operations.
pub struct DdlBuilder {
    schema_version: u64,
}

impl View for DdlBuilder {
    type V = u64;

    /// The schema version of the operations that are built.
    closed spec fn view(&self) -> u64 {
        self.schema_version
    }
}

impl DdlBuilder {
    /// A builder for the next schema version, which the storage has given or failed to give.
    pub fn new(next_schema_version: Result<u64, Error>) -> (r: Result<DdlBuilder, Error>)
        ensures
            match next_schema_version {
                Ok(version) => r matches Ok(builder) && builder@ == version,
                Err(error) => r == Err::<DdlBuilder, Error>(error),
            },
    {
        match next_schema_version {
            Ok(version) => Ok(DdlBuilder::with_schema_version(version)),
            Err(error) => Err(error),
        }
    }

    /// Sets current schema version.
    pub fn with_schema_version(version: u64) -> (r: DdlBuilder)
        ensures
            r@ == version,
    {
        DdlBuilder { schema_version: version }
    }

    pub fn with_op(&self, op: Ddl) -> (r: Op)
        ensures
            r == (Op::DdlPrepare { schema_version: self@, ddl: op }),
    {
        Op::DdlPrepare { schema_version: self.schema_version, ddl: op }
    }
}

////////////////////////////////////////////////////////////////////////////////
// Acl
////////////////////////////////////////////////////////////////////////////////

impl Acl {
    pub open spec fn spec_schema_version(self) -> u64 {
        match self {
            Acl::CreateUser { user_def } => user_def.schema_version,
            Acl::RenameUser { schema_version, .. } => schema_version,
            Acl::ChangeAuth { schema_version, .. } => schema_version,
            Acl::DropUser { schema_version, .. } => schema_version,
            Acl::CreateRole { role_def } => role_def.schema_version,
            Acl::DropRole { schema_version, .. } => schema_version,
            Acl::GrantPrivilege { priv_def } => priv_def.schema_version,
            Acl::RevokePrivilege { priv_def, .. } => priv_def.schema_version,
        }
    }

    /// The schema version after the change.
    pub fn schema_version(&self) -> (r: u64)
        ensures
            r == self.spec_schema_version(),
    {
        match self {
            Acl::CreateUser { user_def } => user_def.schema_version,
            Acl::RenameUser { schema_version, .. } => *schema_version,
            Acl::ChangeAuth { schema_version, .. } => *schema_version,
            Acl::DropUser { schema_version, .. } => *schema_version,
            Acl::CreateRole { role_def } => role_def.schema_version,
            Acl::DropRole { schema_version, .. } => *schema_version,
            Acl::GrantPrivilege { priv_def } => priv_def.schema_version,
            Acl::RevokePrivilege { priv_def, .. } => priv_def.schema_version,
        }
    }

    /// Why the change could not be applied whoever asks for it, if there is a reason:
    /// built-in users and roles stay, and the guest has no password.
    pub open spec fn fault(self) -> Option<Seq<char>> {
        match self {
            Acl::ChangeAuth { user_id, .. } => if user_id == GUEST_ID {
                Some("altering guest user's password is not allowed"@)
            } else {
                None
            },
            Acl::DropUser { user_id, .. } => if user_id == GUEST_ID || user_id == ADMIN_ID {
                Some("dropping system user is not allowed"@)
            } else {
                None
            },
            Acl::DropRole { role_id, .. } => if role_id == PUBLIC_ID || role_id == SUPER_ID {
                Some("dropping system role is not allowed"@)
            } else {
                None
            },
            _ => None,
        }
    }

    /// Performs preliminary checks on acl so that it will not fail when applied.
    /// These checks do not include authorization checks, which are done separately in
    /// [`crate::access_control::access_check_op`].
    pub fn validate(&self) -> (r: Result<(), Error>)
        ensures
            r is Ok <==> self.fault() is None,
            r matches Err(error) ==> error matches Error::Other(text) && self.fault() == Some(
                text@,
            ),
    {
        match self {
            Acl::ChangeAuth { user_id, .. } => {
                if *user_id == GUEST_ID {
                    return Err(Error::other("altering guest user's password is not allowed"));
                }
            },
            Acl::DropUser { user_id, .. } => {
                if *user_id == GUEST_ID || *user_id == ADMIN_ID {
                    return Err(Error::other("dropping system user is not allowed"));
                }
            },
            Acl::DropRole { role_id, .. } => {
                if *role_id == PUBLIC_ID || *role_id == SUPER_ID {
                    return Err(Error::other("dropping system role is not allowed"));
                }
            },
            _ => {},
        }
        Ok(())
    }
}

} // verus!
