//! What operations are made of, what they are told apart by, and how they are shown.
use vstd::prelude::*;
use vstd::string::*;

use crate::json::display_tuple;
use crate::schema::{
    Distribution, PrivilegeDef, PrivilegeType, SchemaObjectType, SpaceId, UserId, ADMIN_ID,
    GUEST_ID, PUBLIC_ID, SUPER_ID,
};
use crate::text::decimal;
use crate::traft::error::Error;
use crate::traft::op::{
    batch_text, joined_tuples, tuples_text, Acl, Ddl, DdlBuilder, Dml, DmlInLua, DmlKind, Op,
};
use crate::tuple::TupleBuffer;

verus! {

////////////////////////////////////////////////////////////////////////////////
// Making operations
////////////////////////////////////////////////////////////////////////////////

/// With the table found, lua arguments make an operation exactly if what their kind needs is
/// there: a tuple to insert or replace, a key and ops to update, a key to delete. What the kind
/// has no use for plays no part.
pub proof fn law_lua_args_need_what_their_kind_needs(
    table: SpaceId,
    op: DmlInLua,
    initiator: UserId,
    r: Result<Dml, String>,
)
    requires
        call_ensures(Dml::from_lua_args, (Ok::<SpaceId, String>(table), op, initiator), r),
    ensures
        op.kind == DmlKind::Insert || op.kind == DmlKind::Replace ==> (r is Ok <==> op.tuple
            is Some),
        op.kind == DmlKind::Update ==> (r is Ok <==> op.key is Some && op.ops is Some),
        op.kind == DmlKind::Delete ==> (r is Ok <==> op.key is Some),
{
}

/// The operation that lua arguments make has their kind, and holds what they hold for it, the
/// table that was found and the user who asks.
pub proof fn law_lua_args_go_into_the_operation(
    table: SpaceId,
    op: DmlInLua,
    initiator: UserId,
    r: Result<Dml, String>,
)
    requires
        call_ensures(Dml::from_lua_args, (Ok::<SpaceId, String>(table), op, initiator), r),
    ensures
        r matches Ok(dml) ==> match dml {
            Dml::Insert { table: t, tuple, initiator: i } => op.kind == DmlKind::Insert && t
                == table && i == initiator && op.tuple == Some(tuple),
            Dml::Replace { table: t, tuple, initiator: i } => op.kind == DmlKind::Replace && t
                == table && i == initiator && op.tuple == Some(tuple),
            Dml::Update { table: t, key, ops, initiator: i } => op.kind == DmlKind::Update && t
                == table && i == initiator && op.key == Some(key) && op.ops == Some(ops),
            Dml::Delete { table: t, key, initiator: i } => op.kind == DmlKind::Delete && t == table
                && i == initiator && op.key == Some(key),
        },
{
}

/// What lua arguments lack is told by its name, a key before ops; and where the table is not
/// found, nothing but that is told.
pub proof fn law_lua_args_are_told_what_they_lack(
    table: Result<SpaceId, String>,
    op: DmlInLua,
    initiator: UserId,
    r: Result<Dml, String>,
)
    requires
        call_ensures(Dml::from_lua_args, (table, op, initiator), r),
    ensures
        table matches Err(error) ==> (r matches Err(text) && text@ == error@),
        table is Ok ==> (r matches Err(text) ==> match op.kind {
            DmlKind::Insert => text@ == "insert operation must have a tuple"@,
            DmlKind::Replace => text@ == "replace operation must have a tuple"@,
            DmlKind::Update => text@ == if op.key is None {
                "update operation must have a key"@
            } else {
                "update operation must have ops"@
            },
            DmlKind::Delete => text@ == "delete operation must have a key"@,
        }),
{
}

/// A modification is on the table and by the user that it was made with, and it is made
/// whenever its tuple or key could be serialized.
pub proof fn law_modifications_keep_what_they_are_made_of<E>(
    space: SpaceId,
    tuple: Result<TupleBuffer, E>,
    ops: Vec<TupleBuffer>,
    initiator: UserId,
    inserted: Result<Dml, E>,
    replaced: Result<Dml, E>,
    updated: Result<Dml, E>,
    deleted: Result<Dml, E>,
)
    requires
        call_ensures(Dml::insert::<E>, (space, tuple, initiator), inserted),
        call_ensures(Dml::replace::<E>, (space, tuple, initiator), replaced),
        call_ensures(Dml::update::<E>, (space, tuple, ops, initiator), updated),
        call_ensures(Dml::delete::<E>, (space, tuple, initiator), deleted),
    ensures
        tuple matches Err(error) ==> inserted == Err::<Dml, E>(error) && replaced == Err::<Dml, E>(
            error,
        ) && updated == Err::<Dml, E>(error) && deleted == Err::<Dml, E>(error),
        tuple matches Ok(t) ==> {
            &&& inserted matches Ok(Dml::Insert { table, tuple, initiator: i }) && table == space
                && tuple == t && i == initiator
            &&& replaced matches Ok(Dml::Replace { table, tuple, initiator: i }) && table == space
                && tuple == t && i == initiator
            &&& updated matches Ok(Dml::Update { table, key, ops: o, initiator: i }) && table
                == space && key == t && o == ops && i == initiator
            &&& deleted matches Ok(Dml::Delete { table, key, initiator: i }) && table == space
                && key == t && i == initiator
        },
{
}

/// The table and the initiator of a modification are those that it holds.
pub proof fn law_table_and_initiator_are_read_off(
    dml: Dml,
    space: SpaceId,
    initiator: UserId,
)
    requires
        call_ensures(Dml::space, (&dml,), space),
        call_ensures(Dml::initiator, (&dml,), initiator),
    ensures
        match dml {
            Dml::Insert { table, initiator: i, .. } => table == space && i == initiator,
            Dml::Replace { table, initiator: i, .. } => table == space && i == initiator,
            Dml::Update { table, initiator: i, .. } => table == space && i == initiator,
            Dml::Delete { table, initiator: i, .. } => table == space && i == initiator,
        },
{
}

/// What is built holds the change and the schema version that the builder was given, directly
/// or by the storage; where the storage fails, there is no builder but its error.
pub proof fn law_builder_passes_version_and_change_on(
    version: u64,
    error: Error,
    ddl: Ddl,
    builder: DdlBuilder,
    from_storage: Result<DdlBuilder, Error>,
    failed: Result<DdlBuilder, Error>,
    op: Op,
)
    requires
        call_ensures(DdlBuilder::with_schema_version, (version,), builder)
            || from_storage == Ok::<DdlBuilder, Error>(builder),
        call_ensures(DdlBuilder::new, (Ok::<u64, Error>(version),), from_storage),
        call_ensures(DdlBuilder::new, (Err::<u64, Error>(error),), failed),
        call_ensures(DdlBuilder::with_op, (&builder, ddl), op),
    ensures
        op matches Op::DdlPrepare { schema_version, ddl: change } && schema_version == version
            && change == ddl,
        from_storage is Ok,
        failed matches Err(e) && e == error,
{
}

////////////////////////////////////////////////////////////////////////////////
// Telling operations apart
////////////////////////////////////////////////////////////////////////////////

/// The schema is changed by preparing a schema change and by changing users, roles and
/// privileges; modifying data, committing, aborting and doing nothing leave it.
pub proof fn law_schema_is_changed_by_ddl_and_acl(op: Op, r: bool)
    requires
        call_ensures(Op::is_schema_change, (&op,), r),
    ensures
        op is DdlPrepare || op is Acl ==> r,
        op is Nop || op is Dml || op is BatchDml || op is DdlCommit || op is DdlAbort ==> !r,
{
}

/// A change of users, roles or privileges carries one schema version, in itself or in the
/// definition that it holds.
pub proof fn law_schema_version_is_the_one_carried(acl: Acl, r: u64)
    requires
        call_ensures(Acl::schema_version, (&acl,), r),
    ensures
        match acl {
            Acl::CreateUser { user_def } => r == user_def.schema_version,
            Acl::CreateRole { role_def } => r == role_def.schema_version,
            Acl::GrantPrivilege { priv_def } => r == priv_def.schema_version,
            Acl::RevokePrivilege { priv_def, .. } => r == priv_def.schema_version,
            Acl::RenameUser { schema_version, .. } => r == schema_version,
            Acl::ChangeAuth { schema_version, .. } => r == schema_version,
            Acl::DropUser { schema_version, .. } => r == schema_version,
            Acl::DropRole { schema_version, .. } => r == schema_version,
        },
{
}

/// Built-in users and roles stay, and the guest has no password. Every other user and role can
/// be dropped, every other password changed, and every other change passes.
pub proof fn law_only_what_is_built_in_is_protected(acl: Acl, r: Result<(), Error>)
    requires
        call_ensures(Acl::validate, (&acl,), r),
    ensures
        match acl {
            Acl::ChangeAuth { user_id, .. } => r is Ok <==> user_id != GUEST_ID,
            Acl::DropUser { user_id, .. } => r is Ok <==> user_id != GUEST_ID && user_id
                != ADMIN_ID,
            Acl::DropRole { role_id, .. } => r is Ok <==> role_id != PUBLIC_ID && role_id
                != SUPER_ID,
            _ => r is Ok,
        },
{
}

/// What is protected is told: a password, a user or a role.
pub proof fn law_protection_is_told(acl: Acl, error: Error)
    requires
        call_ensures(Acl::validate, (&acl,), Err::<(), Error>(error)),
    ensures
        error matches Error::Other(text) && match acl {
            Acl::ChangeAuth { .. } => text@ == "altering guest user's password is not allowed"@,
            Acl::DropUser { .. } => text@ == "dropping system user is not allowed"@,
            Acl::DropRole { .. } => text@ == "dropping system role is not allowed"@,
            _ => false,
        },
{
}

////////////////////////////////////////////////////////////////////////////////
// Showing operations
////////////////////////////////////////////////////////////////////////////////

/// A modification is shown by its kind, the number of its table and its tuple or key, shown as
/// tuples are; the initiator is not shown.
pub proof fn law_modification_is_shown_by_table_and_tuple(
    dml: Dml,
    table: SpaceId,
    tuple: TupleBuffer,
    shown: String,
    r: String,
)
    requires
        match dml {
            Dml::Insert { table: t, tuple: u, .. } => t == table && u == tuple,
            Dml::Replace { table: t, tuple: u, .. } => t == table && u == tuple,
            Dml::Update { table: t, key, .. } => t == table && key == tuple,
            Dml::Delete { table: t, key, .. } => t == table && key == tuple,
        },
        call_ensures(display_tuple, (&tuple,), shown),
        call_ensures(Op::to_string, (&Op::Dml(dml),), r),
    ensures
        dml is Insert ==> r@ == "Insert("@ + decimal(table as nat) + ", "@ + shown@ + ")"@,
        dml is Replace ==> r@ == "Replace("@ + decimal(table as nat) + ", "@ + shown@ + ")"@,
        dml is Delete ==> r@ == "Delete("@ + decimal(table as nat) + ", "@ + shown@ + ")"@,
        dml matches Dml::Update { ops, .. } ==> r@ == "Update("@ + decimal(table as nat) + ", "@
            + shown@ + ", "@ + tuples_text(ops@) + ")"@,
{
}

/// A list of tuples is shown in brackets: nothing for none, one as tuples are shown, and one
/// more behind a comma.
pub proof fn law_tuples_are_shown_in_brackets(
    tuples: Seq<TupleBuffer>,
    tuple: TupleBuffer,
    shown: String,
)
    requires
        call_ensures(display_tuple, (&tuple,), shown),
    ensures
        tuples_text(Seq::empty()) == "[]"@,
        tuples_text(seq![tuple]) == "["@ + shown@ + "]"@,
        tuples.len() > 0 ==> tuples_text(tuples.push(tuple)) == tuples_text(tuples).drop_last()
            + ", "@ + shown@ + "]"@,
{
    reveal_strlit("[");
    reveal_strlit("]");
    reveal_strlit("[]");
    assert(joined_tuples(Seq::empty()) =~= Seq::empty());
    assert(tuples_text(Seq::empty()) =~= "[]"@);
    assert(joined_tuples(seq![tuple]) == shown@);
    if tuples.len() > 0 {
        assert(tuples.push(tuple).drop_last() =~= tuples);
        assert(tuples_text(tuples).drop_last() =~= "["@ + joined_tuples(tuples));
        assert(tuples_text(tuples.push(tuple)) =~= tuples_text(tuples).drop_last() + ", "@ + shown@
            + "]"@);
    }
}

/// A batch is shown modification by modification, in order, each as it is shown alone and on a
/// line of its own.
pub proof fn law_batch_is_shown_like_its_modifications(
    some: Vec<Dml>,
    dml: Dml,
    more: Vec<Dml>,
    none: Vec<Dml>,
    of_some: String,
    of_dml: String,
    of_more: String,
    of_none: String,
)
    requires
        more@ == some@.push(dml),
        none@.len() == 0,
        call_ensures(Op::to_string, (&Op::BatchDml { ops: some },), of_some),
        call_ensures(Op::to_string, (&Op::Dml(dml),), of_dml),
        call_ensures(Op::to_string, (&Op::BatchDml { ops: more },), of_more),
        call_ensures(Op::to_string, (&Op::BatchDml { ops: none },), of_none),
    ensures
        of_none@ == Seq::<char>::empty(),
        of_more@ == of_some@ + of_dml@ + "\n"@,
{
    assert(more@.drop_last() =~= some@);
    assert(of_more@ == batch_text(more@));
}

/// A schema change is shown by its schema version, its kind and the numbers of what it changes;
/// a table also by how it is spread, a procedure by its name, and a renamed one by both names.
pub proof fn law_schema_change_is_shown_by_numbers(schema_version: u64, ddl: Ddl, r: String)
    requires
        call_ensures(Op::to_string, (&Op::DdlPrepare { schema_version, ddl },), r),
    ensures
        r@ == "DdlPrepare("@ + decimal(schema_version as nat) + ", "@ + (match ddl {
            Ddl::CreateTable { id, distribution, .. } => "CreateTable("@ + decimal(id as nat)
                + ", "@ + (match distribution {
                Distribution::Global => "Global"@,
                Distribution::ShardedImplicitly { .. } => "ShardedImplicitly"@,
                Distribution::ShardedByField { .. } => "ShardedByField"@,
            }) + ")"@,
            Ddl::DropTable { id, .. } => "DropTable("@ + decimal(id as nat) + ")"@,
            Ddl::CreateIndex { space_id, index_id, .. } => "CreateIndex("@ + decimal(
                space_id as nat,
            ) + ", "@ + decimal(index_id as nat) + ")"@,
            Ddl::DropIndex { space_id, index_id } => "DropIndex("@ + decimal(space_id as nat)
                + ", "@ + decimal(index_id as nat) + ")"@,
            Ddl::CreateProcedure { id, name, .. } => "CreateProcedure("@ + decimal(id as nat)
                + ", "@ + name@ + ")"@,
            Ddl::DropProcedure { id, .. } => "DropProcedure("@ + decimal(id as nat) + ")"@,
            Ddl::RenameProcedure { routine_id, old_name, new_name, .. } => "CreateProcedure("@
                + decimal(routine_id as nat) + ", "@ + old_name@ + " -> "@ + new_name@ + ")"@,
        }) + ")"@,
{
}

/// What is neither data nor schema is shown by its name.
pub proof fn law_other_operations_are_shown_by_name(op: Op, r: String)
    requires
        call_ensures(Op::to_string, (&op,), r),
    ensures
        op is Nop ==> r@ == "Nop"@,
        op is DdlCommit ==> r@ == "DdlCommit"@,
        op is DdlAbort ==> r@ == "DdlAbort"@,
{
}

/// A change of a user or a role is shown by its schema version and the number of who is
/// changed; with the name where there is one, and with the initiator where a password is changed
/// or a user is dropped.
pub proof fn law_change_of_users_is_shown_by_numbers(acl: Acl, r: String)
    requires
        call_ensures(Op::to_string, (&Op::Acl(acl),), r),
    ensures
        match acl {
            Acl::CreateUser { user_def } => r@ == "CreateUser("@ + decimal(
                user_def.schema_version as nat,
            ) + ", "@ + decimal(user_def.id as nat) + ", \""@ + user_def.name@ + "\")"@,
            Acl::CreateRole { role_def } => r@ == "CreateRole("@ + decimal(
                role_def.schema_version as nat,
            ) + ", "@ + decimal(role_def.id as nat) + ", \""@ + role_def.name@ + "\")"@,
            Acl::RenameUser { user_id, name, schema_version, .. } => r@ == "RenameUser("@ + decimal(
                schema_version as nat,
            ) + ", "@ + decimal(user_id as nat) + ", \""@ + name@ + "\")"@,
            Acl::ChangeAuth { user_id, initiator, schema_version, .. } => r@ == "ChangeAuth("@
                + decimal(schema_version as nat) + ", "@ + decimal(user_id as nat) + ", "@
                + decimal(initiator as nat) + ")"@,
            Acl::DropUser { user_id, initiator, schema_version } => r@ == "DropUser("@ + decimal(
                schema_version as nat,
            ) + ", "@ + decimal(user_id as nat) + " "@ + decimal(initiator as nat) + ")"@,
            Acl::DropRole { role_id, schema_version, .. } => r@ == "DropRole("@ + decimal(
                schema_version as nat,
            ) + ", "@ + decimal(role_id as nat) + ")"@,
            _ => true,
        },
{
}

/// Granting and revoking a privilege are shown alike but for the word: schema version, grantor,
/// grantee, the type and the number of the object, and what the privilege allows.
pub proof fn law_privilege_is_shown_by_who_and_what(
    def: PrivilegeDef,
    initiator: UserId,
    granted: String,
    revoked: String,
)
    requires
        call_ensures(
            Op::to_string,
            (&Op::Acl(Acl::GrantPrivilege { priv_def: def }),),
            granted,
        ),
        call_ensures(
            Op::to_string,
            (&Op::Acl(Acl::RevokePrivilege { priv_def: def, initiator }),),
            revoked,
        ),
    ensures
        ({
            let object = match def.object_id {
                Some(id) => "Some("@ + decimal(id as nat) + ")"@,
                None => "None"@,
            };
            let kind = match def.object_type {
                SchemaObjectType::Table => "table"@,
                SchemaObjectType::Role => "role"@,
                SchemaObjectType::User => "user"@,
                SchemaObjectType::Universe => "universe"@,
            };
            let allowed = match def.privilege {
                PrivilegeType::Read => "read"@,
                PrivilegeType::Write => "write"@,
                PrivilegeType::Execute => "execute"@,
                PrivilegeType::Login => "login"@,
                PrivilegeType::Create => "create"@,
                PrivilegeType::Drop => "drop"@,
                PrivilegeType::Alter => "alter"@,
            };
            let shown = decimal(def.schema_version as nat) + ", "@ + decimal(def.grantor_id as nat)
                + ", "@ + decimal(def.grantee_id as nat) + ", "@ + kind + ", "@ + object + ", "@
                + allowed;
            &&& granted@ == "GrantPrivilege("@ + shown + ")"@
            &&& revoked@ == "RevokePrivilege("@ + shown + ")"@
        }),
{
}

/// A modification becomes the operation that does just this modification.
pub proof fn law_modification_becomes_its_operation(dml: Dml, op: Op)
    requires
        call_ensures(<Op as From<Dml>>::from, (dml,), op),
    ensures
        op matches Op::Dml(inner) && inner == dml,
{
}

} // verus!
