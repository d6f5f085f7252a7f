//! Access control
//!
//! Clusterwide operations go through the raft leader, which checks the permissions of the user
//! who asked for them before it goes forward. The model follows the one of vanilla tarantool:
//! permissions on spaces and most of those on users and roles are left to tarantool's own
//! checks, `box_access_check_space` and `box_access_check_ddl`, made on behalf of that user.
//! Granting and revoking privileges have rules of their own on top of it.
//!
//! Every check here is a decision over the answers in a [`Transcript`]. Where it lacks an
//! answer it stops with [`Pending::Ask`] and is made again once the answer is recorded.
use vstd::prelude::*;
use vstd::string::*;

use crate::role_graph::{holders, holds};
use crate::schema::{PrivilegeDef, PrivilegeType, SchemaObjectType, SpaceId, UserId, ADMIN_ID};
use crate::text::{decimal, push_decimal};
use crate::traft::op::{Acl, Ddl, Dml, Op};
use crate::transcript::{
    verdict_of, AccessCheck, CheckView, ErrorView, Facts, Pending, PrivType, Request, RequestView,
    TableMetadata, TableView, TarantoolError, TarantoolErrorCode, TntSchemaObjectType, Transcript,
    UserMetadata, UserMetadataKind, UserView, Verdict,
};

verus! {

////////////////////////////////////////////////////////////////////////////////
// Errors
////////////////////////////////////////////////////////////////////////////////

pub open spec fn no_such_user_id(id: UserId) -> ErrorView {
    ErrorView::Raised {
        code: TarantoolErrorCode::NoSuchUser,
        message: "no such user #"@ + decimal(id as nat),
    }
}

pub open spec fn no_such_user(name: Seq<char>) -> ErrorView {
    ErrorView::Raised {
        code: TarantoolErrorCode::NoSuchUser,
        message: "no user named "@ + name,
    }
}

pub open spec fn access_denied(
    access_name: Seq<char>,
    object_type: SchemaObjectType,
    object_name: Seq<char>,
    user_name: Seq<char>,
) -> ErrorView {
    ErrorView::Raised {
        code: TarantoolErrorCode::AccessDenied,
        message: access_name + " access to "@ + object_type.name() + " '"@ + object_name
            + "' is denied for user '"@ + user_name + "'"@,
    }
}

pub open spec fn role_loop(role_name: Seq<char>, grantee_name: Seq<char>) -> ErrorView {
    ErrorView::Raised {
        code: TarantoolErrorCode::RoleLoop,
        message: "Granting role "@ + role_name + " to role "@ + grantee_name
            + " would create a loop"@,
    }
}

fn make_no_such_user(name: &String) -> (r: TarantoolError)
    ensures
        r@ == no_such_user(name@),
{
    let mut message = "no user named ".to_owned();
    message.append(name.as_str());
    TarantoolError::Raised { code: TarantoolErrorCode::NoSuchUser, message }
}

/// The error has the same format as one that is generated by vanilla tarantool.
fn make_access_denied(
    access_name: &str,
    object_type: SchemaObjectType,
    object_name: &str,
    user_name: &String,
) -> (r: TarantoolError)
    ensures
        r@ == access_denied(access_name@, object_type, object_name@, user_name@),
{
    let mut message = access_name.to_owned();
    message.append(" access to ");
    message.append(object_type.as_str());
    message.append(" '");
    message.append(object_name);
    message.append("' is denied for user '");
    message.append(user_name.as_str());
    message.append("'");
    TarantoolError::Raised { code: TarantoolErrorCode::AccessDenied, message }
}

////////////////////////////////////////////////////////////////////////////////
// Answers
////////////////////////////////////////////////////////////////////////////////

/// The user with this identifier, or what the check comes to without it.
pub open spec fn known_user(facts: Facts, id: UserId) -> Result<UserView, Verdict> {
    if !facts.users.contains_key(id) {
        Err(Verdict::Asks(RequestView::User(id)))
    } else {
        match facts.users[id] {
            Ok(Some(user)) => Ok(user),
            Ok(None) => Err(Verdict::Refused(no_such_user_id(id))),
            Err(error) => Err(Verdict::Refused(error)),
        }
    }
}

/// The table with this identifier, or what the check comes to without it.
pub open spec fn known_table(facts: Facts, id: SpaceId) -> Result<TableView, Verdict> {
    if !facts.tables.contains_key(id) {
        Err(Verdict::Asks(RequestView::Table(id)))
    } else {
        match facts.tables[id] {
            Ok(table) => Ok(table),
            Err(error) => Err(Verdict::Refused(error)),
        }
    }
}

/// The privileges of the cluster, or what the check comes to without them.
pub open spec fn known_privileges(facts: Facts) -> Result<Seq<PrivilegeDef>, Verdict> {
    match facts.privileges {
        None => Err(Verdict::Asks(RequestView::Privileges)),
        Some(Ok(privileges)) => Ok(privileges),
        Some(Err(error)) => Err(Verdict::Refused(error)),
    }
}

/// What tarantool says to an access check.
pub open spec fn tarantool_verdict(facts: Facts, check: CheckView) -> Verdict {
    match facts.access {
        Some((asked, answer)) if asked == check => match answer {
            Ok(_) => Verdict::Granted,
            Err(error) => Verdict::Refused(error),
        },
        _ => Verdict::Asks(RequestView::Access(check)),
    }
}

/// The entry of the `_user` space with this identifier, as it was read.
pub fn user_by_id(transcript: &Transcript, id: UserId) -> (r: Result<&UserMetadata, Pending>)
    ensures
        match known_user(transcript@, id) {
            Ok(user) => r matches Ok(found) && found@ == user,
            Err(verdict) => r matches Err(pending) && pending@ == verdict,
        },
{
    match transcript.user(id) {
        Some(Ok(Some(user))) => Ok(user),
        Some(Ok(None)) => {
            let mut message = "no such user #".to_owned();
            push_decimal(&mut message, id as u64);
            Err(
                Pending::Fail(
                    TarantoolError::Raised { code: TarantoolErrorCode::NoSuchUser, message },
                ),
            )
        },
        Some(Err(error)) => Err(Pending::Fail(error.clone())),
        None => Err(Pending::Ask(Request::User(id))),
    }
}

/// The metadata of the table with this identifier.
fn space_by_id(transcript: &Transcript, id: SpaceId) -> (r: Result<&TableMetadata, Pending>)
    ensures
        match known_table(transcript@, id) {
            Ok(table) => r matches Ok(found) && found@ == table,
            Err(verdict) => r matches Err(pending) && pending@ == verdict,
        },
{
    match transcript.table(id) {
        Some(Ok(table)) => Ok(table),
        Some(Err(error)) => Err(Pending::Fail(error.clone())),
        None => Err(Pending::Ask(Request::Table(id))),
    }
}

/// The answer of tarantool to an access check.
fn box_access_check(transcript: &Transcript, check: AccessCheck) -> (r: Result<(), Pending>)
    ensures
        verdict_of(r) == tarantool_verdict(transcript@, check@),
{
    if let Some((asked, answer)) = transcript.access() {
        if asked.same(&check) {
            return match answer {
                Ok(_) => Ok(()),
                Err(error) => Err(Pending::Fail(error.clone())),
            };
        }
    }
    Err(Pending::Ask(Request::Access(check)))
}

/// `box_access_check_ddl`, made on behalf of the user who initiated the request.
fn box_access_check_ddl_as_user(
    transcript: &Transcript,
    object_name: &String,
    object_id: u32,
    owner_id: UserId,
    object_type: TntSchemaObjectType,
    access: PrivType,
    as_user: UserId,
) -> (r: Result<(), Pending>)
    ensures
        verdict_of(r) == tarantool_verdict(
            transcript@,
            CheckView::Ddl {
                object_name: object_name@,
                object_id,
                owner_id,
                object_type,
                access,
                as_user,
            },
        ),
{
    box_access_check(
        transcript,
        AccessCheck::Ddl {
            object_name: object_name.clone(),
            object_id,
            owner_id,
            object_type,
            access,
            as_user,
        },
    )
}

////////////////////////////////////////////////////////////////////////////////
// Dml
////////////////////////////////////////////////////////////////////////////////

/// Modifying data takes write access to the table.
pub open spec fn dml_verdict(facts: Facts, dml: Dml, as_user: UserId) -> Verdict {
    tarantool_verdict(
        facts,
        CheckView::Space { space_id: dml.spec_space(), access: PrivType::Write, as_user },
    )
}

pub fn access_check_dml(transcript: &Transcript, dml: &Dml, as_user: UserId) -> (r: Result<
    (),
    Pending,
>)
    ensures
        verdict_of(r) == dml_verdict(transcript@, *dml, as_user),
{
    box_access_check(
        transcript,
        AccessCheck::Space { space_id: dml.space(), access: PrivType::Write, as_user },
    )
}

////////////////////////////////////////////////////////////////////////////////
// Ddl
////////////////////////////////////////////////////////////////////////////////

/// Schema changes that have an access rule: those of tables and indexes.
pub open spec fn ddl_has_rule(ddl: Ddl) -> bool {
    ddl is CreateTable || ddl is DropTable || ddl is CreateIndex || ddl is DropIndex
}

/// When creating objects creator is the owner.
pub open spec fn ddl_creator_is_owner(ddl: Ddl, as_user: UserId) -> bool {
    ddl matches Ddl::CreateTable { owner, .. } ==> owner == as_user
}

/// An access to an existing table, of which tarantool is told the name and the owner.
pub open spec fn table_verdict(
    facts: Facts,
    id: SpaceId,
    access: PrivType,
    as_user: UserId,
) -> Verdict {
    match known_table(facts, id) {
        Ok(table) => tarantool_verdict(
            facts,
            CheckView::Ddl {
                object_name: table.name,
                object_id: id,
                owner_id: table.user_id,
                object_type: TntSchemaObjectType::Space,
                access,
                as_user,
            },
        ),
        Err(verdict) => verdict,
    }
}

/// Creating and dropping a table takes that access to it; creating and dropping an index
/// takes the same access to its table.
pub open spec fn ddl_verdict(facts: Facts, ddl: Ddl, as_user: UserId) -> Verdict
    recommends
        ddl_has_rule(ddl),
{
    match ddl {
        Ddl::CreateTable { id, name, owner, .. } => tarantool_verdict(
            facts,
            CheckView::Ddl {
                object_name: name@,
                object_id: id,
                owner_id: owner,
                object_type: TntSchemaObjectType::Space,
                access: PrivType::Create,
                as_user,
            },
        ),
        Ddl::DropTable { id, .. } => table_verdict(facts, id, PrivType::Drop, as_user),
        Ddl::CreateIndex { space_id, .. } => table_verdict(
            facts,
            space_id,
            PrivType::Create,
            as_user,
        ),
        Ddl::DropIndex { space_id, .. } => table_verdict(facts, space_id, PrivType::Drop, as_user),
        _ => arbitrary(),
    }
}

fn access_check_table(
    transcript: &Transcript,
    id: SpaceId,
    access: PrivType,
    as_user: UserId,
) -> (r: Result<(), Pending>)
    ensures
        verdict_of(r) == table_verdict(transcript@, id, access, as_user),
{
    let meta = match space_by_id(transcript, id) {
        Ok(meta) => meta,
        Err(pending) => return Err(pending),
    };
    box_access_check_ddl_as_user(
        transcript,
        &meta.name,
        id,
        meta.user_id,
        TntSchemaObjectType::Space,
        access,
        as_user,
    )
}

/// The checks are identical to ones performed in vanilla tarantool when spaces and indexes
/// are replaced.
pub fn access_check_ddl(transcript: &Transcript, ddl: &Ddl, as_user: UserId) -> (r: Result<
    (),
    Pending,
>)
    requires
        ddl_has_rule(*ddl),
        ddl_creator_is_owner(*ddl, as_user),
    ensures
        verdict_of(r) == ddl_verdict(transcript@, *ddl, as_user),
{
    match ddl {
        Ddl::CreateTable { id, name, owner, .. } => box_access_check_ddl_as_user(
            transcript,
            name,
            *id,
            *owner,
            TntSchemaObjectType::Space,
            PrivType::Create,
            as_user,
        ),
        Ddl::DropTable { id, .. } => access_check_table(transcript, *id, PrivType::Drop, as_user),
        Ddl::CreateIndex { space_id, .. } => access_check_table(
            transcript,
            *space_id,
            PrivType::Create,
            as_user,
        ),
        Ddl::DropIndex { space_id, .. } => access_check_table(
            transcript,
            *space_id,
            PrivType::Drop,
            as_user,
        ),
        _ => vstd::pervasive::unreached(),
    }
}

////////////////////////////////////////////////////////////////////////////////
// Grant and revoke
////////////////////////////////////////////////////////////////////////////////

/// Only the owner of an object or the administrator can grant on it.
pub open spec fn owner_or_admin(owner_id: UserId, grantor_id: UserId) -> bool {
    owner_id == grantor_id || grantor_id == ADMIN_ID
}

/// Only the creator of a role or the administrator can grant it, but everyone can grant
/// the role 'public'. Having a role means having execute privilege on it.
pub open spec fn may_grant_role(
    role: UserView,
    privilege: PrivilegeType,
    grantor_id: UserId,
) -> bool {
    owner_or_admin(role.owner_id, grantor_id) || role.name == "public"@ && privilege
        == PrivilegeType::Execute
}

/// The grant must not make a loop of roles: the granted role must not hold the grantee.
pub open spec fn loop_verdict(facts: Facts, role: UserView, def: PrivilegeDef) -> Verdict {
    match known_user(facts, def.grantee_id) {
        Ok(grantee) => match known_privileges(facts) {
            Ok(privileges) => if holds(privileges, def.grantee_id, role.id) {
                Verdict::Refused(role_loop(role.name, grantee.name))
            } else {
                Verdict::Granted
            },
            Err(verdict) => verdict,
        },
        Err(verdict) => verdict,
    }
}

/// Tarantool's own check of a grant. The owner that it is told is the grantor.
pub open spec fn grant_check(
    object_name: Seq<char>,
    object_id: u32,
    object_type: TntSchemaObjectType,
    access: PrivType,
    grantor_id: UserId,
) -> CheckView {
    CheckView::Ddl {
        object_name,
        object_id,
        owner_id: grantor_id,
        object_type,
        access,
        as_user: grantor_id,
    }
}

/// Granting or revoking a privilege on one table.
pub open spec fn grant_table_verdict(
    facts: Facts,
    object_id: u32,
    grantor: UserView,
    grantor_id: UserId,
    access: PrivType,
    access_name: Seq<char>,
) -> Verdict {
    match known_table(facts, object_id) {
        Ok(table) => if !owner_or_admin(table.user_id, grantor_id) {
            Verdict::Refused(
                access_denied(access_name, SchemaObjectType::Table, table.name, grantor.name),
            )
        } else {
            tarantool_verdict(
                facts,
                grant_check(table.name, table.id, TntSchemaObjectType::Space, access, grantor_id),
            )
        },
        Err(verdict) => verdict,
    }
}

/// Granting or revoking a privilege on one role.
pub open spec fn grant_role_verdict(
    facts: Facts,
    object_id: u32,
    def: PrivilegeDef,
    grantor: UserView,
    grantor_id: UserId,
    access: PrivType,
    access_name: Seq<char>,
) -> Verdict {
    match known_user(facts, object_id) {
        Ok(role) => if !may_grant_role(role, def.privilege, grantor_id) {
            Verdict::Refused(
                access_denied(access_name, SchemaObjectType::Role, role.name, grantor.name),
            )
        } else {
            match loop_verdict(facts, role, def) {
                Verdict::Granted => tarantool_verdict(
                    facts,
                    grant_check(role.name, role.id, TntSchemaObjectType::Role, access, grantor_id),
                ),
                verdict => verdict,
            }
        },
        Err(verdict) => verdict,
    }
}

/// Granting or revoking a privilege on one user.
pub open spec fn grant_user_verdict(
    facts: Facts,
    object_id: u32,
    grantor: UserView,
    grantor_id: UserId,
    access: PrivType,
    access_name: Seq<char>,
) -> Verdict {
    match known_user(facts, object_id) {
        Ok(user) => if user.ty != UserMetadataKind::User {
            Verdict::Refused(no_such_user(user.name))
        } else if !owner_or_admin(user.owner_id, grantor_id) {
            Verdict::Refused(
                access_denied(access_name, SchemaObjectType::User, user.name, grantor.name),
            )
        } else {
            tarantool_verdict(
                facts,
                grant_check(user.name, user.id, TntSchemaObjectType::User, access, grantor_id),
            )
        },
        Err(verdict) => verdict,
    }
}

/// The rules of granting and revoking. On a whole type of objects and on the universe only
/// the administrator can grant.
pub open spec fn grant_revoke_verdict(
    facts: Facts,
    def: PrivilegeDef,
    grantor_id: UserId,
    access: PrivType,
    access_name: Seq<char>,
) -> Verdict {
    match known_user(facts, grantor_id) {
        Ok(grantor) => match (def.object_id, def.object_type) {
            (Some(object_id), SchemaObjectType::Table) => grant_table_verdict(
                facts,
                object_id,
                grantor,
                grantor_id,
                access,
                access_name,
            ),
            (Some(object_id), SchemaObjectType::Role) => grant_role_verdict(
                facts,
                object_id,
                def,
                grantor,
                grantor_id,
                access,
                access_name,
            ),
            (Some(object_id), SchemaObjectType::User) => grant_user_verdict(
                facts,
                object_id,
                grantor,
                grantor_id,
                access,
                access_name,
            ),
            (_, object_type) => if grantor_id == ADMIN_ID {
                Verdict::Granted
            } else {
                Verdict::Refused(access_denied(access_name, object_type, ""@, grantor.name))
            },
        },
        Err(verdict) => verdict,
    }
}

/// Refuses a grant that would make a loop of roles.
pub fn detect_role_grant_cycles(
    transcript: &Transcript,
    granted_role: &UserMetadata,
    priv_def: &PrivilegeDef,
) -> (r: Result<(), Pending>)
    ensures
        verdict_of(r) == loop_verdict(transcript@, granted_role@, *priv_def),
{
    broadcast use vstd::std_specs::hash::group_hash_axioms;

    let grantee = match user_by_id(transcript, priv_def.grantee_id) {
        Ok(grantee) => grantee,
        Err(pending) => return Err(pending),
    };
    match transcript.privileges() {
        Some(Ok(privileges)) => {
            let visited = holders(privileges, priv_def.grantee_id);
            if visited.contains(&granted_role.id) {
                let mut message = "Granting role ".to_owned();
                message.append(granted_role.name.as_str());
                message.append(" to role ");
                message.append(grantee.name.as_str());
                message.append(" would create a loop");
                return Err(
                    Pending::Fail(
                        TarantoolError::Raised { code: TarantoolErrorCode::RoleLoop, message },
                    ),
                );
            }
            Ok(())
        },
        Some(Err(error)) => Err(Pending::Fail(error.clone())),
        None => Err(Pending::Ask(Request::Privileges)),
    }
}

pub fn access_check_grant_revoke(
    transcript: &Transcript,
    priv_def: &PrivilegeDef,
    grantor_id: UserId,
    access: PrivType,
    access_name: &str,
) -> (r: Result<(), Pending>)
    requires
        transcript@.consistent(),
    ensures
        verdict_of(r) == grant_revoke_verdict(
            transcript@,
            *priv_def,
            grantor_id,
            access,
            access_name@,
        ),
{
    // This is a vanilla tarantool user.
    let grantor = match user_by_id(transcript, grantor_id) {
        Ok(grantor) => grantor,
        Err(pending) => return Err(pending),
    };
    let object_id = match priv_def.object_id {
        None => {
            // This is a wildcard grant on entire entity type, i e grant on all spaces.
            if grantor_id != ADMIN_ID {
                return Err(
                    Pending::Fail(
                        make_access_denied(access_name, priv_def.object_type, "", &grantor.name),
                    ),
                );
            }
            return Ok(());
        },
        Some(object_id) => object_id,
    };
    match priv_def.object_type {
        SchemaObjectType::Universe => {
            // Only admin can grant on universe
            if grantor_id != ADMIN_ID {
                return Err(
                    Pending::Fail(
                        make_access_denied(
                            access_name,
                            SchemaObjectType::Universe,
                            "",
                            &grantor.name,
                        ),
                    ),
                );
            }
            Ok(())
        },
        SchemaObjectType::Table => {
            let meta = match space_by_id(transcript, object_id) {
                Ok(meta) => meta,
                Err(pending) => return Err(pending),
            };
            // Only owner or admin can grant on space
            if meta.user_id != grantor_id && grantor_id != ADMIN_ID {
                return Err(
                    Pending::Fail(
                        make_access_denied(
                            access_name,
                            SchemaObjectType::Table,
                            meta.name.as_str(),
                            &grantor.name,
                        ),
                    ),
                );
            }
            box_access_check_ddl_as_user(
                transcript,
                &meta.name,
                meta.id,
                grantor_id,
                TntSchemaObjectType::Space,
                access,
                grantor_id,
            )
        },
        SchemaObjectType::Role => {
            let granted_role = match user_by_id(transcript, object_id) {
                Ok(granted_role) => granted_role,
                Err(pending) => return Err(pending),
            };
            // Only the creator of the role or admin can grant or revoke it.
            // Everyone can grant 'PUBLIC' role.
            // Note that having a role means having execute privilege on it.
            if granted_role.owner_id != grantor_id && grantor_id != ADMIN_ID && !(granted_role.name
                == "public".to_owned() && priv_def.privilege == PrivilegeType::Execute) {
                return Err(
                    Pending::Fail(
                        make_access_denied(
                            access_name,
                            SchemaObjectType::Role,
                            granted_role.name.as_str(),
                            &grantor.name,
                        ),
                    ),
                );
            }
            match detect_role_grant_cycles(transcript, granted_role, priv_def) {
                Ok(_) => {},
                Err(pending) => return Err(pending),
            }
            box_access_check_ddl_as_user(
                transcript,
                &granted_role.name,
                granted_role.id,
                grantor_id,
                TntSchemaObjectType::Role,
                access,
                grantor_id,
            )
        },
        SchemaObjectType::User => {
            let target_sys_user = match user_by_id(transcript, object_id) {
                Ok(target_sys_user) => target_sys_user,
                Err(pending) => return Err(pending),
            };
            if target_sys_user.ty != UserMetadataKind::User {
                return Err(Pending::Fail(make_no_such_user(&target_sys_user.name)));
            }
            // Only owner or admin can grant on user
            if target_sys_user.owner_id != grantor_id && grantor_id != ADMIN_ID {
                return Err(
                    Pending::Fail(
                        make_access_denied(
                            access_name,
                            SchemaObjectType::User,
                            target_sys_user.name.as_str(),
                            &grantor.name,
                        ),
                    ),
                );
            }
            box_access_check_ddl_as_user(
                transcript,
                &target_sys_user.name,
                target_sys_user.id,
                grantor_id,
                TntSchemaObjectType::User,
                access,
                grantor_id,
            )
        },
    }
}

////////////////////////////////////////////////////////////////////////////////
// Acl
////////////////////////////////////////////////////////////////////////////////

/// Changes of users, roles and privileges that have an access rule: all but renaming.
pub open spec fn acl_has_rule(acl: Acl) -> bool {
    !(acl is RenameUser)
}

/// When creating objects creator is the owner.
pub open spec fn acl_creator_is_owner(acl: Acl, as_user: UserId) -> bool {
    &&& acl matches Acl::CreateUser { user_def } ==> user_def.owner == as_user
    &&& acl matches Acl::CreateRole { role_def } ==> role_def.owner == as_user
}

/// An access to an existing user or role, of which tarantool is told the name and the owner.
pub open spec fn user_verdict(
    facts: Facts,
    id: UserId,
    object_type: TntSchemaObjectType,
    access: PrivType,
    as_user: UserId,
) -> Verdict {
    match known_user(facts, id) {
        Ok(user) => tarantool_verdict(
            facts,
            CheckView::Ddl {
                object_name: user.name,
                object_id: user.id,
                owner_id: user.owner_id,
                object_type,
                access,
                as_user,
            },
        ),
        Err(verdict) => verdict,
    }
}

pub open spec fn acl_verdict(facts: Facts, acl: Acl, as_user: UserId) -> Verdict
    recommends
        acl_has_rule(acl),
{
    match acl {
        Acl::CreateUser { user_def } => tarantool_verdict(
            facts,
            CheckView::Ddl {
                object_name: user_def.name@,
                object_id: user_def.id,
                owner_id: user_def.owner,
                object_type: TntSchemaObjectType::User,
                access: PrivType::Create,
                as_user,
            },
        ),
        Acl::ChangeAuth { user_id, .. } => user_verdict(
            facts,
            user_id,
            TntSchemaObjectType::User,
            PrivType::Alter,
            as_user,
        ),
        Acl::DropUser { user_id, .. } => user_verdict(
            facts,
            user_id,
            TntSchemaObjectType::User,
            PrivType::Drop,
            as_user,
        ),
        Acl::CreateRole { role_def } => tarantool_verdict(
            facts,
            CheckView::Ddl {
                object_name: role_def.name@,
                object_id: role_def.id,
                owner_id: role_def.owner,
                object_type: TntSchemaObjectType::Role,
                access: PrivType::Create,
                as_user,
            },
        ),
        Acl::DropRole { role_id, .. } => user_verdict(
            facts,
            role_id,
            TntSchemaObjectType::Role,
            PrivType::Drop,
            as_user,
        ),
        Acl::GrantPrivilege { priv_def } => grant_revoke_verdict(
            facts,
            priv_def,
            as_user,
            PrivType::Grant,
            "Grant"@,
        ),
        Acl::RevokePrivilege { priv_def, .. } => grant_revoke_verdict(
            facts,
            priv_def,
            as_user,
            PrivType::Revoke,
            "Revoke"@,
        ),
        _ => arbitrary(),
    }
}

fn access_check_user(
    transcript: &Transcript,
    id: UserId,
    object_type: TntSchemaObjectType,
    access: PrivType,
    as_user: UserId,
) -> (r: Result<(), Pending>)
    ensures
        verdict_of(r) == user_verdict(transcript@, id, object_type, access, as_user),
{
    // Roles and users are stored in the same space, so one definition serves both.
    let sys_user = match user_by_id(transcript, id) {
        Ok(sys_user) => sys_user,
        Err(pending) => return Err(pending),
    };
    box_access_check_ddl_as_user(
        transcript,
        &sys_user.name,
        sys_user.id,
        sys_user.owner_id,
        object_type,
        access,
        as_user,
    )
}

pub fn access_check_acl(transcript: &Transcript, acl: &Acl, as_user: UserId) -> (r: Result<
    (),
    Pending,
>)
    requires
        transcript@.consistent(),
        acl_has_rule(*acl),
        acl_creator_is_owner(*acl, as_user),
    ensures
        verdict_of(r) == acl_verdict(transcript@, *acl, as_user),
{
    match acl {
        Acl::CreateUser { user_def } => box_access_check_ddl_as_user(
            transcript,
            &user_def.name,
            user_def.id,
            user_def.owner,
            TntSchemaObjectType::User,
            PrivType::Create,
            as_user,
        ),
        Acl::ChangeAuth { user_id, .. } => access_check_user(
            transcript,
            *user_id,
            TntSchemaObjectType::User,
            PrivType::Alter,
            as_user,
        ),
        Acl::DropUser { user_id, .. } => access_check_user(
            transcript,
            *user_id,
            TntSchemaObjectType::User,
            PrivType::Drop,
            as_user,
        ),
        Acl::CreateRole { role_def } => box_access_check_ddl_as_user(
            transcript,
            &role_def.name,
            role_def.id,
            role_def.owner,
            TntSchemaObjectType::Role,
            PrivType::Create,
            as_user,
        ),
        Acl::DropRole { role_id, .. } => access_check_user(
            transcript,
            *role_id,
            TntSchemaObjectType::Role,
            PrivType::Drop,
            as_user,
        ),
        Acl::GrantPrivilege { priv_def } => access_check_grant_revoke(
            transcript,
            priv_def,
            as_user,
            PrivType::Grant,
            "Grant",
        ),
        Acl::RevokePrivilege { priv_def, .. } => access_check_grant_revoke(
            transcript,
            priv_def,
            as_user,
            PrivType::Revoke,
            "Revoke",
        ),
        _ => vstd::pervasive::unreached(),
    }
}

////////////////////////////////////////////////////////////////////////////////
// Op
////////////////////////////////////////////////////////////////////////////////

/// Operations that have an access rule.
pub open spec fn op_has_rule(op: Op) -> bool {
    match op {
        Op::DdlPrepare { ddl, .. } => ddl_has_rule(ddl),
        Op::Acl(acl) => acl_has_rule(acl),
        Op::BatchDml { .. } => false,
        _ => true,
    }
}

/// When creating objects creator is the owner.
pub open spec fn creator_is_owner(op: Op, as_user: UserId) -> bool {
    match op {
        Op::DdlPrepare { ddl, .. } => ddl_creator_is_owner(ddl, as_user),
        Op::Acl(acl) => acl_creator_is_owner(acl, as_user),
        _ => true,
    }
}

/// Whether `as_user` may have the operation done, as far as the facts tell. Only the
/// administrator commits and aborts schema changes.
pub open spec fn op_verdict(facts: Facts, op: Op, as_user: UserId) -> Verdict
    recommends
        op_has_rule(op),
{
    match op {
        Op::Nop => Verdict::Granted,
        Op::Dml(dml) => dml_verdict(facts, dml, as_user),
        Op::DdlPrepare { ddl, .. } => ddl_verdict(facts, ddl, as_user),
        Op::DdlCommit | Op::DdlAbort => if as_user == ADMIN_ID {
            Verdict::Granted
        } else {
            match known_user(facts, as_user) {
                Ok(user) => Verdict::Refused(
                    access_denied("ddl"@, SchemaObjectType::Universe, ""@, user.name),
                ),
                Err(verdict) => verdict,
            }
        },
        Op::Acl(acl) => acl_verdict(facts, acl, as_user),
        Op::BatchDml { .. } => arbitrary(),
    }
}

/// Whether the access checks cover the operation at all.
pub fn is_covered(op: &Op) -> (r: bool)
    ensures
        r == op_has_rule(*op),
{
    match op {
        Op::DdlPrepare { ddl, .. } => match ddl {
            Ddl::CreateTable { .. }
            | Ddl::DropTable { .. }
            | Ddl::CreateIndex { .. }
            | Ddl::DropIndex { .. } => true,
            _ => false,
        },
        Op::Acl(acl) => match acl {
            Acl::RenameUser { .. } => false,
            _ => true,
        },
        Op::BatchDml { .. } => false,
        _ => true,
    }
}

/// Whether what the operation creates, if it creates anything, is owned by `as_user`.
pub fn is_owned_by_creator(op: &Op, as_user: UserId) -> (r: bool)
    ensures
        r == creator_is_owner(*op, as_user),
{
    match op {
        Op::DdlPrepare { ddl, .. } => match ddl {
            Ddl::CreateTable { owner, .. } => *owner == as_user,
            _ => true,
        },
        Op::Acl(acl) => match acl {
            Acl::CreateUser { user_def } => user_def.owner == as_user,
            Acl::CreateRole { role_def } => role_def.owner == as_user,
            _ => true,
        },
        _ => true,
    }
}

/// Checks whether `as_user` may have the operation done.
pub fn access_check_op(transcript: &Transcript, op: &Op, as_user: UserId) -> (r: Result<
    (),
    Pending,
>)
    requires
        transcript@.consistent(),
        op_has_rule(*op),
        creator_is_owner(*op, as_user),
    ensures
        verdict_of(r) == op_verdict(transcript@, *op, as_user),
{
    match op {
        Op::Nop => Ok(()),
        Op::Dml(dml) => access_check_dml(transcript, dml, as_user),
        Op::DdlPrepare { ddl, .. } => access_check_ddl(transcript, ddl, as_user),
        Op::DdlCommit | Op::DdlAbort => {
            if as_user != ADMIN_ID {
                let sys_user = match user_by_id(transcript, as_user) {
                    Ok(sys_user) => sys_user,
                    Err(pending) => return Err(pending),
                };
                return Err(
                    Pending::Fail(
                        make_access_denied("ddl", SchemaObjectType::Universe, "", &sys_user.name),
                    ),
                );
            }
            Ok(())
        },
        Op::Acl(acl) => access_check_acl(transcript, acl, as_user),
        Op::BatchDml { .. } => vstd::pervasive::unreached(),
    }
}

} // verus!
