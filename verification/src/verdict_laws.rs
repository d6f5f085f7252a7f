//! What access checks come to, told from the answers of the instance alone.
//!
//! [`crate::access_laws`] holds what is true of every check; here stands, for each operation,
//! who may have it done and what is asked before.
use vstd::prelude::*;

use crate::access_control::{
    access_check_acl, access_check_ddl, access_check_dml, access_check_grant_revoke,
    access_check_op, detect_role_grant_cycles, grant_revoke_verdict, is_covered,
    is_owned_by_creator, op_has_rule, op_verdict, user_by_id,
};
use crate::access_laws::law_tarantool_has_the_last_word;
use crate::role_graph::holds;
use crate::schema::{PrivilegeDef, PrivilegeType, SchemaObjectType, SpaceId, UserId, ADMIN_ID};
use crate::text::decimal;
use crate::traft::op::{Acl, Ddl, Dml, Op};
use crate::transcript::{
    AccessCheck, CheckView, ErrorView, Facts, Pending, PrivType, Request, RequestView,
    TableMetadata, TableView, TarantoolError, TarantoolErrorCode, TntSchemaObjectType, Transcript,
    UserMetadata, UserMetadataKind, UserView, Verdict,
};

verus! {

////////////////////////////////////////////////////////////////////////////////
// Ways in which a check can end
////////////////////////////////////////////////////////////////////////////////

/// Tarantool decides by `check`: the verdict is what it answered, and where it was not asked
/// this very question, the question.
pub open spec fn left_to_tarantool(facts: Facts, check: CheckView, verdict: Verdict) -> bool {
    &&& verdict is Granted <==> (facts.access matches Some((asked, Ok(_))) && asked == check)
    &&& facts.access matches Some((asked, Err(error))) ==> asked == check ==> verdict
        == Verdict::Refused(error)
    &&& !(facts.access matches Some((asked, _)) && asked == check) ==> verdict == Verdict::Asks(
        RequestView::Access(check),
    )
}

/// The entry of the user is missing: it is asked for, or there is none, or the instance could
/// not read it.
pub open spec fn stopped_at_user(facts: Facts, id: UserId, verdict: Verdict) -> bool {
    if !facts.users.contains_key(id) {
        verdict == Verdict::Asks(RequestView::User(id))
    } else {
        match facts.users[id] {
            Err(error) => verdict == Verdict::Refused(error),
            Ok(None) => verdict == Verdict::Refused(
                ErrorView::Raised {
                    code: TarantoolErrorCode::NoSuchUser,
                    message: "no such user #"@ + decimal(id as nat),
                },
            ),
            Ok(Some(_)) => false,
        }
    }
}

/// The metadata of the table is missing: it is asked for, or could not be read.
pub open spec fn stopped_at_table(facts: Facts, id: SpaceId, verdict: Verdict) -> bool {
    if !facts.tables.contains_key(id) {
        verdict == Verdict::Asks(RequestView::Table(id))
    } else {
        facts.tables[id] matches Err(error) && verdict == Verdict::Refused(error)
    }
}

/// The instance has answered with this user.
pub open spec fn has_user(facts: Facts, id: UserId, user: UserView) -> bool {
    facts.users.contains_key(id) && facts.users[id] == Ok::<Option<UserView>, ErrorView>(
        Some(user),
    )
}

/// The instance has answered with this table.
pub open spec fn has_table(facts: Facts, id: SpaceId, table: TableView) -> bool {
    facts.tables.contains_key(id) && facts.tables[id] == Ok::<TableView, ErrorView>(table)
}

/// The refusal in the words of vanilla tarantool.
pub open spec fn is_denial(
    verdict: Verdict,
    access_name: Seq<char>,
    kind: Seq<char>,
    object_name: Seq<char>,
    user_name: Seq<char>,
) -> bool {
    verdict == Verdict::Refused(
        ErrorView::Raised {
            code: TarantoolErrorCode::AccessDenied,
            message: access_name + " access to "@ + kind + " '"@ + object_name
                + "' is denied for user '"@ + user_name + "'"@,
        },
    )
}

////////////////////////////////////////////////////////////////////////////////
// Results and verdicts
////////////////////////////////////////////////////////////////////////////////

/// A check passes exactly if the verdict is in favour of the operation; a question and an
/// error are handed out as they are in the verdict.
pub proof fn law_result_is_the_verdict(
    transcript: Transcript,
    op: Op,
    as_user: UserId,
    r: Result<(), Pending>,
)
    requires
        call_ensures(access_check_op, (&transcript, &op, as_user), r),
    ensures
        r is Ok <==> op_verdict(transcript@, op, as_user) is Granted,
        r matches Err(Pending::Ask(request)) ==> op_verdict(transcript@, op, as_user)
            == Verdict::Asks(request@),
        r matches Err(Pending::Fail(error)) ==> op_verdict(transcript@, op, as_user)
            == Verdict::Refused(error@),
{
}

/// Checking an operation is checking the modification, the schema change or the change of
/// privileges in it: over the same answers both come to the same.
pub proof fn law_parts_are_checked_like_the_whole(
    transcript: Transcript,
    dml: Dml,
    ddl: Ddl,
    schema_version: u64,
    acl: Acl,
    as_user: UserId,
    of_dml: Result<(), Pending>,
    of_ddl: Result<(), Pending>,
    of_acl: Result<(), Pending>,
)
    requires
        call_ensures(access_check_dml, (&transcript, &dml, as_user), of_dml),
        call_ensures(access_check_ddl, (&transcript, &ddl, as_user), of_ddl),
        call_ensures(access_check_acl, (&transcript, &acl, as_user), of_acl),
    ensures
        stands_for(of_dml, op_verdict(transcript@, Op::Dml(dml), as_user)),
        stands_for(
            of_ddl,
            op_verdict(transcript@, Op::DdlPrepare { schema_version, ddl }, as_user),
        ),
        stands_for(of_acl, op_verdict(transcript@, Op::Acl(acl), as_user)),
{
}

/// The result says what the verdict says.
pub open spec fn stands_for(r: Result<(), Pending>, verdict: Verdict) -> bool {
    match r {
        Ok(_) => verdict is Granted,
        Err(Pending::Ask(request)) => verdict == Verdict::Asks(request@),
        Err(Pending::Fail(error)) => verdict == Verdict::Refused(error@),
    }
}

/// Granting and revoking are checked by one rule, told apart by the access that tarantool is
/// asked for and by the word in the refusal. Who else is named in the operation plays no part.
pub proof fn law_grants_and_revocations_have_one_rule(
    transcript: Transcript,
    def: PrivilegeDef,
    initiator: UserId,
    as_user: UserId,
    granting: Result<(), Pending>,
    revoking: Result<(), Pending>,
)
    requires
        call_ensures(
            access_check_grant_revoke,
            (&transcript, &def, as_user, PrivType::Grant, "Grant"),
            granting,
        ),
        call_ensures(
            access_check_grant_revoke,
            (&transcript, &def, as_user, PrivType::Revoke, "Revoke"),
            revoking,
        ),
    ensures
        stands_for(
            granting,
            op_verdict(transcript@, Op::Acl(Acl::GrantPrivilege { priv_def: def }), as_user),
        ),
        stands_for(
            revoking,
            op_verdict(
                transcript@,
                Op::Acl(Acl::RevokePrivilege { priv_def: def, initiator }),
                as_user,
            ),
        ),
{
}

/// A user comes back as the instance gave it, or the lack of it is told.
pub proof fn law_user_comes_back_as_answered(
    transcript: Transcript,
    id: UserId,
    r: Result<&UserMetadata, Pending>,
)
    requires
        call_ensures(user_by_id, (&transcript, id), r),
    ensures
        r matches Ok(user) ==> has_user(transcript@, id, user@),
        r matches Err(Pending::Ask(request)) ==> stopped_at_user(
            transcript@,
            id,
            Verdict::Asks(request@),
        ),
        r matches Err(Pending::Fail(error)) ==> stopped_at_user(
            transcript@,
            id,
            Verdict::Refused(error@),
        ),
{
}

////////////////////////////////////////////////////////////////////////////////
// Operations without a user's objects
////////////////////////////////////////////////////////////////////////////////

/// An operation that does nothing is open to everyone, without a question.
pub proof fn law_nothing_can_be_done_by_everyone(facts: Facts, as_user: UserId)
    ensures
        op_verdict(facts, Op::Nop, as_user) is Granted,
{
}

/// Committing and aborting schema changes is refused to everyone but the administrator, who
/// needs no answer of the instance; the refusal names the user.
pub proof fn law_ending_schema_changes_is_denied_by_name(
    facts: Facts,
    op: Op,
    as_user: UserId,
    user: UserView,
)
    requires
        op is DdlCommit || op is DdlAbort,
        as_user != ADMIN_ID,
    ensures
        has_user(facts, as_user, user) ==> is_denial(
            op_verdict(facts, op, as_user),
            "ddl"@,
            "universe"@,
            ""@,
            user.name,
        ),
        !(facts.users.contains_key(as_user) && facts.users[as_user] matches Ok(Some(_)))
            ==> stopped_at_user(facts, as_user, op_verdict(facts, op, as_user)),
{
}

////////////////////////////////////////////////////////////////////////////////
// Data
////////////////////////////////////////////////////////////////////////////////

/// Modifying the data of a table takes tarantool's consent to write to this table as this
/// user, whatever the kind of the modification and whoever is named in it.
pub proof fn law_data_is_modified_with_write_access(
    facts: Facts,
    dml: Dml,
    table: SpaceId,
    as_user: UserId,
)
    requires
        dml matches Dml::Insert { table: t, .. } ==> t == table,
        dml matches Dml::Replace { table: t, .. } ==> t == table,
        dml matches Dml::Update { table: t, .. } ==> t == table,
        dml matches Dml::Delete { table: t, .. } ==> t == table,
    ensures
        left_to_tarantool(
            facts,
            CheckView::Space { space_id: table, access: PrivType::Write, as_user },
            op_verdict(facts, Op::Dml(dml), as_user),
        ),
{
}

////////////////////////////////////////////////////////////////////////////////
// Creating
////////////////////////////////////////////////////////////////////////////////

/// Creating a table, a user or a role takes tarantool's consent to create it, under the name,
/// the identifier and the owner in the operation. Nothing else is asked.
pub proof fn law_creating_takes_create_access(
    facts: Facts,
    op: Op,
    as_user: UserId,
    object_name: Seq<char>,
    object_id: u32,
    owner_id: UserId,
    object_type: TntSchemaObjectType,
)
    requires
        match op {
            Op::DdlPrepare { ddl: Ddl::CreateTable { id, name, owner, .. }, .. } => {
                &&& object_type == TntSchemaObjectType::Space
                &&& object_id == id && object_name == name@ && owner_id == owner
            },
            Op::Acl(Acl::CreateUser { user_def }) => {
                &&& object_type == TntSchemaObjectType::User
                &&& object_id == user_def.id && object_name == user_def.name@ && owner_id
                    == user_def.owner
            },
            Op::Acl(Acl::CreateRole { role_def }) => {
                &&& object_type == TntSchemaObjectType::Role
                &&& object_id == role_def.id && object_name == role_def.name@ && owner_id
                    == role_def.owner
            },
            _ => false,
        },
    ensures
        left_to_tarantool(
            facts,
            CheckView::Ddl {
                object_name,
                object_id,
                owner_id,
                object_type,
                access: PrivType::Create,
                as_user,
            },
            op_verdict(facts, op, as_user),
        ),
{
}

////////////////////////////////////////////////////////////////////////////////
// Changing what is there
////////////////////////////////////////////////////////////////////////////////

/// Dropping a table and creating or dropping an index takes the access of that name to the
/// table, which tarantool gives or refuses knowing the name and the owner of the table.
pub proof fn law_table_is_changed_with_access_to_it(
    facts: Facts,
    ddl: Ddl,
    schema_version: u64,
    table_id: SpaceId,
    access: PrivType,
    as_user: UserId,
)
    requires
        match ddl {
            Ddl::DropTable { id, .. } => id == table_id && access == PrivType::Drop,
            Ddl::CreateIndex { space_id, .. } => space_id == table_id && access
                == PrivType::Create,
            Ddl::DropIndex { space_id, .. } => space_id == table_id && access == PrivType::Drop,
            _ => false,
        },
    ensures
        forall|table: TableView|
            #![trigger has_table(facts, table_id, table)]
            has_table(facts, table_id, table) ==> left_to_tarantool(
                facts,
                CheckView::Ddl {
                    object_name: table.name,
                    object_id: table_id,
                    owner_id: table.user_id,
                    object_type: TntSchemaObjectType::Space,
                    access,
                    as_user,
                },
                op_verdict(facts, Op::DdlPrepare { schema_version, ddl }, as_user),
            ),
        !(facts.tables.contains_key(table_id) && facts.tables[table_id] is Ok) ==> stopped_at_table(
            facts,
            table_id,
            op_verdict(facts, Op::DdlPrepare { schema_version, ddl }, as_user),
        ),
{
}

/// Changing the password of a user takes alter access to them, dropping a user or a role drop
/// access, which tarantool gives or refuses knowing the name and the owner.
pub proof fn law_user_is_changed_with_access_to_them(
    facts: Facts,
    acl: Acl,
    id: UserId,
    object_type: TntSchemaObjectType,
    access: PrivType,
    as_user: UserId,
)
    requires
        match acl {
            Acl::ChangeAuth { user_id, .. } => user_id == id && object_type
                == TntSchemaObjectType::User && access == PrivType::Alter,
            Acl::DropUser { user_id, .. } => user_id == id && object_type
                == TntSchemaObjectType::User && access == PrivType::Drop,
            Acl::DropRole { role_id, .. } => role_id == id && object_type
                == TntSchemaObjectType::Role && access == PrivType::Drop,
            _ => false,
        },
    ensures
        forall|user: UserView|
            #![trigger has_user(facts, id, user)]
            has_user(facts, id, user) ==> left_to_tarantool(
                facts,
                CheckView::Ddl {
                    object_name: user.name,
                    object_id: user.id,
                    owner_id: user.owner_id,
                    object_type,
                    access,
                    as_user,
                },
                op_verdict(facts, Op::Acl(acl), as_user),
            ),
        !(facts.users.contains_key(id) && facts.users[id] matches Ok(Some(_))) ==> stopped_at_user(
            facts,
            id,
            op_verdict(facts, Op::Acl(acl), as_user),
        ),
{
}

////////////////////////////////////////////////////////////////////////////////
// Granting and revoking
////////////////////////////////////////////////////////////////////////////////

/// The operation grants or revokes the privilege; `access` and `word` tell which.
pub open spec fn changes_privilege(
    op: Op,
    def: PrivilegeDef,
    access: PrivType,
    word: Seq<char>,
) -> bool {
    match op {
        Op::Acl(Acl::GrantPrivilege { priv_def }) => priv_def == def && access == PrivType::Grant
            && word == "Grant"@,
        Op::Acl(Acl::RevokePrivilege { priv_def, .. }) => priv_def == def && access
            == PrivType::Revoke && word == "Revoke"@,
        _ => false,
    }
}

/// The privilege is on all objects of a type, or on everything.
pub open spec fn is_wide(def: PrivilegeDef) -> bool {
    def.object_id is None || def.object_type == SchemaObjectType::Universe
}

/// Who grants or revokes a privilege and passes has standing to do so, and tarantool's consent.
/// A privilege that is not on one object is for the administrator; one on a table or a user is
/// for its owner and the administrator; so is one on a role, but that everyone can hand on
/// 'public'. On one object tarantool has been asked for this very change by this very user and
/// agreed.
pub proof fn law_privilege_is_changed_with_standing_and_consent(
    facts: Facts,
    op: Op,
    def: PrivilegeDef,
    access: PrivType,
    word: Seq<char>,
    as_user: UserId,
)
    requires
        changes_privilege(op, def, access, word),
        op_verdict(facts, op, as_user) is Granted,
    ensures
        facts.users.contains_key(as_user) && facts.users[as_user] matches Ok(Some(_)),
        is_wide(def) ==> as_user == ADMIN_ID,
        !is_wide(def) && def.object_type == SchemaObjectType::Table ==> exists|table: TableView|
            {
                &&& #[trigger] has_table(facts, def.object_id->0, table)
                &&& table.user_id == as_user || as_user == ADMIN_ID
                &&& consented(
                    facts,
                    table.name,
                    table.id,
                    TntSchemaObjectType::Space,
                    access,
                    as_user,
                )
            },
        !is_wide(def) && def.object_type == SchemaObjectType::User ==> exists|user: UserView|
            {
                &&& #[trigger] has_user(facts, def.object_id->0, user)
                &&& user.ty == UserMetadataKind::User
                &&& user.owner_id == as_user || as_user == ADMIN_ID
                &&& consented(facts, user.name, user.id, TntSchemaObjectType::User, access, as_user)
            },
        !is_wide(def) && def.object_type == SchemaObjectType::Role ==> exists|role: UserView|
            {
                &&& #[trigger] has_user(facts, def.object_id->0, role)
                &&& role.owner_id == as_user || as_user == ADMIN_ID || role.name == "public"@
                    && def.privilege == PrivilegeType::Execute
                &&& consented(facts, role.name, role.id, TntSchemaObjectType::Role, access, as_user)
            },
{
    if !is_wide(def) {
        let id = def.object_id->0;
        if def.object_type == SchemaObjectType::Table {
            let table = facts.tables[id]->Ok_0;
            assert(has_table(facts, id, table));
        } else {
            let user = facts.users[id]->Ok_0->0;
            assert(has_user(facts, id, user));
        }
    }
}

/// Tarantool has agreed to the grant or the revocation on this object, with the user who asks
/// for it standing as the owner.
pub open spec fn consented(
    facts: Facts,
    object_name: Seq<char>,
    object_id: u32,
    object_type: TntSchemaObjectType,
    access: PrivType,
    as_user: UserId,
) -> bool {
    facts.access matches Some((asked, Ok(_))) && asked == (CheckView::Ddl {
        object_name,
        object_id,
        owner_id: as_user,
        object_type,
        access,
        as_user,
    })
}

/// The verdict is that of an operation on the privilege, or that of the rule by itself.
pub open spec fn is_check_of(
    facts: Facts,
    op: Op,
    def: PrivilegeDef,
    access: PrivType,
    word: Seq<char>,
    as_user: UserId,
    verdict: Verdict,
) -> bool {
    ||| changes_privilege(op, def, access, word) && verdict == op_verdict(facts, op, as_user)
    ||| verdict == grant_revoke_verdict(facts, def, as_user, access, word)
}

/// Nothing is decided on a privilege before the user who asks is known; and then the object, if
/// it is one, must be known.
pub proof fn law_privilege_is_changed_among_the_known(
    facts: Facts,
    op: Op,
    def: PrivilegeDef,
    access: PrivType,
    word: Seq<char>,
    as_user: UserId,
    verdict: Verdict,
    asking: UserView,
)
    requires
        is_check_of(facts, op, def, access, word, as_user, verdict),
    ensures
        !(facts.users.contains_key(as_user) && facts.users[as_user] matches Ok(Some(_)))
            ==> stopped_at_user(facts, as_user, verdict),
        has_user(facts, as_user, asking) && !is_wide(def) && def.object_type
            == SchemaObjectType::Table && !(facts.tables.contains_key(def.object_id->0)
            && facts.tables[def.object_id->0] is Ok) ==> stopped_at_table(
            facts,
            def.object_id->0,
            verdict,
        ),
        has_user(facts, as_user, asking) && !is_wide(def) && def.object_type
            != SchemaObjectType::Table && !(facts.users.contains_key(def.object_id->0)
            && facts.users[def.object_id->0] matches Ok(Some(_))) ==> stopped_at_user(
            facts,
            def.object_id->0,
            verdict,
        ),
{
}

/// A privilege on everything or on all objects of a type passes for the administrator as soon
/// as their entry is read, and is denied to everyone else.
pub proof fn law_wide_privilege_is_decided_by_who_asks(
    facts: Facts,
    op: Op,
    def: PrivilegeDef,
    access: PrivType,
    word: Seq<char>,
    as_user: UserId,
    verdict: Verdict,
    asking: UserView,
    kind: Seq<char>,
)
    requires
        is_check_of(facts, op, def, access, word, as_user, verdict),
        is_wide(def),
        has_user(facts, as_user, asking),
        kind == kind_word(def.object_type),
    ensures
        as_user == ADMIN_ID ==> verdict is Granted,
        as_user != ADMIN_ID ==> is_denial(
            verdict,
            word,
            kind,
            ""@,
            asking.name,
        ),
{
}

/// What objects of the type are called.
pub open spec fn kind_word(object_type: SchemaObjectType) -> Seq<char> {
    match object_type {
        SchemaObjectType::Table => "table"@,
        SchemaObjectType::Role => "role"@,
        SchemaObjectType::User => "user"@,
        SchemaObjectType::Universe => "universe"@,
    }
}

/// A privilege on a table is denied to strangers; for the owner and the administrator tarantool
/// decides.
pub proof fn law_table_privilege_is_for_owners(
    facts: Facts,
    op: Op,
    def: PrivilegeDef,
    access: PrivType,
    word: Seq<char>,
    as_user: UserId,
    verdict: Verdict,
    asking: UserView,
    table: TableView,
)
    requires
        is_check_of(facts, op, def, access, word, as_user, verdict),
        def.object_type == SchemaObjectType::Table,
        def.object_id is Some,
        has_user(facts, as_user, asking),
        has_table(facts, def.object_id->0, table),
    ensures
        table.user_id != as_user && as_user != ADMIN_ID ==> is_denial(
            verdict,
            word,
            "table"@,
            table.name,
            asking.name,
        ),
        table.user_id == as_user || as_user == ADMIN_ID ==> left_to_tarantool(
            facts,
            CheckView::Ddl {
                object_name: table.name,
                object_id: table.id,
                owner_id: as_user,
                object_type: TntSchemaObjectType::Space,
                access,
                as_user,
            },
            verdict,
        ),
{
}

/// A privilege on a user is denied to strangers; for the owner and the administrator tarantool
/// decides. A role is no user, whoever asks.
pub proof fn law_user_privilege_is_for_owners(
    facts: Facts,
    op: Op,
    def: PrivilegeDef,
    access: PrivType,
    word: Seq<char>,
    as_user: UserId,
    verdict: Verdict,
    asking: UserView,
    user: UserView,
)
    requires
        is_check_of(facts, op, def, access, word, as_user, verdict),
        def.object_type == SchemaObjectType::User,
        def.object_id is Some,
        has_user(facts, as_user, asking),
        has_user(facts, def.object_id->0, user),
    ensures
        user.ty == UserMetadataKind::Role ==> verdict == Verdict::Refused(
            ErrorView::Raised {
                code: TarantoolErrorCode::NoSuchUser,
                message: "no user named "@ + user.name,
            },
        ),
        user.ty == UserMetadataKind::User && user.owner_id != as_user && as_user != ADMIN_ID
            ==> is_denial(verdict, word, "user"@, user.name, asking.name),
        user.ty == UserMetadataKind::User && (user.owner_id == as_user || as_user == ADMIN_ID)
            ==> left_to_tarantool(
            facts,
            CheckView::Ddl {
                object_name: user.name,
                object_id: user.id,
                owner_id: as_user,
                object_type: TntSchemaObjectType::User,
                access,
                as_user,
            },
            verdict,
        ),
{
}

/// Who may hand a role on: its owner, the administrator, and of 'public' everyone.
pub open spec fn may_hand_on(role: UserView, privilege: PrivilegeType, as_user: UserId) -> bool {
    ||| role.owner_id == as_user
    ||| as_user == ADMIN_ID
    ||| role.name == "public"@ && privilege == PrivilegeType::Execute
}

/// A privilege on a role is denied to those who may not hand it on.
pub proof fn law_role_privilege_is_denied_to_strangers(
    facts: Facts,
    op: Op,
    def: PrivilegeDef,
    access: PrivType,
    word: Seq<char>,
    as_user: UserId,
    verdict: Verdict,
    asking: UserView,
    role: UserView,
)
    requires
        is_check_of(facts, op, def, access, word, as_user, verdict),
        def.object_type == SchemaObjectType::Role,
        def.object_id is Some,
        has_user(facts, as_user, asking),
        has_user(facts, def.object_id->0, role),
        !may_hand_on(role, def.privilege, as_user),
    ensures
        is_denial(verdict, word, "role"@, role.name, asking.name),
{
}

/// For those who may hand a role on, the grantee and the privileges of the cluster must be
/// known. Where the role already has the grantee among the roles that it holds, the change is
/// refused as a loop that names both; otherwise tarantool decides.
pub proof fn law_role_privilege_makes_no_loop(
    facts: Facts,
    op: Op,
    def: PrivilegeDef,
    access: PrivType,
    word: Seq<char>,
    as_user: UserId,
    verdict: Verdict,
    asking: UserView,
    role: UserView,
    grantee: UserView,
    privileges: Seq<PrivilegeDef>,
)
    requires
        is_check_of(facts, op, def, access, word, as_user, verdict),
        def.object_type == SchemaObjectType::Role,
        def.object_id is Some,
        has_user(facts, as_user, asking),
        has_user(facts, def.object_id->0, role),
        may_hand_on(role, def.privilege, as_user),
    ensures
        !(facts.users.contains_key(def.grantee_id) && facts.users[def.grantee_id] matches Ok(
            Some(_),
        )) ==> stopped_at_user(facts, def.grantee_id, verdict),
        has_user(facts, def.grantee_id, grantee) && facts.privileges is None ==> verdict == Verdict::Asks(RequestView::Privileges),
        has_user(facts, def.grantee_id, grantee) ==> (facts.privileges matches Some(Err(error))
            ==> verdict == Verdict::Refused(error)),
        has_user(facts, def.grantee_id, grantee) && facts.privileges == Some(
            Ok::<Seq<PrivilegeDef>, ErrorView>(privileges),
        ) ==> if holds(privileges, def.grantee_id, role.id) {
            verdict == Verdict::Refused(
                ErrorView::Raised {
                    code: TarantoolErrorCode::RoleLoop,
                    message: "Granting role "@ + role.name + " to role "@ + grantee.name
                        + " would create a loop"@,
                },
            )
        } else {
            left_to_tarantool(
                facts,
                CheckView::Ddl {
                    object_name: role.name,
                    object_id: role.id,
                    owner_id: as_user,
                    object_type: TntSchemaObjectType::Role,
                    access,
                    as_user,
                },
                verdict,
            )
        },
{
}

/// The search for a loop asks for the grantee and the privileges, and refuses exactly where the
/// granted role is among those who hold the grantee.
pub proof fn law_loop_is_found_where_the_role_holds_the_grantee(
    transcript: Transcript,
    role: UserMetadata,
    def: PrivilegeDef,
    grantee: UserView,
    privileges: Seq<PrivilegeDef>,
    r: Result<(), Pending>,
)
    requires
        call_ensures(detect_role_grant_cycles, (&transcript, &role, &def), r),
        has_user(transcript@, def.grantee_id, grantee),
        transcript@.privileges == Some(Ok::<Seq<PrivilegeDef>, ErrorView>(privileges)),
    ensures
        r is Ok <==> !holds(privileges, def.grantee_id, role.id),
        r matches Err(pending) ==> stands_for(
            r,
            Verdict::Refused(
                ErrorView::Raised {
                    code: TarantoolErrorCode::RoleLoop,
                    message: "Granting role "@ + role.name@ + " to role "@ + grantee.name
                        + " would create a loop"@,
                },
            ),
        ),
{
}

////////////////////////////////////////////////////////////////////////////////
// What is covered
////////////////////////////////////////////////////////////////////////////////

/// The operations without an access rule are batches, changes of procedures and the renaming of
/// users; every other operation has one.
pub proof fn law_uncovered_operations_are_few(op: Op, r: bool)
    requires
        call_ensures(is_covered, (&op,), r),
    ensures
        r <==> op_has_rule(op),
        !r <==> match op {
            Op::BatchDml { .. } => true,
            Op::DdlPrepare { ddl, .. } => ddl is CreateProcedure || ddl is DropProcedure
                || ddl is RenameProcedure,
            Op::Acl(acl) => acl is RenameUser,
            _ => false,
        },
{
}

/// What is created belongs to the user who creates it, and only what is created has an owner to
/// look at.
pub proof fn law_creators_own_what_they_create(op: Op, as_user: UserId, r: bool)
    requires
        call_ensures(is_owned_by_creator, (&op, as_user), r),
    ensures
        match op {
            Op::DdlPrepare { ddl: Ddl::CreateTable { owner, .. }, .. } => r <==> owner == as_user,
            Op::Acl(Acl::CreateUser { user_def }) => r <==> user_def.owner == as_user,
            Op::Acl(Acl::CreateRole { role_def }) => r <==> role_def.owner == as_user,
            _ => r,
        },
{
}

////////////////////////////////////////////////////////////////////////////////
// Recording answers
////////////////////////////////////////////////////////////////////////////////

/// A user that is recorded is the user that is read, in every field; what was known of others
/// and of tables, privileges and accesses stays.
pub proof fn law_recorded_user_is_read_back(
    transcript: &mut Transcript,
    after: Transcript,
    id: UserId,
    user: UserMetadata,
    r: Result<&UserMetadata, Pending>,
)
    requires
        call_ensures(Transcript::record_user, (transcript, id, Ok(Some(user))), ()),
        *final(transcript) == after,
        call_ensures(user_by_id, (&after, id), r),
    ensures
        r matches Ok(found) && {
            &&& found.id == user.id
            &&& found.owner_id == user.owner_id
            &&& found.name@ == user.name@
            &&& found.ty == user.ty
            &&& found.auth@ == user.auth@
            &&& found.last_modified == user.last_modified
        },
        forall|other: UserId|
            other != id ==> (#[trigger] after@.users.contains_key(other)
                == old(transcript)@.users.contains_key(other) && after@.users[other]
                == old(transcript)@.users[other]),
        after@.tables == old(transcript)@.tables,
        after@.privileges == old(transcript)@.privileges,
        after@.access == old(transcript)@.access,
{
}

/// A table that is recorded is known as it is; all else that was known stays.
pub proof fn law_recorded_table_is_known(
    transcript: &mut Transcript,
    id: SpaceId,
    table: TableMetadata,
)
    requires
        call_ensures(Transcript::record_table, (transcript, id, Ok(table)), ()),
    ensures
        has_table(
            final(transcript)@,
            id,
            TableView { id: table.id, user_id: table.user_id, name: table.name@ },
        ),
        forall|other: SpaceId|
            other != id ==> (#[trigger] final(transcript)@.tables.contains_key(other)
                == old(transcript)@.tables.contains_key(other) && final(transcript)@.tables[other]
                == old(transcript)@.tables[other]),
        final(transcript)@.users == old(transcript)@.users,
        final(transcript)@.privileges == old(transcript)@.privileges,
        final(transcript)@.access == old(transcript)@.access,
{
}

/// Privileges that are recorded are known in their order; all else that was known stays.
pub proof fn law_recorded_privileges_are_known(
    transcript: &mut Transcript,
    privileges: Vec<PrivilegeDef>,
)
    requires
        call_ensures(Transcript::record_privileges, (transcript, Ok(privileges)), ()),
    ensures
        final(transcript)@.privileges matches Some(Ok(known)) && known == privileges@,
        final(transcript)@.users == old(transcript)@.users,
        final(transcript)@.tables == old(transcript)@.tables,
        final(transcript)@.access == old(transcript)@.access,
{
}

/// Once the answer of tarantool to the question of a check is recorded, the check comes to this
/// answer: it passes with consent and fails with the error.
pub proof fn law_recorded_answer_ends_the_check(
    transcript: &mut Transcript,
    after: Transcript,
    op: Op,
    as_user: UserId,
    check: AccessCheck,
    asked: Result<(), Pending>,
    answer: Result<(), TarantoolError>,
    r: Result<(), Pending>,
)
    requires
        op_has_rule(op),
        call_ensures(access_check_op, (&*old(transcript), &op, as_user), asked),
        asked == Err::<(), Pending>(Pending::Ask(Request::Access(check))),
        call_ensures(Transcript::record_access, (transcript, check, answer), ()),
        *final(transcript) == after,
        call_ensures(access_check_op, (&after, &op, as_user), r),
    ensures
        answer is Ok ==> r is Ok,
        answer matches Err(error) ==> (r matches Err(Pending::Fail(e)) && e@ == error@),
{
    let view = match answer {
        Ok(_) => Ok(()),
        Err(error) => Err(error@),
    };
    law_tarantool_has_the_last_word(old(transcript)@, op, as_user, check@, view);
    assert(after@ =~= (Facts { access: Some((check@, view)), ..old(transcript)@ }));
}

} // verus!
