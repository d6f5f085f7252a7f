//! What holds of access checks as a whole.
use vstd::prelude::*;

use crate::access_control::{
    grant_check, grant_revoke_verdict, known_privileges, known_table, known_user, loop_verdict,
    op_has_rule, op_verdict, owner_or_admin, tarantool_verdict,
};
use crate::role_graph::{
    holds, is_role_grant, law_accepted_grant_keeps_roles_loop_free,
    law_refused_grant_would_make_a_loop, loop_free,
};
use crate::schema::{PrivilegeDef, PrivilegeType, SchemaObjectType, UserId, ADMIN_ID};
use crate::traft::op::{Acl, Ddl, Op};
use crate::transcript::{
    CheckView, ErrorView, Facts, PrivType, RequestView, TarantoolErrorCode, TntSchemaObjectType,
    UserMetadataKind, Verdict,
};

verus! {

/// A verdict stands: once an operation is granted or refused, further answers change nothing.
pub proof fn law_verdict_is_stable(facts: Facts, more: Facts, op: Op, as_user: UserId)
    requires
        op_has_rule(op),
        facts.grows_to(more),
        !(op_verdict(facts, op, as_user) is Asks),
    ensures
        op_verdict(more, op, as_user) == op_verdict(facts, op, as_user),
{
    lemma_known_grow(facts, more);
}

proof fn lemma_known_grow(facts: Facts, more: Facts)
    requires
        facts.grows_to(more),
    ensures
        forall|id: UserId|
            #![trigger known_user(more, id)]
            facts.users.contains_key(id) ==> known_user(more, id) == known_user(facts, id),
        forall|id: u32|
            #![trigger known_table(more, id)]
            facts.tables.contains_key(id) ==> known_table(more, id) == known_table(facts, id),
        facts.privileges is Some ==> known_privileges(more) == known_privileges(facts),
        forall|check: CheckView|
            #![trigger tarantool_verdict(more, check)]
            !(tarantool_verdict(facts, check) is Asks) ==> tarantool_verdict(more, check)
                == tarantool_verdict(facts, check),
{
    assert forall|id: UserId| #![trigger known_user(more, id)] facts.users.contains_key(
        id,
    ) implies known_user(more, id) == known_user(facts, id) by {
        assert(facts.users.dom().contains(id));
        assert(more.users.dom().contains(id));
    }
    assert forall|id: u32| #![trigger known_table(more, id)] facts.tables.contains_key(
        id,
    ) implies known_table(more, id) == known_table(facts, id) by {
        assert(facts.tables.dom().contains(id));
        assert(more.tables.dom().contains(id));
    }
}

/// No question is asked twice: what a check asks for has no answer yet.
pub proof fn law_questions_are_new(facts: Facts, op: Op, as_user: UserId)
    requires
        op_has_rule(op),
        op_verdict(facts, op, as_user) is Asks,
    ensures
        !facts.answers(op_verdict(facts, op, as_user)->Asks_0),
{
    match op {
        Op::Acl(Acl::GrantPrivilege { priv_def }) => {
            lemma_grant_questions_are_new(facts, priv_def, as_user, PrivType::Grant, "Grant"@);
        },
        Op::Acl(Acl::RevokePrivilege { priv_def, .. }) => {
            lemma_grant_questions_are_new(facts, priv_def, as_user, PrivType::Revoke, "Revoke"@);
        },
        _ => {},
    }
}

proof fn lemma_grant_questions_are_new(
    facts: Facts,
    def: PrivilegeDef,
    as_user: UserId,
    access: PrivType,
    access_name: Seq<char>,
)
    ensures
        grant_revoke_verdict(facts, def, as_user, access, access_name) matches Verdict::Asks(
            request,
        ) ==> !facts.answers(request),
{
    match grant_revoke_verdict(facts, def, as_user, access, access_name) {
        Verdict::Asks(request) => match request {
            RequestView::User(id) => {
                assert(!facts.users.contains_key(id));
            },
            RequestView::Table(id) => {
                assert(!facts.tables.contains_key(id));
            },
            RequestView::Privileges => {
                assert(facts.privileges is None);
            },
            RequestView::Access(check) => {
                assert(tarantool_verdict(facts, check) is Asks);
            },
        },
        _ => {},
    }
}

/// The user, role or table that the operation is about, where it is one that exists.
pub open spec fn subject(op: Op) -> Option<u32> {
    match op {
        Op::DdlPrepare { ddl, .. } => match ddl {
            Ddl::DropTable { id, .. } => Some(id),
            Ddl::CreateIndex { space_id, .. } => Some(space_id),
            Ddl::DropIndex { space_id, .. } => Some(space_id),
            _ => None,
        },
        Op::Acl(acl) => match acl {
            Acl::ChangeAuth { user_id, .. } => Some(user_id),
            Acl::DropUser { user_id, .. } => Some(user_id),
            Acl::DropRole { role_id, .. } => Some(role_id),
            Acl::GrantPrivilege { priv_def } => priv_def.object_id,
            Acl::RevokePrivilege { priv_def, .. } => priv_def.object_id,
            _ => None,
        },
        _ => None,
    }
}

/// The user or role whose privileges the operation changes.
pub open spec fn grantee(op: Op) -> Option<UserId> {
    match op {
        Op::Acl(Acl::GrantPrivilege { priv_def }) => Some(priv_def.grantee_id),
        Op::Acl(Acl::RevokePrivilege { priv_def, .. }) => Some(priv_def.grantee_id),
        _ => None,
    }
}

/// The check reads only what concerns the operation: the user who asks, the object and the
/// grantee; and it makes tarantool decide for no one but that user.
pub proof fn law_questions_concern_the_operation(facts: Facts, op: Op, as_user: UserId)
    requires
        op_has_rule(op),
    ensures
        match op_verdict(facts, op, as_user) {
            Verdict::Asks(RequestView::User(id)) => id == as_user || subject(op) == Some(id)
                || grantee(op) == Some(id),
            Verdict::Asks(RequestView::Table(id)) => subject(op) == Some(id),
            Verdict::Asks(RequestView::Privileges) => grantee(op) is Some,
            Verdict::Asks(RequestView::Access(CheckView::Ddl { as_user: user, .. })) => user
                == as_user,
            Verdict::Asks(RequestView::Access(CheckView::Space { as_user: user, .. })) => user
                == as_user,
            _ => true,
        },
{
}

/// How many entries of the instance the check may still have to read.
pub open spec fn unread(facts: Facts, op: Op, as_user: UserId) -> nat {
    let by = if facts.users.contains_key(as_user) {
        0nat
    } else {
        1nat
    };
    let on = match subject(op) {
        Some(id) => (if facts.users.contains_key(id) {
            0nat
        } else {
            1nat
        }) + (if facts.tables.contains_key(id) {
            0nat
        } else {
            1nat
        }),
        None => 0nat,
    };
    let to = match grantee(op) {
        Some(id) => (if facts.users.contains_key(id) {
            0nat
        } else {
            1nat
        }) + (if facts.privileges is Some {
            0nat
        } else {
            1nat
        }),
        None => 0nat,
    };
    by + on + to
}

/// A check comes to an end: each answer that it asks for, but for the last one from
/// tarantool, leaves less to read.
pub proof fn law_check_comes_to_an_end(
    facts: Facts,
    more: Facts,
    op: Op,
    as_user: UserId,
    request: RequestView,
)
    requires
        op_has_rule(op),
        op_verdict(facts, op, as_user) == Verdict::Asks(request),
        !(request is Access),
        facts.grows_to(more),
        more.answers(request),
    ensures
        unread(more, op, as_user) < unread(facts, op, as_user) <= 5,
{
    law_questions_are_new(facts, op, as_user);
    law_questions_concern_the_operation(facts, op, as_user);
    assert forall|id: UserId| #[trigger] facts.users.contains_key(
        id,
    ) implies more.users.contains_key(id) by {
        assert(facts.users.dom().contains(id));
    }
    assert forall|id: u32| #[trigger] facts.tables.contains_key(
        id,
    ) implies more.tables.contains_key(id) by {
        assert(facts.tables.dom().contains(id));
    }
}

/// Tarantool has the last word: once it is asked for an access, its answer is the verdict.
pub proof fn law_tarantool_has_the_last_word(
    facts: Facts,
    op: Op,
    as_user: UserId,
    check: CheckView,
    answer: Result<(), ErrorView>,
)
    requires
        op_has_rule(op),
        op_verdict(facts, op, as_user) == Verdict::Asks(RequestView::Access(check)),
    ensures
        op_verdict(Facts { access: Some((check, answer)), ..facts }, op, as_user) == (match answer {
            Ok(_) => Verdict::Granted,
            Err(error) => Verdict::Refused(error),
        }),
{
    let more = Facts { access: Some((check, answer)), ..facts };
    assert forall|id: UserId| #[trigger] known_user(more, id) == known_user(facts, id) by {}
    assert forall|id: u32| #[trigger] known_table(more, id) == known_table(facts, id) by {}
    assert(known_privileges(more) == known_privileges(facts));
}

/// Where tarantool is asked about a grant or a revocation, it is told that the grantor is the
/// owner: it accepts no other owner there.
pub proof fn law_grantor_stands_as_owner(facts: Facts, op: Op, as_user: UserId)
    requires
        op_has_rule(op),
    ensures
        op_verdict(facts, op, as_user) matches Verdict::Asks(
            RequestView::Access(CheckView::Ddl { owner_id, access, .. }),
        ) ==> access == PrivType::Grant || access == PrivType::Revoke ==> owner_id == as_user,
{
}

/// A grant of a role that passes keeps the roles of the cluster free of loops, whoever makes
/// it.
pub proof fn law_passed_grant_keeps_roles_loop_free(
    facts: Facts,
    def: PrivilegeDef,
    as_user: UserId,
    privileges: Seq<PrivilegeDef>,
)
    requires
        facts.consistent(),
        is_role_grant(def),
        facts.privileges == Some(Ok::<Seq<PrivilegeDef>, ErrorView>(privileges)),
        loop_free(privileges),
        op_verdict(facts, Op::Acl(Acl::GrantPrivilege { priv_def: def }), as_user) is Granted,
    ensures
        loop_free(privileges.push(def)),
{
    let role = known_user(facts, def.object_id->0)->Ok_0;
    assert(facts.users.contains_key(def.object_id->0));
    assert(role.id == def.object_id->0);
    assert(loop_verdict(facts, role, def) is Granted);
    law_accepted_grant_keeps_roles_loop_free(privileges, def);
}

/// A grant that would make a loop of roles never passes, not even for the administrator.
pub proof fn law_grant_that_makes_a_loop_never_passes(
    facts: Facts,
    def: PrivilegeDef,
    as_user: UserId,
    privileges: Seq<PrivilegeDef>,
)
    requires
        facts.consistent(),
        is_role_grant(def),
        facts.privileges == Some(Ok::<Seq<PrivilegeDef>, ErrorView>(privileges)),
        loop_free(privileges),
        !loop_free(privileges.push(def)),
    ensures
        !(op_verdict(facts, Op::Acl(Acl::GrantPrivilege { priv_def: def }), as_user) is Granted),
{
    if op_verdict(facts, Op::Acl(Acl::GrantPrivilege { priv_def: def }), as_user) is Granted {
        law_passed_grant_keeps_roles_loop_free(facts, def, as_user, privileges);
    }
}

/// A grant is refused as a loop only where it would make one.
pub proof fn law_loop_is_refused_only_where_there_is_one(
    facts: Facts,
    def: PrivilegeDef,
    as_user: UserId,
    privileges: Seq<PrivilegeDef>,
    message: Seq<char>,
)
    requires
        facts.consistent(),
        only_foreign_errors(facts),
        is_role_grant(def),
        facts.privileges == Some(Ok::<Seq<PrivilegeDef>, ErrorView>(privileges)),
        op_verdict(facts, Op::Acl(Acl::GrantPrivilege { priv_def: def }), as_user)
            == Verdict::Refused(
            ErrorView::Raised { code: TarantoolErrorCode::RoleLoop, message },
        ),
    ensures
        !loop_free(privileges.push(def)),
{
    assert(facts.users.contains_key(as_user));
    assert(facts.users.contains_key(def.object_id->0));
    assert(facts.users.contains_key(def.grantee_id));
    law_refused_grant_would_make_a_loop(privileges, def);
}

/// The errors among the answers are those that the instance gave, none that a check raises.
pub open spec fn only_foreign_errors(facts: Facts) -> bool {
    &&& forall|id: UserId| #[trigger]
        facts.users.contains_key(id) ==> (facts.users[id] matches Err(error) ==> error is Foreign)
    &&& forall|id: u32| #[trigger]
        facts.tables.contains_key(id) ==> (facts.tables[id] matches Err(error) ==> error is Foreign)
    &&& facts.privileges matches Some(Err(error)) ==> error is Foreign
    &&& facts.access matches Some((_, Err(error))) ==> error is Foreign
}

/// The administrator is denied nothing by the rules here.
pub proof fn law_admin_is_denied_nothing(facts: Facts, op: Op)
    requires
        op_has_rule(op),
        only_foreign_errors(facts),
    ensures
        op_verdict(facts, op, ADMIN_ID) matches Verdict::Refused(
            ErrorView::Raised { code, .. },
        ) ==> code != TarantoolErrorCode::AccessDenied,
{
}

/// Only the administrator commits and aborts schema changes.
pub proof fn law_only_admin_ends_schema_changes(facts: Facts, op: Op, as_user: UserId)
    requires
        op is DdlCommit || op is DdlAbort,
    ensures
        op_verdict(facts, op, as_user) is Granted <==> as_user == ADMIN_ID,
{
}

/// What only the administrator can grant: privileges on the universe and on all objects of a
/// type.
pub proof fn law_wide_grants_are_for_admin(
    facts: Facts,
    def: PrivilegeDef,
    as_user: UserId,
    access: PrivType,
    access_name: Seq<char>,
)
    requires
        def.object_id is None || def.object_type == SchemaObjectType::Universe,
    ensures
        grant_revoke_verdict(facts, def, as_user, access, access_name) is Granted ==> as_user
            == ADMIN_ID,
{
}

/// Who grants or revokes a privilege on a table or a user owns it or is the administrator;
/// for a role the same holds, but for the role 'public', which everyone can hand on.
pub proof fn law_grants_are_for_owners(
    facts: Facts,
    def: PrivilegeDef,
    as_user: UserId,
    access: PrivType,
    access_name: Seq<char>,
)
    requires
        def.object_id is Some,
        grant_revoke_verdict(facts, def, as_user, access, access_name) is Granted,
    ensures
        def.object_type == SchemaObjectType::Table ==> (known_table(facts, def.object_id->0) matches Ok(
            table,
        ) && owner_or_admin(table.user_id, as_user)),
        def.object_type == SchemaObjectType::User ==> (known_user(facts, def.object_id->0) matches Ok(
            user,
        ) && user.ty == UserMetadataKind::User && owner_or_admin(user.owner_id, as_user)),
        def.object_type == SchemaObjectType::Role ==> (known_user(facts, def.object_id->0) matches Ok(
            role,
        ) && (owner_or_admin(role.owner_id, as_user) || role.name == "public"@ && def.privilege
            == PrivilegeType::Execute)),
{
}

/// Everyone can grant the role 'public': once the users and the privileges are known and no
/// loop arises, nothing but tarantool's own check is left.
pub proof fn law_everyone_can_grant_public(
    facts: Facts,
    def: PrivilegeDef,
    as_user: UserId,
    privileges: Seq<PrivilegeDef>,
)
    requires
        facts.consistent(),
        is_role_grant(def),
        known_user(facts, as_user) is Ok,
        known_user(facts, def.grantee_id) is Ok,
        known_user(facts, def.object_id->0) matches Ok(role) && role.name == "public"@,
        known_privileges(facts) == Ok::<Seq<PrivilegeDef>, Verdict>(privileges),
        !holds(privileges, def.grantee_id, def.object_id->0),
    ensures
        op_verdict(facts, Op::Acl(Acl::GrantPrivilege { priv_def: def }), as_user)
            == tarantool_verdict(
            facts,
            grant_check(
                "public"@,
                def.object_id->0,
                TntSchemaObjectType::Role,
                PrivType::Grant,
                as_user,
            ),
        ),
{
    assert(facts.users.contains_key(def.object_id->0));
}

} // verus!
