//! Who holds which role. Having a role means having the execute privilege on it; a role that
//! is granted to a role is held by everyone who holds the latter.
use std::collections::{HashMap, HashSet};
use vstd::prelude::*;

use crate::schema::{PrivilegeDef, PrivilegeType, SchemaObjectType, UserId};

verus! {

/// The privilege hands a role to its grantee.
pub open spec fn is_role_grant(def: PrivilegeDef) -> bool {
    def.object_type == SchemaObjectType::Role && def.privilege == PrivilegeType::Execute
        && def.object_id is Some
}

/// `role` is granted to `grantee` by one of the privileges.
pub open spec fn is_granted(privileges: Seq<PrivilegeDef>, role: UserId, grantee: UserId) -> bool {
    exists|i: int|
        0 <= i < privileges.len() && is_role_grant(#[trigger] privileges[i])
            && privileges[i].object_id == Some(role) && privileges[i].grantee_id == grantee
}

/// Each on the chain is granted to the next.
pub open spec fn is_chain(privileges: Seq<PrivilegeDef>, chain: Seq<UserId>) -> bool {
    &&& chain.len() > 0
    &&& forall|i: int, j: int|
        0 <= i && j == i + 1 && j < chain.len() ==> is_granted(
            privileges,
            #[trigger] chain[i],
            #[trigger] chain[j],
        )
}

/// `chain` is a chain of grants from `role` to `holder`.
pub open spec fn links(
    privileges: Seq<PrivilegeDef>,
    role: UserId,
    holder: UserId,
    chain: Seq<UserId>,
) -> bool {
    is_chain(privileges, chain) && chain[0] == role && chain.last() == holder
}

/// `holder` is `role`, or has it through a chain of grants.
pub open spec fn holds(privileges: Seq<PrivilegeDef>, role: UserId, holder: UserId) -> bool {
    exists|chain: Seq<UserId>| links(privileges, role, holder, chain)
}

/// No role is granted, directly or through others, to itself.
pub open spec fn loop_free(privileges: Seq<PrivilegeDef>) -> bool {
    forall|role: UserId, grantee: UserId| #[trigger]
        is_granted(privileges, role, grantee) ==> !holds(privileges, grantee, role)
}

proof fn lemma_holds_itself(privileges: Seq<PrivilegeDef>, role: UserId)
    ensures
        holds(privileges, role, role),
{
    assert(links(privileges, role, role, seq![role]));
}

proof fn lemma_holds_next(
    privileges: Seq<PrivilegeDef>,
    role: UserId,
    holder: UserId,
    grantee: UserId,
)
    requires
        holds(privileges, role, holder),
        is_granted(privileges, holder, grantee),
    ensures
        holds(privileges, role, grantee),
{
    let chain = choose|chain: Seq<UserId>| links(privileges, role, holder, chain);
    let longer = chain.push(grantee);
    assert forall|i: int, j: int| 0 <= i && j == i + 1 && j < longer.len() implies is_granted(
        privileges,
        #[trigger] longer[i],
        #[trigger] longer[j],
    ) by {
        if j < chain.len() {
            assert(longer[i] == chain[i] && longer[j] == chain[j]);
        } else {
            assert(longer[i] == chain.last());
        }
    }
    assert(links(privileges, role, grantee, longer));
}

/// A set that holds a role and is closed under grants has everyone who holds the role.
proof fn lemma_closed_set_has_holders(
    privileges: Seq<PrivilegeDef>,
    set: Set<UserId>,
    chain: Seq<UserId>,
)
    requires
        is_chain(privileges, chain),
        set.contains(chain[0]),
        forall|role: UserId, grantee: UserId|
            set.contains(role) && #[trigger] is_granted(privileges, role, grantee) ==> set.contains(
                grantee,
            ),
    ensures
        set.contains(chain.last()),
    decreases chain.len(),
{
    if chain.len() > 1 {
        let shorter = chain.drop_last();
        assert(is_chain(privileges, shorter));
        lemma_closed_set_has_holders(privileges, set, shorter);
        let last: int = chain.len() - 1;
        assert(is_granted(privileges, chain[last - 1], chain[last]));
    }
}

/// The grantees of each role, as a table.
pub open spec fn is_grant_table(
    table: Map<UserId, Vec<UserId>>,
    privileges: Seq<PrivilegeDef>,
) -> bool {
    forall|role: UserId, grantee: UserId|
        #![trigger is_granted(privileges, role, grantee)]
        is_granted(privileges, role, grantee) <==> table.contains_key(role)
            && table[role]@.contains(grantee)
}

fn grant_table(privileges: &Vec<PrivilegeDef>) -> (r: HashMap<UserId, Vec<UserId>>)
    ensures
        is_grant_table(r@, privileges@),
{
    broadcast use vstd::std_specs::hash::group_hash_axioms;

    let mut table: HashMap<UserId, Vec<UserId>> = HashMap::new();
    let mut i: usize = 0;
    while i < privileges.len()
        invariant
            i <= privileges.len(),
            is_grant_table(table@, privileges@.take(i as int)),
        decreases privileges.len() - i,
    {
        let def = privileges[i];
        let ghost before = table@;
        let ghost seen = privileges@.take(i as int);
        if def.object_type == SchemaObjectType::Role && def.privilege == PrivilegeType::Execute {
            if let Some(role) = def.object_id {
                let mut grantees = match table.remove(&role) {
                    Some(grantees) => grantees,
                    None => Vec::new(),
                };
                grantees.push(def.grantee_id);
                table.insert(role, grantees);
            }
        }
        i = i + 1;
        proof {
            let now = privileges@.take(i as int);
            assert(now =~= seen.push(def));
            assert forall|role: UserId, grantee: UserId|
                #![trigger is_granted(now, role, grantee)]
                is_granted(now, role, grantee) <==> table@.contains_key(role)
                    && table@[role]@.contains(grantee) by {
                lemma_grant_pushed(seen, def, role, grantee);
                if is_role_grant(def) && def.object_id == Some(role) {
                    let old_grantees = if before.contains_key(role) {
                        before[role]@
                    } else {
                        Seq::empty()
                    };
                    assert(table@[role]@ == old_grantees.push(def.grantee_id));
                    lemma_contains_pushed(old_grantees, def.grantee_id, grantee);
                }
            }
        }
    }
    assert(privileges@.take(i as int) =~= privileges@);
    table
}

proof fn lemma_contains_pushed(s: Seq<UserId>, x: UserId, y: UserId)
    ensures
        s.push(x).contains(y) <==> s.contains(y) || x == y,
{
    if s.contains(y) {
        let i: int = choose|i: int| 0 <= i < s.len() && s[i] == y;
        assert(s.push(x)[i] == y);
    }
    assert(s.push(x)[s.len() as int] == x);
    if s.push(x).contains(y) && x != y {
        let i: int = choose|i: int| 0 <= i < s.push(x).len() && s.push(x)[i] == y;
        assert(s[i] == y);
    }
}

proof fn lemma_grant_pushed(
    privileges: Seq<PrivilegeDef>,
    def: PrivilegeDef,
    role: UserId,
    grantee: UserId,
)
    ensures
        is_granted(privileges.push(def), role, grantee) <==> is_granted(privileges, role, grantee)
            || is_role_grant(def) && def.object_id == Some(role) && def.grantee_id == grantee,
{
    let longer = privileges.push(def);
    if is_granted(privileges, role, grantee) {
        let i: int = choose|i: int|
            0 <= i < privileges.len() && is_role_grant(#[trigger] privileges[i])
                && privileges[i].object_id == Some(role) && privileges[i].grantee_id == grantee;
        assert(longer[i] == privileges[i]);
    }
    assert(longer[privileges.len() as int] == def);
    if is_granted(longer, role, grantee) {
        let i: int = choose|i: int|
            0 <= i < longer.len() && is_role_grant(#[trigger] longer[i]) && longer[i].object_id
                == Some(role) && longer[i].grantee_id == grantee;
        if i < privileges.len() {
            assert(longer[i] == privileges[i]);
        }
    }
}

/// The users and roles that can come up in a walk along grants from `start`.
spec fn walk_bound(privileges: Seq<PrivilegeDef>, start: UserId) -> Set<UserId> {
    privileges.map_values(|def: PrivilegeDef| def.grantee_id).to_set().insert(start)
}

proof fn lemma_walk_bound(privileges: Seq<PrivilegeDef>, start: UserId, visited: Set<UserId>)
    requires
        forall|x: UserId| visited.contains(x) ==> holds(privileges, start, x),
    ensures
        walk_bound(privileges, start).finite(),
        visited.subset_of(walk_bound(privileges, start)),
        visited.finite(),
        visited.len() <= walk_bound(privileges, start).len(),
{
    let grantees = privileges.map_values(|def: PrivilegeDef| def.grantee_id);
    vstd::seq_lib::seq_to_set_is_finite(grantees);
    assert forall|x: UserId| visited.contains(x) implies walk_bound(privileges, start).contains(
        x,
    ) by {
        let chain = choose|chain: Seq<UserId>| links(privileges, start, x, chain);
        if chain.len() > 1 {
            let last: int = chain.len() - 1;
            assert(is_granted(privileges, chain[last - 1], chain[last]));
            let i: int = choose|i: int|
                0 <= i < privileges.len() && is_role_grant(#[trigger] privileges[i])
                    && privileges[i].object_id == Some(chain[last - 1])
                    && privileges[i].grantee_id == x;
            assert(grantees[i] == x);
        }
    }
    vstd::set_lib::lemma_len_subset(visited, walk_bound(privileges, start));
}

/// Everyone who holds `role`, itself included.
pub fn holders(privileges: &Vec<PrivilegeDef>, role: UserId) -> (r: HashSet<UserId>)
    ensures
        forall|x: UserId| r@.contains(x) <==> holds(privileges@, role, x),
{
    broadcast use vstd::std_specs::hash::group_hash_axioms;

    let table = grant_table(privileges);
    let mut visited: HashSet<UserId> = HashSet::new();
    let mut pending: Vec<UserId> = Vec::new();
    visited.insert(role);
    pending.push(role);
    proof {
        lemma_holds_itself(privileges@, role);
        lemma_walk_bound(privileges@, role, visited@);
        assert(pending@[0] == role);
    }
    while pending.len() > 0
        invariant
            is_grant_table(table@, privileges@),
            visited@.contains(role),
            forall|x: UserId| visited@.contains(x) ==> holds(privileges@, role, x),
            forall|k: int| 0 <= k < pending.len() ==> visited@.contains(#[trigger] pending@[k]),
            forall|x: UserId, y: UserId|
                visited@.contains(x) && !pending@.contains(x) && #[trigger] is_granted(
                    privileges@,
                    x,
                    y,
                ) ==> visited@.contains(y),
            visited@.finite(),
            visited@.len() <= walk_bound(privileges@, role).len(),
        decreases walk_bound(privileges@, role).len() - visited@.len(), pending.len(),
    {
        let ghost before = pending@;
        let node = pending[pending.len() - 1];
        pending.pop();
        let ghost rest = pending@;
        let ghost visited_before = visited@;
        if let Some(grantees) = table.get(&node) {
            let mut j: usize = 0;
            while j < grantees.len()
                invariant
                    is_grant_table(table@, privileges@),
                    table@.contains_key(node),
                    table@[node] == *grantees,
                    j <= grantees.len(),
                    holds(privileges@, role, node),
                    visited_before.subset_of(visited@),
                    visited@.len() >= visited_before.len(),
                    visited@.len() == visited_before.len() ==> visited@ == visited_before
                        && pending@ == rest,
                    forall|x: UserId| visited@.contains(x) ==> holds(privileges@, role, x),
                    forall|k: int|
                        0 <= k < pending.len() ==> visited@.contains(#[trigger] pending@[k]),
                    forall|x: UserId|
                        visited@.contains(x) && !visited_before.contains(x) ==> pending@.contains(
                            x,
                        ),
                    forall|x: UserId| rest.contains(x) ==> pending@.contains(x),
                    forall|k: int| 0 <= k < j ==> visited@.contains(#[trigger] grantees@[k]),
                    visited@.finite(),
                    rest == before.drop_last(),
                    forall|k: int| 0 <= k < rest.len() ==> visited_before.contains(#[trigger] rest[k]),
                decreases grantees.len() - j,
            {
                let grantee = grantees[j];
                proof {
                    assert(grantees@.contains(grantee));
                    assert(is_granted(privileges@, node, grantee));
                    lemma_holds_next(privileges@, role, node, grantee);
                }
                if !visited.contains(&grantee) {
                    let ghost pending_before = pending@;
                    visited.insert(grantee);
                    pending.push(grantee);
                    proof {
                        assert forall|x: UserId|
                            pending_before.contains(x) || x == grantee implies pending@.contains(
                            x,
                        ) by {
                            lemma_contains_pushed(pending_before, grantee, x);
                        }
                        lemma_contains_pushed(pending_before, grantee, grantee);
                        assert forall|x: UserId|
                            visited@.contains(x) && !visited_before.contains(
                                x,
                            ) implies pending@.contains(x) by {
                            if x != grantee {
                                assert(pending_before.contains(x));
                            }
                        }
                    }
                }
                j = j + 1;
            }
            proof {
                assert forall|y: UserId| #[trigger]
                    is_granted(privileges@, node, y) implies visited@.contains(y) by {
                    assert(grantees@.contains(y));
                    let k: int = choose|k: int| 0 <= k < grantees.len() && grantees@[k] == y;
                    assert(visited@.contains(grantees@[k]));
                }
            }
        }
        proof {
            lemma_walk_bound(privileges@, role, visited@);
            assert forall|x: UserId, y: UserId|
                visited@.contains(x) && !pending@.contains(x) && #[trigger] is_granted(
                    privileges@,
                    x,
                    y,
                ) implies visited@.contains(y) by {
                if x != node && before.contains(x) {
                    let k: int = choose|k: int| 0 <= k < before.len() && before[k] == x;
                    assert(rest[k] == x);
                    assert(rest.contains(x));
                    assert(pending@.contains(x));
                } else if x != node {
                    assert(visited_before.contains(x));
                    assert(visited_before.contains(y));
                }
            }
        }
    }
    proof {
        assert forall|x: UserId| holds(privileges@, role, x) implies visited@.contains(x) by {
            let chain = choose|chain: Seq<UserId>| links(privileges@, role, x, chain);
            lemma_closed_set_has_holders(privileges@, visited@, chain);
        }
    }
    visited
}

/// Chains of grants can be joined: who holds a holder of a role, holds the role.
pub proof fn law_holding_is_transitive(
    privileges: Seq<PrivilegeDef>,
    role: UserId,
    middle: UserId,
    holder: UserId,
)
    requires
        holds(privileges, role, middle),
        holds(privileges, middle, holder),
    ensures
        holds(privileges, role, holder),
{
    let chain = choose|chain: Seq<UserId>| links(privileges, middle, holder, chain);
    lemma_holds_along(privileges, role, chain);
}

proof fn lemma_holds_along(privileges: Seq<PrivilegeDef>, role: UserId, chain: Seq<UserId>)
    requires
        is_chain(privileges, chain),
        holds(privileges, role, chain[0]),
    ensures
        holds(privileges, role, chain.last()),
    decreases chain.len(),
{
    if chain.len() > 1 {
        let shorter = chain.drop_last();
        assert(is_chain(privileges, shorter));
        lemma_holds_along(privileges, role, shorter);
        let last: int = chain.len() - 1;
        assert(is_granted(privileges, chain[last - 1], chain[last]));
        lemma_holds_next(privileges, role, shorter.last(), chain.last());
    }
}

/// What one more grant adds: chains that pass through it.
proof fn lemma_holds_pushed(
    privileges: Seq<PrivilegeDef>,
    def: PrivilegeDef,
    chain: Seq<UserId>,
)
    requires
        is_role_grant(def),
        is_chain(privileges.push(def), chain),
    ensures
        holds(privileges, chain[0], chain.last()) || holds(privileges, chain[0], def.object_id->0)
            && holds(privileges, def.grantee_id, chain.last()),
    decreases chain.len(),
{
    if chain.len() == 1 {
        lemma_holds_itself(privileges, chain[0]);
    } else {
        let shorter = chain.drop_last();
        assert(is_chain(privileges.push(def), shorter));
        lemma_holds_pushed(privileges, def, shorter);
        let last: int = chain.len() - 1;
        assert(is_granted(privileges.push(def), chain[last - 1], chain[last]));
        lemma_grant_pushed(privileges, def, chain[last - 1], chain[last]);
        if is_granted(privileges, chain[last - 1], chain[last]) {
            if holds(privileges, chain[0], shorter.last()) {
                lemma_holds_next(privileges, chain[0], shorter.last(), chain.last());
            } else {
                lemma_holds_next(privileges, def.grantee_id, shorter.last(), chain.last());
            }
        } else {
            lemma_holds_itself(privileges, def.grantee_id);
        }
    }
}

/// A grant that is not refused keeps the roles free of loops: where the granted role does not
/// already hold the grantee, no loop can arise.
pub proof fn law_accepted_grant_keeps_roles_loop_free(
    privileges: Seq<PrivilegeDef>,
    def: PrivilegeDef,
)
    requires
        loop_free(privileges),
        is_role_grant(def),
        !holds(privileges, def.grantee_id, def.object_id->0),
    ensures
        loop_free(privileges.push(def)),
{
    let after = privileges.push(def);
    let granted = def.object_id->0;
    assert forall|role: UserId, grantee: UserId| #[trigger]
        is_granted(after, role, grantee) implies !holds(after, grantee, role) by {
        if holds(after, grantee, role) {
            let chain = choose|chain: Seq<UserId>| links(after, grantee, role, chain);
            lemma_holds_pushed(privileges, def, chain);
            lemma_grant_pushed(privileges, def, role, grantee);
            if is_granted(privileges, role, grantee) {
                if !holds(privileges, grantee, role) {
                    lemma_holds_next(privileges, def.grantee_id, role, grantee);
                    law_holding_is_transitive(privileges, def.grantee_id, grantee, granted);
                }
            }
        }
    }
}

/// A grant that is refused would have made a loop: where the granted role already holds the
/// grantee, the roles would no longer be free of loops.
pub proof fn law_refused_grant_would_make_a_loop(
    privileges: Seq<PrivilegeDef>,
    def: PrivilegeDef,
)
    requires
        is_role_grant(def),
        holds(privileges, def.grantee_id, def.object_id->0),
    ensures
        !loop_free(privileges.push(def)),
{
    let after = privileges.push(def);
    let granted = def.object_id->0;
    lemma_grant_pushed(privileges, def, granted, def.grantee_id);
    let chain = choose|chain: Seq<UserId>| links(privileges, def.grantee_id, granted, chain);
    assert forall|i: int, j: int| 0 <= i && j == i + 1 && j < chain.len() implies is_granted(
        after,
        #[trigger] chain[i],
        #[trigger] chain[j],
    ) by {
        lemma_grant_pushed(privileges, def, chain[i], chain[j]);
    }
    assert(links(after, def.grantee_id, granted, chain));
    assert(is_granted(after, granted, def.grantee_id));
}

/// The privilege at `i` is the right to execute `role`, given to `grantee`.
pub open spec fn hands_on(
    privileges: Seq<PrivilegeDef>,
    i: int,
    role: UserId,
    grantee: UserId,
) -> bool {
    &&& 0 <= i < privileges.len()
    &&& privileges[i].privilege == PrivilegeType::Execute
    &&& privileges[i].object_type == SchemaObjectType::Role
    &&& privileges[i].object_id == Some(role)
    &&& privileges[i].grantee_id == grantee
}

/// A role is held by itself, and by whoever is given it by someone who holds it.
pub proof fn law_holders_hand_roles_on(
    privileges: Seq<PrivilegeDef>,
    role: UserId,
    holder: UserId,
    grantee: UserId,
    i: int,
)
    ensures
        holds(privileges, role, role),
        holds(privileges, role, holder) && hands_on(privileges, i, holder, grantee) ==> holds(
            privileges,
            role,
            grantee,
        ),
{
    lemma_holds_itself(privileges, role);
    if holds(privileges, role, holder) && hands_on(privileges, i, holder, grantee) {
        assert(is_role_grant(privileges[i]));
        assert(is_granted(privileges, holder, grantee));
        lemma_holds_next(privileges, role, holder, grantee);
    }
}

/// No one else holds a role: every group that has the role in it, and has everyone in it to
/// whom a member is given, has all holders of the role in it.
pub proof fn law_only_grants_make_holders(
    privileges: Seq<PrivilegeDef>,
    role: UserId,
    holder: UserId,
    group: Set<UserId>,
)
    requires
        holds(privileges, role, holder),
        group.contains(role),
        forall|i: int, member: UserId, grantee: UserId| #[trigger]
            hands_on(privileges, i, member, grantee) && group.contains(member) ==> group.contains(
                grantee,
            ),
    ensures
        group.contains(holder),
{
    let chain = choose|chain: Seq<UserId>| links(privileges, role, holder, chain);
    assert forall|member: UserId, grantee: UserId|
        group.contains(member) && #[trigger] is_granted(privileges, member, grantee) implies
        group.contains(grantee) by {
        let i: int = choose|i: int|
            0 <= i < privileges.len() && is_role_grant(#[trigger] privileges[i])
                && privileges[i].object_id == Some(member) && privileges[i].grantee_id == grantee;
        assert(hands_on(privileges, i, member, grantee));
    }
    lemma_closed_set_has_holders(privileges, group, chain);
}

/// The search finds the holders of a role: the smallest group that has the role in it and
/// everyone in it to whom a member is given.
pub proof fn law_search_finds_the_smallest_closed_group(
    privileges: Vec<PrivilegeDef>,
    role: UserId,
    found: HashSet<UserId>,
    group: Set<UserId>,
)
    requires
        call_ensures(holders, (&privileges, role), found),
    ensures
        found@.contains(role),
        forall|i: int, member: UserId, grantee: UserId| #[trigger]
            hands_on(privileges@, i, member, grantee) && found@.contains(member)
                ==> found@.contains(grantee),
        group.contains(role) && (forall|i: int, member: UserId, grantee: UserId| #[trigger]
            hands_on(privileges@, i, member, grantee) && group.contains(member) ==> group.contains(
                grantee,
            )) ==> found@.subset_of(group),
{
    law_holders_hand_roles_on(privileges@, role, role, role, 0);
    assert forall|i: int, member: UserId, grantee: UserId| #[trigger]
        hands_on(privileges@, i, member, grantee) && found@.contains(member) implies
        found@.contains(grantee) by {
        law_holders_hand_roles_on(privileges@, role, member, grantee, i);
    }
    if group.contains(role) && (forall|i: int, member: UserId, grantee: UserId| #[trigger]
        hands_on(privileges@, i, member, grantee) && group.contains(member) ==> group.contains(
            grantee,
        )) {
        assert forall|x: UserId| found@.contains(x) implies group.contains(x) by {
            law_only_grants_make_holders(privileges@, role, x, group);
        }
    }
}

/// Roles are free of loops exactly if no grant hands a role to someone whom the role already
/// holds.
pub proof fn law_loop_is_a_grant_to_what_the_role_holds(privileges: Seq<PrivilegeDef>)
    ensures
        loop_free(privileges) <==> forall|i: int, role: UserId, grantee: UserId| #[trigger]
            hands_on(privileges, i, role, grantee) ==> !holds(privileges, grantee, role),
{
    if loop_free(privileges) {
        assert forall|i: int, role: UserId, grantee: UserId| #[trigger]
            hands_on(privileges, i, role, grantee) implies !holds(privileges, grantee, role) by {
            assert(is_role_grant(privileges[i]));
            assert(is_granted(privileges, role, grantee));
        }
    }
    if forall|i: int, role: UserId, grantee: UserId| #[trigger]
        hands_on(privileges, i, role, grantee) ==> !holds(privileges, grantee, role) {
        assert forall|role: UserId, grantee: UserId| #[trigger]
            is_granted(privileges, role, grantee) implies !holds(privileges, grantee, role) by {
            let i: int = choose|i: int|
                0 <= i < privileges.len() && is_role_grant(#[trigger] privileges[i])
                    && privileges[i].object_id == Some(role) && privileges[i].grantee_id == grantee;
            assert(hands_on(privileges, i, role, grantee));
        }
    }
}

} // verus!
