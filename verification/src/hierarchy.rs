//! Which of two members ranks higher in a guild.

use vstd::prelude::*;

use crate::access::role_with_id;
use crate::access::find_role;
use crate::error::ModelError;
use crate::guild::Guild;
use crate::id::{RoleId, UserId};
use crate::model::{Member, Role};
use crate::seq_lib::{first_match, lemma_first_match_at, lemma_first_match_none, lemma_first_match_some};

verus! {

/// The member of `members` with the user id `uid`, if any.
pub open spec fn member_with_id(members: Seq<Member>, uid: UserId) -> Option<Member> {
    first_match(members, |m: Member| m.user.id == uid)
}

/// The id and position of the highest of the roles `ids` that exist in `roles`: the one
/// with the greatest position, and of those the one with the lowest id.
pub open spec fn highest_role(ids: Seq<RoleId>, roles: Seq<Role>) -> Option<(RoleId, i64)>
    decreases ids.len(),
{
    if ids.len() == 0 {
        None
    } else {
        let prev = highest_role(ids.drop_last(), roles);
        match role_with_id(roles, ids.last()) {
            None => prev,
            Some(role) => match prev {
                Some((id, pos)) => if role.position < pos || (role.position == pos && role.id.0
                    > id.0) {
                    prev
                } else {
                    Some((role.id, role.position))
                },
                None => Some((role.id, role.position)),
            },
        }
    }
}

/// The rank of a member: its highest role, or role 0 at position 0 without one.
pub open spec fn rank(member: Member, roles: Seq<Role>) -> (RoleId, i64) {
    match highest_role(member.roles@, roles) {
        Some(info) => info,
        None => (RoleId(0), 0),
    }
}

/// Which of `lhs_id` and `rhs_id` ranks higher in a guild with the owner `owner_id`,
/// the members `members` and the roles `roles`.
///
/// No one, for the same user twice. The owner outranks everyone. Otherwise both users
/// must be members; no one wins when both have no positioned role or share their highest
/// role; the higher position wins; at equal positions the lower role id wins.
pub open spec fn hierarchy_winner(
    owner_id: UserId,
    members: Seq<Member>,
    roles: Seq<Role>,
    lhs_id: UserId,
    rhs_id: UserId,
) -> Option<UserId> {
    if lhs_id == rhs_id {
        None
    } else if lhs_id == owner_id {
        Some(lhs_id)
    } else if rhs_id == owner_id {
        Some(rhs_id)
    } else {
        match (member_with_id(members, lhs_id), member_with_id(members, rhs_id)) {
            (Some(l), Some(r)) => {
                let lhs = rank(l, roles);
                let rhs = rank(r, roles);
                if (lhs.1 == 0 && rhs.1 == 0) || lhs.0 == rhs.0 {
                    None
                } else if lhs.1 > rhs.1 {
                    Some(lhs_id)
                } else if rhs.1 > lhs.1 {
                    Some(rhs_id)
                } else if lhs.0.0 < rhs.0.0 {
                    Some(lhs_id)
                } else {
                    Some(rhs_id)
                }
            },
            _ => None,
        }
    }
}

/// The first member of `members` with the user id `uid`.
pub fn find_member<'a>(members: &'a Vec<Member>, uid: UserId) -> (r: Option<&'a Member>)
    ensures
        match r {
            Some(m) => member_with_id(members@, uid) == Some(*m),
            None => member_with_id(members@, uid).is_none(),
        },
{
    let mut i: usize = 0;
    while i < members.len()
        invariant
            i <= members@.len(),
            forall|j: int| 0 <= j < i ==> !((|m: Member| m.user.id == uid)(#[trigger] members@[j])),
        decreases members.len() - i,
    {
        if members[i].user.id == uid {
            proof {
                lemma_first_match_at(members@, |m: Member| m.user.id == uid, i as int);
            }
            return Some(&members[i]);
        }
        i += 1;
    }
    proof {
        lemma_first_match_none(members@, |m: Member| m.user.id == uid);
    }
    None
}

impl Member {
    /// The id and position of the member's highest role among the guild roles `roles`:
    /// the greatest position, and at equal positions the lowest id; `None` when none of
    /// the member's roles exists.
    pub fn highest_role_info(&self, roles: &Vec<Role>) -> (r: Option<(RoleId, i64)>)
        ensures
            r == highest_role(self.roles@, roles@),
    {
        let mut highest: Option<(RoleId, i64)> = None;
        let mut i: usize = 0;
        while i < self.roles.len()
            invariant
                i <= self.roles@.len(),
                highest == highest_role(self.roles@.take(i as int), roles@),
            decreases self.roles.len() - i,
        {
            let rid = self.roles[i];
            proof {
                assert(self.roles@.take(i + 1).drop_last() =~= self.roles@.take(i as int));
                assert(self.roles@.take(i + 1).last() == rid);
            }
            if let Some(role) = find_role(roles, rid) {
                let skip = match highest {
                    Some((id, pos)) => role.position < pos || (role.position == pos && role.id.0
                        > id.0),
                    None => false,
                };
                if !skip {
                    highest = Some((role.id, role.position));
                }
            }
            i += 1;
        }
        proof {
            assert(self.roles@.take(self.roles@.len() as int) =~= self.roles@);
        }
        highest
    }
}

impl Guild {
    /// Returns which of two users has a higher member hierarchy.
    ///
    /// Hierarchy is essentially who has the role with the highest position. Returns
    /// `None` if at least one of the given users' members is not present, if the users
    /// have the same hierarchy, or if both ids are the same. If one of the users is the
    /// guild owner, their id is returned.
    pub fn greater_member_hierarchy(&self, lhs_id: UserId, rhs_id: UserId) -> (r: Option<UserId>)
        ensures
            r == hierarchy_winner(self.owner_id, self.members@, self.roles@, lhs_id, rhs_id),
    {
        self._greater_member_hierarchy(lhs_id, rhs_id)
    }

    fn _greater_member_hierarchy(&self, lhs_id: UserId, rhs_id: UserId) -> (r: Option<UserId>)
        ensures
            r == hierarchy_winner(self.owner_id, self.members@, self.roles@, lhs_id, rhs_id),
    {
        if lhs_id == rhs_id {
            return None;
        }
        if lhs_id == self.owner_id {
            return Some(lhs_id);
        } else if rhs_id == self.owner_id {
            return Some(rhs_id);
        }
        let lhs_member = match find_member(&self.members, lhs_id) {
            Some(m) => m,
            None => {
                return None;
            },
        };
        let lhs = match lhs_member.highest_role_info(&self.roles) {
            Some(info) => info,
            None => (RoleId(0), 0),
        };
        let rhs_member = match find_member(&self.members, rhs_id) {
            Some(m) => m,
            None => {
                return None;
            },
        };
        let rhs = match rhs_member.highest_role_info(&self.roles) {
            Some(info) => info,
            None => (RoleId(0), 0),
        };
        if (lhs.1 == 0 && rhs.1 == 0) || (lhs.0 == rhs.0) {
            return None;
        }
        if lhs.1 > rhs.1 {
            return Some(lhs_id);
        }
        if rhs.1 > lhs.1 {
            return Some(rhs_id);
        }
        if lhs.1 == rhs.1 && lhs.0.0 < rhs.0.0 {
            Some(lhs_id)
        } else {
            Some(rhs_id)
        }
    }

    /// Fails with [`ModelError::Hierarchy`] when `other_user` outranks the current user
    /// `current_id`.
    pub fn check_hierarchy(&self, current_id: UserId, other_user: UserId) -> (r: Result<
        (),
        ModelError,
    >)
        ensures
            r is Err <==> (match hierarchy_winner(
                self.owner_id,
                self.members@,
                self.roles@,
                other_user,
                current_id,
            ) {
                Some(higher) => higher != current_id,
                None => false,
            }),
            r matches Err(e) ==> e == ModelError::Hierarchy,
    {
        if let Some(higher) = self.greater_member_hierarchy(other_user, current_id) {
            if higher != current_id {
                return Err(ModelError::Hierarchy);
            }
        }
        Ok(())
    }
}

/// The hierarchy does not depend on the order the two users are asked in.
pub proof fn lemma_hierarchy_symmetric(
    owner_id: UserId,
    members: Seq<Member>,
    roles: Seq<Role>,
    a: UserId,
    b: UserId,
)
    ensures
        hierarchy_winner(owner_id, members, roles, a, b) == hierarchy_winner(
            owner_id,
            members,
            roles,
            b,
            a,
        ),
{
}

/// The winner of a hierarchy is one of the two users asked about, and a user never
/// outranks themselves.
pub proof fn lemma_hierarchy_winner_is_asked(
    owner_id: UserId,
    members: Seq<Member>,
    roles: Seq<Role>,
    a: UserId,
    b: UserId,
)
    ensures
        hierarchy_winner(owner_id, members, roles, a, b) matches Some(w) ==> (w == a || w == b),
        hierarchy_winner(owner_id, members, roles, a, a).is_none(),
        a != b && (a == owner_id || b == owner_id) ==> hierarchy_winner(
            owner_id,
            members,
            roles,
            a,
            b,
        ) == Some(owner_id),
{
}

/// The highest role of a member is one of the member's roles, no other of them has a
/// greater position, and of those with the same position none has a lower id; there is
/// none only when none of the member's roles exists.
pub proof fn lemma_highest_role_is_highest(ids: Seq<RoleId>, roles: Seq<Role>)
    ensures
        highest_role(ids, roles) matches Some((id, pos)) ==> exists|i: int|
            0 <= i < ids.len() && (role_with_id(roles, #[trigger] ids[i]) matches Some(r) && r.id
                == id && r.position == pos),
        highest_role(ids, roles) matches Some((id, pos)) ==> forall|i: int|
            0 <= i < ids.len() ==> (role_with_id(roles, #[trigger] ids[i]) matches Some(r) ==> (
            r.position < pos || (r.position == pos && r.id.0 >= id.0))),
        highest_role(ids, roles).is_none() <==> forall|i: int|
            0 <= i < ids.len() ==> role_with_id(roles, #[trigger] ids[i]).is_none(),
    decreases ids.len(),
{
    if ids.len() > 0 {
        let rest = ids.drop_last();
        lemma_highest_role_is_highest(rest, roles);
        assert forall|i: int| 0 <= i < rest.len() implies rest[i] == ids[i] by {}
        assert(ids[ids.len() - 1] == ids.last());
        let h = highest_role(ids, roles);
        if let Some((id, pos)) = h {
            if h == highest_role(rest, roles) {
                let i = choose|i: int|
                    0 <= i < rest.len() && (role_with_id(roles, #[trigger] rest[i]) matches Some(r)
                        && r.id == id && r.position == pos);
                assert(role_with_id(roles, ids[i]) == role_with_id(roles, rest[i]));
            }
            assert forall|i: int| 0 <= i < ids.len() implies (role_with_id(
                roles,
                #[trigger] ids[i],
            ) matches Some(r) ==> (r.position < pos || (r.position == pos && r.id.0 >= id.0))) by {
                if i < ids.len() - 1 {
                    assert(role_with_id(roles, ids[i]) == role_with_id(roles, rest[i]));
                }
            }
        }
    }
}

/// In a guild whose ids are unique, looking a member up by its user id, or a role by its
/// id, finds exactly that member or role.
pub proof fn lemma_lookup_by_id_finds_the_entry(guild: Guild, i: int, j: int)
    requires
        guild.keys_unique(),
    ensures
        0 <= i < guild.members@.len() ==> member_with_id(
            guild.members@,
            guild.members@[i].user.id,
        ) == Some(guild.members@[i]),
        0 <= j < guild.roles@.len() ==> role_with_id(guild.roles@, guild.roles@[j].id) == Some(
            guild.roles@[j],
        ),
{
    let members = guild.members@;
    let roles = guild.roles@;
    if 0 <= i < members.len() {
        let uid = members[i].user.id;
        assert forall|k: int| 0 <= k < i implies !((|m: Member| m.user.id == uid)(
            #[trigger] members[k],
        )) by {
            assert(members[k].user.id != members[i].user.id);
        }
        lemma_first_match_at(members, |m: Member| m.user.id == uid, i);
    }
    if 0 <= j < roles.len() {
        let rid = roles[j].id;
        assert forall|k: int| 0 <= k < j implies !((|r: Role| r.id == rid)(#[trigger] roles[k])) by {
            assert(roles[k].id != roles[j].id);
        }
        lemma_first_match_at(roles, |r: Role| r.id == rid, j);
    }
}

/// Between two members who are not the owner, the one holding a role positioned above
/// every role of the other wins, whichever way round they are asked, whatever else their
/// role lists hold and in whatever order.
pub proof fn lemma_higher_role_wins(
    owner_id: UserId,
    members: Seq<Member>,
    roles: Seq<Role>,
    a: UserId,
    b: UserId,
    ma: Member,
    mb: Member,
    i: int,
    top: Role,
    k: int,
)
    requires
        a != b,
        a != owner_id,
        b != owner_id,
        member_with_id(members, a) == Some(ma),
        member_with_id(members, b) == Some(mb),
        0 <= i < ma.roles@.len(),
        role_with_id(roles, ma.roles@[i]) == Some(top),
        0 <= k < mb.roles@.len(),
        role_with_id(roles, mb.roles@[k]).is_some(),
        forall|j: int|
            0 <= j < mb.roles@.len() ==> (role_with_id(roles, #[trigger] mb.roles@[j]) matches Some(
                s,
            ) ==> s.position < top.position),
    ensures
        hierarchy_winner(owner_id, members, roles, a, b) == Some(a),
        hierarchy_winner(owner_id, members, roles, b, a) == Some(a),
{
    lemma_highest_role_is_highest(ma.roles@, roles);
    lemma_highest_role_is_highest(mb.roles@, roles);
    assert(role_with_id(roles, ma.roles@[i]).is_some());
    let (ida, pa) = highest_role(ma.roles@, roles).unwrap();
    assert(role_with_id(roles, mb.roles@[k]).is_some());
    let (idb, pb) = highest_role(mb.roles@, roles).unwrap();
    assert(pa >= top.position);
    let x = choose|x: int|
        0 <= x < ma.roles@.len() && (role_with_id(roles, #[trigger] ma.roles@[x]) matches Some(r)
            && r.id == ida && r.position == pa);
    let y = choose|y: int|
        0 <= y < mb.roles@.len() && (role_with_id(roles, #[trigger] mb.roles@[y]) matches Some(r)
            && r.id == idb && r.position == pb);
    assert(pb < top.position);
    let ra = role_with_id(roles, ma.roles@[x]).unwrap();
    let rb = role_with_id(roles, mb.roles@[y]).unwrap();
    lemma_first_match_some(roles, |r: Role| r.id == ma.roles@[x]);
    lemma_first_match_some(roles, |r: Role| r.id == mb.roles@[y]);
    assert(ida != idb);
    assert(rank(ma, roles) == (ida, pa));
    assert(rank(mb, roles) == (idb, pb));
}

} // verus!
