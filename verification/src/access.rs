//! Which permissions a member or a role has, in the guild and in a channel.

use vstd::prelude::*;

use crate::error::{Error, ModelError};
use crate::guild::Guild;
use crate::id::{GuildId, RoleId, UserId};
use crate::model::{ChannelType, GuildChannel, Member, PermissionOverwrite, PermissionOverwriteType, Role};
use crate::permissions::{
    bits_complement, bits_contain, Permissions, ACTION_PERMISSIONS, ALL_BITS,
    MESSAGING_PERMISSIONS, VOICE_PERMISSIONS,
};
use crate::hierarchy::{find_member, member_with_id};
use crate::seq_lib::{
    first_match, insert_sorted, insertion_sorted, lemma_first_match_at, lemma_first_match_none,
    lemma_insert_sorted_at,
};

verus! {

/// The role of `roles` with the id `id`, if any.
pub open spec fn role_with_id(roles: Seq<Role>, id: RoleId) -> Option<Role> {
    first_match(roles, |r: Role| r.id == id)
}

/// `p` without the voice permissions when the channel is a text channel.
pub open spec fn voice_adjusted(kind: ChannelType, p: u64) -> u64 {
    if kind == ChannelType::Text {
        p & bits_complement(VOICE_PERMISSIONS)
    } else {
        p
    }
}

/// `p` without the messaging permissions when it lacks sending messages, and then
/// without the action permissions when it lacks reading messages.
pub open spec fn usable(p: u64) -> u64 {
    let p1 = if bits_contain(p, Permissions::SEND_MESSAGES) {
        p
    } else {
        p & bits_complement(MESSAGING_PERMISSIONS)
    };
    if bits_contain(p1, Permissions::READ_MESSAGES) {
        p1
    } else {
        p1 & bits_complement(ACTION_PERMISSIONS)
    }
}

/// The flag constants name known permissions.
pub proof fn lemma_flags_known()
    ensures
        Permissions::SEND_MESSAGES & ALL_BITS == Permissions::SEND_MESSAGES,
        Permissions::READ_MESSAGES & ALL_BITS == Permissions::READ_MESSAGES,
        Permissions::ADMINISTRATOR & ALL_BITS == Permissions::ADMINISTRATOR,
        Permissions::BAN_MEMBERS & ALL_BITS == Permissions::BAN_MEMBERS,
        Permissions::MANAGE_GUILD & ALL_BITS == Permissions::MANAGE_GUILD,
        VOICE_PERMISSIONS & ALL_BITS == VOICE_PERMISSIONS,
        MESSAGING_PERMISSIONS & ALL_BITS == MESSAGING_PERMISSIONS,
        ACTION_PERMISSIONS & ALL_BITS == ACTION_PERMISSIONS,
{
    assert(Permissions::SEND_MESSAGES & ALL_BITS == Permissions::SEND_MESSAGES
        && Permissions::READ_MESSAGES & ALL_BITS == Permissions::READ_MESSAGES
        && Permissions::ADMINISTRATOR & ALL_BITS == Permissions::ADMINISTRATOR
        && Permissions::BAN_MEMBERS & ALL_BITS == Permissions::BAN_MEMBERS
        && Permissions::MANAGE_GUILD & ALL_BITS == Permissions::MANAGE_GUILD
        && VOICE_PERMISSIONS & ALL_BITS == VOICE_PERMISSIONS
        && MESSAGING_PERMISSIONS & ALL_BITS == MESSAGING_PERMISSIONS
        && ACTION_PERMISSIONS & ALL_BITS == ACTION_PERMISSIONS) by (bit_vector);
}

/// The first role of `roles` with the id `id`.
pub fn find_role<'a>(roles: &'a Vec<Role>, id: RoleId) -> (r: Option<&'a Role>)
    ensures
        match r {
            Some(role) => role_with_id(roles@, id) == Some(*role),
            None => role_with_id(roles@, id).is_none(),
        },
{
    let mut i: usize = 0;
    while i < roles.len()
        invariant
            i <= roles@.len(),
            forall|j: int| 0 <= j < i ==> !((|r: Role| r.id == id)(#[trigger] roles@[j])),
        decreases roles.len() - i,
    {
        if roles[i].id == id {
            proof {
                lemma_first_match_at(roles@, |r: Role| r.id == id, i as int);
            }
            return Some(&roles[i]);
        }
        i += 1;
    }
    proof {
        lemma_first_match_none(roles@, |r: Role| r.id == id);
    }
    None
}

impl Guild {
    /// Takes away the permissions that are of no use: the messaging ones when sending
    /// messages is not allowed, then the action ones when reading messages is not allowed.
    pub fn remove_unusable_permissions(permissions: &mut Permissions)
        ensures
            final(permissions)@ == usable(old(permissions)@),
    {
        proof {
            lemma_flags_known();
        }
        if !permissions.contains(Permissions::from_flags(Permissions::SEND_MESSAGES)) {
            *permissions = permissions.intersection(
                Permissions::from_flags(MESSAGING_PERMISSIONS).complement(),
            );
        }
        if !permissions.contains(Permissions::from_flags(Permissions::READ_MESSAGES)) {
            *permissions = permissions.intersection(
                Permissions::from_flags(ACTION_PERMISSIONS).complement(),
            );
        }
    }

    /// Takes the voice permissions away when the channel is a text channel.
    pub fn remove_unnecessary_voice_permissions(
        channel: &GuildChannel,
        permissions: Permissions,
    ) -> (r: Permissions)
        ensures
            r@ == voice_adjusted(channel.kind, permissions@),
    {
        proof {
            lemma_flags_known();
        }
        if channel.kind == ChannelType::Text {
            permissions.intersection(Permissions::from_flags(VOICE_PERMISSIONS).complement())
        } else {
            permissions
        }
    }
}

/// The union of `base` with the permissions of the roles `ids`; `None` when one of
/// them is not among `roles`.
pub open spec fn roles_union(base: u64, ids: Seq<RoleId>, roles: Seq<Role>) -> Option<u64>
    decreases ids.len(),
{
    if ids.len() == 0 {
        Some(base)
    } else {
        match roles_union(base, ids.drop_last(), roles) {
            None => None,
            Some(acc) => match role_with_id(roles, ids.last()) {
                None => None,
                Some(r) => Some(acc | r.permissions@),
            },
        }
    }
}

/// `p` with the flags of `deny` taken away, then those of `allow` added.
pub open spec fn apply_overwrite(p: u64, deny: u64, allow: u64) -> u64 {
    (p & bits_complement(deny)) | allow
}

/// The (position, deny, allow) entry that a role overwrite contributes for a member
/// with the roles `member_roles`: overwrites of the `@everyone` role and of the member's
/// roles count, when the role exists.
pub open spec fn role_overwrite_entry(
    ow: PermissionOverwrite,
    member_roles: Seq<RoleId>,
    roles: Seq<Role>,
    guild_id: GuildId,
) -> Option<(i64, Permissions, Permissions)> {
    match ow.kind {
        PermissionOverwriteType::Role(rid) => {
            if rid.0 != guild_id.0 && !member_roles.contains(rid) {
                None
            } else {
                match role_with_id(roles, rid) {
                    Some(r) => Some((r.position, ow.deny, ow.allow)),
                    None => None,
                }
            }
        },
        PermissionOverwriteType::Member(_) => None,
    }
}

/// The entries of the role overwrites that count for a member, in channel order.
pub open spec fn role_overwrite_data(
    ows: Seq<PermissionOverwrite>,
    member_roles: Seq<RoleId>,
    roles: Seq<Role>,
    guild_id: GuildId,
) -> Seq<(i64, Permissions, Permissions)>
    decreases ows.len(),
{
    if ows.len() == 0 {
        Seq::empty()
    } else {
        let rest = role_overwrite_data(ows.drop_last(), member_roles, roles, guild_id);
        match role_overwrite_entry(ows.last(), member_roles, roles, guild_id) {
            Some(e) => rest.push(e),
            None => rest,
        }
    }
}

/// An entry goes before another when its role position is lower.
pub open spec fn lower_position() -> spec_fn(
    (i64, Permissions, Permissions),
    (i64, Permissions, Permissions),
) -> bool {
    |a: (i64, Permissions, Permissions), b: (i64, Permissions, Permissions)| a.0 < b.0
}

/// `p` after the overwrite entries, applied in order.
pub open spec fn apply_entries(p: u64, data: Seq<(i64, Permissions, Permissions)>) -> u64
    decreases data.len(),
{
    if data.len() == 0 {
        p
    } else {
        apply_overwrite(apply_entries(p, data.drop_last()), data.last().1@, data.last().2@)
    }
}

/// `p` after the channel's overwrites for the member `user`, applied in order.
pub open spec fn apply_member_overwrites(p: u64, ows: Seq<PermissionOverwrite>, user: UserId) -> u64
    decreases ows.len(),
{
    if ows.len() == 0 {
        p
    } else {
        let q = apply_member_overwrites(p, ows.drop_last(), user);
        if ows.last().kind == PermissionOverwriteType::Member(user) {
            apply_overwrite(q, ows.last().deny@, ows.last().allow@)
        } else {
            q
        }
    }
}

/// The permissions of `member` in `channel` of the guild `guild_id` with the owner
/// `owner_id` and the roles `roles`.
///
/// The owner, and members whose roles hold the administrator permission, have every
/// permission (without the voice ones in a text channel). Others start from the
/// `@everyone` role joined with their roles; the overwrites of those roles apply from the
/// lowest role position up (equal positions in channel order), then the overwrites for
/// the member; the default channel is always readable; and the unusable permissions
/// go. A missing `@everyone` role or member role is an error.
pub open spec fn channel_permissions(
    channel: GuildChannel,
    member: Member,
    roles: Seq<Role>,
    owner_id: UserId,
    guild_id: GuildId,
) -> Result<u64, ModelError> {
    if member.user.id == owner_id {
        Ok(voice_adjusted(channel.kind, ALL_BITS))
    } else {
        match role_with_id(roles, RoleId(guild_id.0)) {
            None => Err(ModelError::RoleNotFound),
            Some(everyone) => match roles_union(everyone.permissions@, member.roles@, roles) {
                None => Err(ModelError::RoleNotFound),
                Some(base) => if bits_contain(base, Permissions::ADMINISTRATOR) {
                    Ok(voice_adjusted(channel.kind, ALL_BITS))
                } else {
                    let ows = channel.permission_overwrites@;
                    let data = role_overwrite_data(ows, member.roles@, roles, guild_id);
                    let after_roles = apply_entries(base, insertion_sorted(data, lower_position()));
                    let after_member = apply_member_overwrites(after_roles, ows, member.user.id);
                    let readable = if channel.id.0 == guild_id.0 {
                        after_member | Permissions::READ_MESSAGES
                    } else {
                        after_member
                    };
                    Ok(usable(readable))
                },
            },
        }
    }
}

/// A permission result with the set read as its bits.
pub open spec fn result_bits(r: Result<Permissions, ModelError>) -> Result<u64, ModelError> {
    match r {
        Ok(p) => Ok(p@),
        Err(e) => Err(e),
    }
}

/// Whether `ids` holds `id`.
pub fn contains_role_id(ids: &Vec<RoleId>, id: RoleId) -> (r: bool)
    ensures
        r == ids@.contains(id),
{
    let mut i: usize = 0;
    while i < ids.len()
        invariant
            i <= ids@.len(),
            forall|j: int| 0 <= j < i ==> ids@[j] != id,
        decreases ids.len() - i,
    {
        if ids[i] == id {
            return true;
        }
        i += 1;
    }
    false
}

/// Puts `e` into `sorted` after every entry of position not above its own.
fn insert_by_position(
    sorted: &mut Vec<(i64, Permissions, Permissions)>,
    e: (i64, Permissions, Permissions),
)
    ensures
        final(sorted)@ == insert_sorted(old(sorted)@, e, lower_position()),
{
    let mut k = sorted.len();
    while k > 0 && sorted[k - 1].0 > e.0
        invariant
            k <= sorted@.len(),
            sorted@ == old(sorted)@,
            forall|j: int| k <= j < sorted@.len() ==> (lower_position())(e, #[trigger] sorted@[j]),
        decreases k,
    {
        k -= 1;
    }
    proof {
        lemma_insert_sorted_at(sorted@, e, lower_position(), k as int);
    }
    sorted.insert(k, e);
}

impl Guild {
    /// Calculate a member's permissions in a given channel of the guild.
    ///
    /// Fails with [`ModelError::RoleNotFound`] when the `@everyone` role or one of the
    /// member's roles is missing from the guild.
    pub fn user_permissions_in(&self, channel: &GuildChannel, member: &Member) -> (r: Result<
        Permissions,
        ModelError,
    >)
        ensures
            result_bits(r) == channel_permissions(
                *channel,
                *member,
                self.roles@,
                self.owner_id,
                self.id,
            ),
    {
        Self::_user_permissions_in(channel, member, &self.roles, self.owner_id, self.id)
    }

    /// The permissions of `member` in `channel`, for a guild given by its roles, owner
    /// and id.
    pub fn _user_permissions_in(
        channel: &GuildChannel,
        member: &Member,
        roles: &Vec<Role>,
        owner_id: UserId,
        guild_id: GuildId,
    ) -> (r: Result<Permissions, ModelError>)
        ensures
            result_bits(r) == channel_permissions(*channel, *member, roles@, owner_id, guild_id),
    {
        proof {
            lemma_flags_known();
        }
        if member.user.id == owner_id {
            return Ok(Self::remove_unnecessary_voice_permissions(channel, Permissions::all()));
        }
        let everyone = match find_role(roles, RoleId(guild_id.0)) {
            Some(everyone) => everyone,
            None => {
                return Err(ModelError::RoleNotFound);
            },
        };
        let mut permissions = everyone.permissions;
        let mut i: usize = 0;
        while i < member.roles.len()
            invariant
                i <= member.roles@.len(),
                role_with_id(roles@, RoleId(guild_id.0)) == Some(*everyone),
                member.user.id != owner_id,
                roles_union(everyone.permissions@, member.roles@.take(i as int), roles@)
                    == Some(permissions@),
            decreases member.roles.len() - i,
        {
            let rid = member.roles[i];
            proof {
                assert(member.roles@.take(i + 1).drop_last() =~= member.roles@.take(i as int));
                assert(member.roles@.take(i + 1).last() == rid);
            }
            match find_role(roles, rid) {
                Some(role) => {
                    permissions = permissions.union(role.permissions);
                },
                None => {
                    proof {
                        assert(roles_union(
                            everyone.permissions@,
                            member.roles@.take(i + 1),
                            roles@,
                        ).is_none());
                        lemma_roles_union_none_grows(
                            everyone.permissions@,
                            member.roles@,
                            roles@,
                            i as int + 1,
                        );
                    }
                    return Err(ModelError::RoleNotFound);
                },
            }
            i += 1;
        }
        proof {
            assert(member.roles@.take(member.roles@.len() as int) =~= member.roles@);
        }
        if permissions.contains(Permissions::from_flags(Permissions::ADMINISTRATOR)) {
            return Ok(Self::remove_unnecessary_voice_permissions(channel, Permissions::all()));
        }
        let ows = &channel.permission_overwrites;
        let mut sorted: Vec<(i64, Permissions, Permissions)> = Vec::new();
        let mut i: usize = 0;
        while i < ows.len()
            invariant
                i <= ows@.len(),
                sorted@ == insertion_sorted(
                    role_overwrite_data(ows@.take(i as int), member.roles@, roles@, guild_id),
                    lower_position(),
                ),
            decreases ows.len() - i,
        {
            let ow = ows[i];
            proof {
                assert(ows@.take(i + 1).drop_last() =~= ows@.take(i as int));
                assert(ows@.take(i + 1).last() == ow);
                assert(role_overwrite_data(ows@.take(i + 1), member.roles@, roles@, guild_id)
                    == match role_overwrite_entry(ow, member.roles@, roles@, guild_id) {
                    Some(e) => role_overwrite_data(
                        ows@.take(i as int),
                        member.roles@,
                        roles@,
                        guild_id,
                    ).push(e),
                    None => role_overwrite_data(
                        ows@.take(i as int),
                        member.roles@,
                        roles@,
                        guild_id,
                    ),
                });
            }
            if let PermissionOverwriteType::Role(rid) = ow.kind {
                if rid.0 != guild_id.0 && !contains_role_id(&member.roles, rid) {
                } else {
                    if let Some(role) = find_role(roles, rid) {
                        let e = (role.position, ow.deny, ow.allow);
                        proof {
                            assert(role_overwrite_data(
                                ows@.take(i + 1),
                                member.roles@,
                                roles@,
                                guild_id,
                            ).drop_last() =~= role_overwrite_data(
                                ows@.take(i as int),
                                member.roles@,
                                roles@,
                                guild_id,
                            ));
                        }
                        insert_by_position(&mut sorted, e);
                    }
                }
            }
            i += 1;
        }
        proof {
            assert(ows@.take(ows@.len() as int) =~= ows@);
        }
        let ghost base = permissions@;
        let mut j: usize = 0;
        while j < sorted.len()
            invariant
                j <= sorted@.len(),
                permissions@ == apply_entries(base, sorted@.take(j as int)),
            decreases sorted.len() - j,
        {
            let e = sorted[j];
            proof {
                assert(sorted@.take(j + 1).drop_last() =~= sorted@.take(j as int));
            }
            permissions = permissions.intersection(e.1.complement()).union(e.2);
            j += 1;
        }
        proof {
            assert(sorted@.take(sorted@.len() as int) =~= sorted@);
        }
        let ghost after_roles = permissions@;
        let mut i: usize = 0;
        while i < ows.len()
            invariant
                i <= ows@.len(),
                permissions@ == apply_member_overwrites(
                    after_roles,
                    ows@.take(i as int),
                    member.user.id,
                ),
            decreases ows.len() - i,
        {
            let ow = ows[i];
            proof {
                assert(ows@.take(i + 1).drop_last() =~= ows@.take(i as int));
            }
            if ow.kind == PermissionOverwriteType::Member(member.user.id) {
                permissions = permissions.intersection(ow.deny.complement()).union(ow.allow);
            }
            i += 1;
        }
        if channel.id.0 == guild_id.0 {
            permissions.insert(Permissions::from_flags(Permissions::READ_MESSAGES));
        }
        Self::remove_unusable_permissions(&mut permissions);
        Ok(permissions)
    }
}

/// Joining flags does not depend on grouping.
pub proof fn lemma_or_assoc(a: u64, b: u64, c: u64)
    ensures
        (a | b) | c == a | (b | c),
{
    assert((a | b) | c == a | (b | c)) by (bit_vector);
}

/// Joining no flags changes nothing.
pub proof fn lemma_or_zero(a: u64)
    ensures
        a | 0 == a,
{
    assert(a | 0 == a) by (bit_vector);
}

/// Once a role is missing, the union stays undefined as more roles are taken.
proof fn lemma_roles_union_none_grows(base: u64, ids: Seq<RoleId>, roles: Seq<Role>, n: int)
    requires
        0 <= n <= ids.len(),
        roles_union(base, ids.take(n), roles).is_none(),
    ensures
        roles_union(base, ids, roles).is_none(),
    decreases ids.len() - n,
{
    if n < ids.len() {
        assert(ids.take(n + 1).drop_last() =~= ids.take(n));
        lemma_roles_union_none_grows(base, ids, roles, n + 1);
    } else {
        assert(ids.take(n) =~= ids);
    }
}

/// The first overwrite of `ows` for the role `rid`, if any.
pub open spec fn role_overwrite_for(ows: Seq<PermissionOverwrite>, rid: RoleId) -> Option<
    PermissionOverwrite,
> {
    first_match(ows, |o: PermissionOverwrite| o.kind == PermissionOverwriteType::Role(rid))
}

/// The permissions of `role` in `channel` of the guild `guild_id`: an error when the
/// role or the channel belongs to another guild; every permission (without the voice
/// ones in a text channel) for an administrator role; else the role's permissions with
/// the channel's first overwrite for the role applied, without the unusable ones.
pub open spec fn role_channel_permissions(
    channel: GuildChannel,
    role: Role,
    guild_id: GuildId,
) -> Result<u64, ModelError> {
    if role.guild_id != guild_id || channel.guild_id != guild_id {
        Err(ModelError::WrongGuild)
    } else if bits_contain(role.permissions@, Permissions::ADMINISTRATOR) {
        Ok(voice_adjusted(channel.kind, ALL_BITS))
    } else {
        let p = match role_overwrite_for(channel.permission_overwrites@, role.id) {
            Some(o) => apply_overwrite(role.permissions@, o.deny@, o.allow@),
            None => role.permissions@,
        };
        Ok(usable(p))
    }
}

/// The union of the permissions of those roles `ids` that are among `roles`.
pub open spec fn found_roles_union(ids: Seq<RoleId>, roles: Seq<Role>) -> u64
    decreases ids.len(),
{
    if ids.len() == 0 {
        0
    } else {
        let acc = found_roles_union(ids.drop_last(), roles);
        match role_with_id(roles, ids.last()) {
            Some(r) => acc | r.permissions@,
            None => acc,
        }
    }
}

/// One of the roles `ids` is among `roles` and holds the administrator permission.
pub open spec fn has_admin_role(ids: Seq<RoleId>, roles: Seq<Role>) -> bool {
    exists|i: int|
        0 <= i < ids.len() && (match role_with_id(roles, #[trigger] ids[i]) {
            Some(r) => bits_contain(r.permissions@, Permissions::ADMINISTRATOR),
            None => false,
        })
}

/// The guild-wide permissions of `member`: every permission for the owner and for a
/// member with an administrator role; otherwise the `@everyone` role's permissions
/// joined with those of the member's roles that exist; none without an `@everyone` role.
pub open spec fn guild_permissions(
    member: Member,
    roles: Seq<Role>,
    owner_id: UserId,
    guild_id: GuildId,
) -> u64 {
    if member.user.id == owner_id {
        ALL_BITS
    } else {
        match role_with_id(roles, RoleId(guild_id.0)) {
            None => 0,
            Some(everyone) => if has_admin_role(member.roles@, roles) {
                ALL_BITS
            } else {
                everyone.permissions@ | found_roles_union(member.roles@, roles)
            },
        }
    }
}

/// The first overwrite of `ows` for the role `rid`.
fn find_role_overwrite(ows: &Vec<PermissionOverwrite>, rid: RoleId) -> (r: Option<
    PermissionOverwrite,
>)
    ensures
        r == role_overwrite_for(ows@, rid),
{
    let mut i: usize = 0;
    while i < ows.len()
        invariant
            i <= ows@.len(),
            forall|j: int|
                0 <= j < i ==> !((|o: PermissionOverwrite|
                    o.kind == PermissionOverwriteType::Role(rid))(#[trigger] ows@[j])),
        decreases ows.len() - i,
    {
        if ows[i].kind == PermissionOverwriteType::Role(rid) {
            proof {
                lemma_first_match_at(
                    ows@,
                    |o: PermissionOverwrite| o.kind == PermissionOverwriteType::Role(rid),
                    i as int,
                );
            }
            return Some(ows[i]);
        }
        i += 1;
    }
    proof {
        lemma_first_match_none(
            ows@,
            |o: PermissionOverwrite| o.kind == PermissionOverwriteType::Role(rid),
        );
    }
    None
}

impl Guild {
    /// Calculate a role's permissions in a given channel of the guild.
    ///
    /// Fails with [`ModelError::WrongGuild`] when the role or the channel is not from
    /// this guild.
    pub fn role_permissions_in(&self, channel: &GuildChannel, role: &Role) -> (r: Result<
        Permissions,
        ModelError,
    >)
        ensures
            result_bits(r) == role_channel_permissions(*channel, *role, self.id),
    {
        Self::_role_permissions_in(channel, role, self.id)
    }

    /// The permissions of `role` in `channel`, for the guild `guild_id`.
    pub fn _role_permissions_in(channel: &GuildChannel, role: &Role, guild_id: GuildId) -> (r:
        Result<Permissions, ModelError>)
        ensures
            result_bits(r) == role_channel_permissions(*channel, *role, guild_id),
    {
        proof {
            lemma_flags_known();
        }
        if role.guild_id != guild_id || channel.guild_id != guild_id {
            return Err(ModelError::WrongGuild);
        }
        let mut permissions = role.permissions;
        if permissions.contains(Permissions::from_flags(Permissions::ADMINISTRATOR)) {
            return Ok(Self::remove_unnecessary_voice_permissions(channel, Permissions::all()));
        }
        if let Some(overwrite) = find_role_overwrite(&channel.permission_overwrites, role.id) {
            permissions = permissions.intersection(overwrite.deny.complement()).union(
                overwrite.allow,
            );
        }
        Self::remove_unusable_permissions(&mut permissions);
        Ok(permissions)
    }

    /// The guild-wide permissions of a member of this guild.
    pub fn _member_permission_from_member(&self, member: &Member) -> (r: Permissions)
        ensures
            r@ == guild_permissions(*member, self.roles@, self.owner_id, self.id),
    {
        proof {
            lemma_flags_known();
        }
        if member.user.id == self.owner_id {
            return Permissions::all();
        }
        let everyone = match find_role(&self.roles, RoleId(self.id.0)) {
            Some(everyone) => everyone,
            None => {
                return Permissions::empty();
            },
        };
        let mut permissions = everyone.permissions;
        proof {
            lemma_or_zero(permissions@);
        }
        let mut i: usize = 0;
        while i < member.roles.len()
            invariant
                i <= member.roles@.len(),
                role_with_id(self.roles@, RoleId(self.id.0)) == Some(*everyone),
                member.user.id != self.owner_id,
                permissions@ == everyone.permissions@ | found_roles_union(
                    member.roles@.take(i as int),
                    self.roles@,
                ),
                forall|j: int|
                    0 <= j < i ==> match role_with_id(self.roles@, #[trigger] member.roles@[j]) {
                        Some(r) => !bits_contain(r.permissions@, Permissions::ADMINISTRATOR),
                        None => true,
                    },
            decreases member.roles.len() - i,
        {
            let rid = member.roles[i];
            proof {
                assert(member.roles@.take(i + 1).drop_last() =~= member.roles@.take(i as int));
                assert(member.roles@.take(i + 1).last() == rid);
            }
            proof {
                lemma_flags_known();
            }
            if let Some(role) = find_role(&self.roles, rid) {
                if role.permissions.contains(Permissions::from_flags(Permissions::ADMINISTRATOR)) {
                    proof {
                        assert(has_admin_role(member.roles@, self.roles@));
                    }
                    return Permissions::all();
                }
                proof {
                    lemma_or_assoc(
                        everyone.permissions@,
                        found_roles_union(member.roles@.take(i as int), self.roles@),
                        role.permissions@,
                    );
                }
                permissions = permissions.union(role.permissions);
            }
            i += 1;
        }
        proof {
            assert(member.roles@.take(member.roles@.len() as int) =~= member.roles@);
        }
        permissions
    }
}

/// The first of `channels` in which `member` may read messages. The search stops with
/// `None` at the first channel whose permissions cannot be computed.
pub open spec fn first_readable(
    channels: Seq<GuildChannel>,
    member: Member,
    roles: Seq<Role>,
    owner_id: UserId,
    guild_id: GuildId,
) -> Option<GuildChannel>
    decreases channels.len(),
{
    if channels.len() == 0 {
        None
    } else {
        match channel_permissions(channels[0], member, roles, owner_id, guild_id) {
            Err(_) => None,
            Ok(p) => if bits_contain(p, Permissions::READ_MESSAGES) {
                Some(channels[0])
            } else {
                first_readable(channels.drop_first(), member, roles, owner_id, guild_id)
            },
        }
    }
}

/// Whether every one of `members` may read messages in `channel`; `None` when the check
/// hits a member whose permissions cannot be computed first.
pub open spec fn all_members_read(
    channel: GuildChannel,
    members: Seq<Member>,
    roles: Seq<Role>,
    owner_id: UserId,
    guild_id: GuildId,
) -> Option<bool>
    decreases members.len(),
{
    if members.len() == 0 {
        Some(true)
    } else {
        match channel_permissions(channel, members[0], roles, owner_id, guild_id) {
            Err(_) => None,
            Ok(p) => if bits_contain(p, Permissions::READ_MESSAGES) {
                all_members_read(channel, members.drop_first(), roles, owner_id, guild_id)
            } else {
                Some(false)
            },
        }
    }
}

/// The first of `channels` that every one of `members` may read; `None` also when the
/// search hits a permission that cannot be computed.
pub open spec fn first_readable_by_all(
    channels: Seq<GuildChannel>,
    members: Seq<Member>,
    roles: Seq<Role>,
    owner_id: UserId,
    guild_id: GuildId,
) -> Option<GuildChannel>
    decreases channels.len(),
{
    if channels.len() == 0 {
        None
    } else {
        match all_members_read(channels[0], members, roles, owner_id, guild_id) {
            None => None,
            Some(true) => Some(channels[0]),
            Some(false) => first_readable_by_all(
                channels.drop_first(),
                members,
                roles,
                owner_id,
                guild_id,
            ),
        }
    }
}

impl Guild {
    /// Returns the "default" channel of the guild for the passed user id: the first
    /// channel that the member can read; `None` if there isn't one or the user is not a
    /// member.
    pub fn default_channel(&self, uid: UserId) -> (r: Option<&GuildChannel>)
        ensures
            match r {
                Some(c) => member_with_id(self.members@, uid) matches Some(m) && first_readable(
                    self.channels@,
                    m,
                    self.roles@,
                    self.owner_id,
                    self.id,
                ) == Some(*c),
                None => match member_with_id(self.members@, uid) {
                    Some(m) => first_readable(
                        self.channels@,
                        m,
                        self.roles@,
                        self.owner_id,
                        self.id,
                    ).is_none(),
                    None => true,
                },
            },
    {
        let member = match find_member(&self.members, uid) {
            Some(m) => m,
            None => {
                return None;
            },
        };
        let ghost want = first_readable(self.channels@, *member, self.roles@, self.owner_id, self.id);
        proof {
            assert(self.channels@.skip(0) =~= self.channels@);
        }
        let mut i: usize = 0;
        while i < self.channels.len()
            invariant
                i <= self.channels@.len(),
                member_with_id(self.members@, uid) == Some(*member),
                want == first_readable(
                    self.channels@,
                    *member,
                    self.roles@,
                    self.owner_id,
                    self.id,
                ),
                want == first_readable(
                    self.channels@.skip(i as int),
                    *member,
                    self.roles@,
                    self.owner_id,
                    self.id,
                ),
            decreases self.channels.len() - i,
        {
            let channel = &self.channels[i];
            proof {
                assert(self.channels@.skip(i as int)[0] == *channel);
                assert(self.channels@.skip(i as int).drop_first() =~= self.channels@.skip(i + 1));
            }
            match self.user_permissions_in(channel, member) {
                Ok(p) => {
                    if p.read_messages() {
                        return Some(channel);
                    }
                },
                Err(_) => {
                    return None;
                },
            }
            i += 1;
        }
        None
    }

    /// Returns the guaranteed "default" channel of the guild: the first channel that
    /// every member can read; `None` if there isn't one.
    pub fn default_channel_guaranteed(&self) -> (r: Option<&GuildChannel>)
        ensures
            match r {
                Some(c) => first_readable_by_all(
                    self.channels@,
                    self.members@,
                    self.roles@,
                    self.owner_id,
                    self.id,
                ) == Some(*c),
                None => first_readable_by_all(
                    self.channels@,
                    self.members@,
                    self.roles@,
                    self.owner_id,
                    self.id,
                ).is_none(),
            },
    {
        let ghost want = first_readable_by_all(
            self.channels@,
            self.members@,
            self.roles@,
            self.owner_id,
            self.id,
        );
        proof {
            assert(self.channels@.skip(0) =~= self.channels@);
            assert(self.members@.skip(0) =~= self.members@);
        }
        let mut i: usize = 0;
        while i < self.channels.len()
            invariant
                i <= self.channels@.len(),
                self.members@.skip(0) == self.members@,
                want == first_readable_by_all(
                    self.channels@,
                    self.members@,
                    self.roles@,
                    self.owner_id,
                    self.id,
                ),
                want == first_readable_by_all(
                    self.channels@.skip(i as int),
                    self.members@,
                    self.roles@,
                    self.owner_id,
                    self.id,
                ),
            decreases self.channels.len() - i,
        {
            let channel = &self.channels[i];
            proof {
                assert(self.channels@.skip(i as int)[0] == *channel);
                assert(self.channels@.skip(i as int).drop_first() =~= self.channels@.skip(i + 1));
            }
            let ghost reads = all_members_read(
                *channel,
                self.members@,
                self.roles@,
                self.owner_id,
                self.id,
            );
            let mut all_read = true;
            let mut j: usize = 0;
            while j < self.members.len()
                invariant_except_break
                    all_read,
                    reads == all_members_read(
                        *channel,
                        self.members@.skip(j as int),
                        self.roles@,
                        self.owner_id,
                        self.id,
                    ),
                invariant
                    j <= self.members@.len(),
                    i < self.channels@.len(),
                    self.channels@.skip(i as int)[0] == *channel,
                    want == first_readable_by_all(
                        self.channels@,
                        self.members@,
                        self.roles@,
                        self.owner_id,
                        self.id,
                    ),
                    want == first_readable_by_all(
                        self.channels@.skip(i as int),
                        self.members@,
                        self.roles@,
                        self.owner_id,
                        self.id,
                    ),
                    reads == all_members_read(
                        *channel,
                        self.members@,
                        self.roles@,
                        self.owner_id,
                        self.id,
                    ),
                ensures
                    all_read ==> reads == Some(true),
                    !all_read ==> reads == Some(false),
                decreases self.members.len() - j,
            {
                let member = &self.members[j];
                proof {
                    assert(self.members@.skip(j as int)[0] == *member);
                    assert(self.members@.skip(j as int).drop_first() =~= self.members@.skip(
                        j + 1,
                    ));
                }
                match self.user_permissions_in(channel, member) {
                    Ok(p) => {
                        if !p.read_messages() {
                            all_read = false;
                            break;
                        }
                    },
                    Err(_) => {
                        proof {
                            assert(reads.is_none());
                            assert(want.is_none());
                        }
                        return None;
                    },
                }
                j += 1;
            }
            if all_read {
                proof {
                    assert(want == Some(*channel));
                }
                return Some(channel);
            }
            i += 1;
        }
        None
    }
}

/// The ban reason may be at most this many bytes long.
pub const MAX_BAN_REASON_BYTES: u32 = 512;

/// At most this many days of messages can be deleted on a ban.
pub const MAX_BAN_DELETE_DAYS: u8 = 7;

/// A looked-up member, read as a value.
pub open spec fn member_value(m: Option<&Member>) -> Option<Member> {
    match m {
        Some(m) => Some(*m),
        None => None,
    }
}

/// The permissions of the user `user_id` in a guild: every one for the owner; for
/// anyone else, those of their member among the guild's `members`, or else of the member
/// `fetched` from elsewhere for them; `None` when there is no member for them.
pub open spec fn user_guild_permissions(
    members: Seq<Member>,
    roles: Seq<Role>,
    owner_id: UserId,
    guild_id: GuildId,
    user_id: UserId,
    fetched: Option<Member>,
) -> Option<u64> {
    if user_id == owner_id {
        Some(ALL_BITS)
    } else {
        match member_with_id(members, user_id) {
            Some(m) => Some(guild_permissions(m, roles, owner_id, guild_id)),
            None => match fetched {
                Some(f) => Some(guild_permissions(f, roles, owner_id, guild_id)),
                None => None,
            },
        }
    }
}

/// The user `user_id` holds every permission of `required` in the guild.
pub open spec fn user_has_permissions(
    members: Seq<Member>,
    roles: Seq<Role>,
    owner_id: UserId,
    guild_id: GuildId,
    user_id: UserId,
    fetched: Option<Member>,
    required: u64,
) -> bool {
    match user_guild_permissions(members, roles, owner_id, guild_id, user_id, fetched) {
        Some(p) => required & !p == 0,
        None => false,
    }
}

/// `other` outranks the user `current` in the guild.
pub open spec fn outranks(guild: Guild, other: UserId, current: UserId) -> bool {
    match crate::hierarchy::hierarchy_winner(
        guild.owner_id,
        guild.members@,
        guild.roles@,
        other,
        current,
    ) {
        Some(higher) => higher != current,
        None => false,
    }
}

/// The current user, when known, may ban `user`: they hold the ban permission and
/// `user` does not outrank them.
pub open spec fn may_ban(
    guild: Guild,
    current_user: Option<UserId>,
    fetched: Option<Member>,
    user: UserId,
) -> bool {
    match current_user {
        Some(uid) => guild.has_permissions_spec(uid, fetched, Permissions::BAN_MEMBERS) && !outranks(
            guild,
            user,
            uid,
        ),
        None => true,
    }
}

impl Guild {
    /// The user `user_id` holds every permission of `required` in this guild.
    pub open spec fn has_permissions_spec(
        &self,
        user_id: UserId,
        fetched: Option<Member>,
        required: u64,
    ) -> bool {
        user_has_permissions(
            self.members@,
            self.roles@,
            self.owner_id,
            self.id,
            user_id,
            fetched,
            required,
        )
    }

    /// Calculate the guild-wide permissions of a user: every one for the owner; for
    /// anyone else, those computed from their member's roles, the member being found
    /// among the guild's members or else `fetched` (the member looked up elsewhere, from
    /// the cache or over HTTP, when the guild does not hold it); `None` when neither
    /// gives a member.
    pub fn member_permissions(&self, user_id: UserId, fetched: Option<&Member>) -> (r: Option<
        Permissions,
    >)
        ensures
            match r {
                Some(p) => user_guild_permissions(
                    self.members@,
                    self.roles@,
                    self.owner_id,
                    self.id,
                    user_id,
                    member_value(fetched),
                ) == Some(p@),
                None => user_guild_permissions(
                    self.members@,
                    self.roles@,
                    self.owner_id,
                    self.id,
                    user_id,
                    member_value(fetched),
                ).is_none(),
            },
    {
        if user_id == self.owner_id {
            return Some(Permissions::all());
        }
        match find_member(&self.members, user_id) {
            Some(member) => Some(self._member_permission_from_member(member)),
            None => match fetched {
                Some(member) => Some(self._member_permission_from_member(member)),
                None => None,
            },
        }
    }

    /// Whether the user holds every permission of `permissions` in the guild; their
    /// member is found as [`Guild::member_permissions`] finds it.
    pub fn has_perms(&self, user_id: UserId, fetched: Option<&Member>, permissions: Permissions) -> (r:
        bool)
        ensures
            r == user_has_permissions(
                self.members@,
                self.roles@,
                self.owner_id,
                self.id,
                user_id,
                member_value(fetched),
                permissions@,
            ),
    {
        match self.member_permissions(user_id, fetched) {
            Some(perms) => {
                let mut missing = permissions;
                missing.remove(perms);
                missing.is_empty()
            },
            None => false,
        }
    }

    /// The check made before an action that needs `required`: when the current user
    /// is known, fails with [`ModelError::InvalidPermissions`] if they lack one of them.
    /// `fetched` is the current user's member, looked up elsewhere when the guild does not
    /// hold it.
    pub fn check_permissions(
        &self,
        current_user: Option<UserId>,
        fetched: Option<&Member>,
        required: Permissions,
    ) -> (r: Result<(), ModelError>)
        ensures
            r == match current_user {
                Some(uid) => if user_has_permissions(
                    self.members@,
                    self.roles@,
                    self.owner_id,
                    self.id,
                    uid,
                    member_value(fetched),
                    required@,
                ) {
                    Ok(())
                } else {
                    Err(ModelError::InvalidPermissions(required))
                },
                None => Ok(()),
            },
    {
        if let Some(uid) = current_user {
            if !self.has_perms(uid, fetched, required) {
                return Err(ModelError::InvalidPermissions(required));
            }
        }
        Ok(())
    }

    /// The checks made before banning `user`, deleting `dmd` days of their messages,
    /// with `reason`: when the current user is known (with `fetched`, their member looked
    /// up elsewhere when the guild does not hold it), they need the ban permission and
    /// must not be outranked by `user`; at most 7 days of messages can be deleted; the
    /// reason may be at most 512 bytes long.
    pub fn check_ban(
        &self,
        current_user: Option<UserId>,
        fetched: Option<&Member>,
        user: UserId,
        dmd: u8,
        reason: &str,
    ) -> (r: Result<(), Error>)
        ensures
            match r {
                Ok(()) => may_ban(*self, current_user, member_value(fetched), user) && dmd <= MAX_BAN_DELETE_DAYS
                    && crate::text::utf8(reason@).len() <= MAX_BAN_REASON_BYTES,
                Err(Error::Model(ModelError::InvalidPermissions(p))) => {
                    &&& current_user matches Some(uid)
                    &&& !self.has_permissions_spec(
                        uid,
                        member_value(fetched),
                        Permissions::BAN_MEMBERS,
                    )
                    &&& p@ == Permissions::BAN_MEMBERS
                },
                Err(Error::Model(ModelError::Hierarchy)) => {
                    &&& current_user matches Some(uid)
                    &&& self.has_permissions_spec(
                        uid,
                        member_value(fetched),
                        Permissions::BAN_MEMBERS,
                    )
                    &&& outranks(*self, user, uid)
                },
                Err(Error::Model(ModelError::DeleteMessageDaysAmount(days))) => may_ban(
                    *self,
                    current_user,
                    member_value(fetched),
                    user,
                ) && dmd > MAX_BAN_DELETE_DAYS && days == dmd,
                Err(Error::ExceededLimit(text, limit)) => {
                    &&& may_ban(*self, current_user, member_value(fetched), user)
                    &&& dmd <= MAX_BAN_DELETE_DAYS
                    &&& crate::text::utf8(reason@).len() > MAX_BAN_REASON_BYTES
                    &&& text@ == reason@
                    &&& limit == MAX_BAN_REASON_BYTES
                },
                Err(_) => false,
            },
    {
        proof {
            lemma_flags_known();
        }
        if let Some(uid) = current_user {
            let req = Permissions::from_flags(Permissions::BAN_MEMBERS);
            if !self.has_perms(uid, fetched, req) {
                return Err(Error::Model(ModelError::InvalidPermissions(req)));
            }
            if let Err(e) = self.check_hierarchy(uid, user) {
                return Err(Error::Model(e));
            }
        }
        if dmd > MAX_BAN_DELETE_DAYS {
            return Err(Error::Model(ModelError::DeleteMessageDaysAmount(dmd)));
        }
        if reason.as_bytes().len() > MAX_BAN_REASON_BYTES as usize {
            return Err(Error::ExceededLimit(reason.to_owned(), MAX_BAN_REASON_BYTES));
        }
        Ok(())
    }

    /// The check made before deleting the guild: when the current user is known, only
    /// the owner may, and anyone else gets [`ModelError::InvalidUser`].
    pub fn check_delete(&self, current_user: Option<UserId>) -> (r: Result<(), ModelError>)
        ensures
            r == match current_user {
                Some(uid) => if uid == self.owner_id {
                    Ok(())
                } else {
                    Err(ModelError::InvalidUser)
                },
                None => Ok(()),
            },
    {
        if let Some(uid) = current_user {
            if self.owner_id != uid {
                return Err(ModelError::InvalidUser);
            }
        }
        Ok(())
    }
}

/// An action on a guild that the current user needs a permission for.
#[derive(Clone, Copy, Debug, PartialEq, Eq, Structural)]
pub enum GuildAction {
    /// Listing the guild's bans.
    Bans,
    /// Lifting a ban.
    Unban,
    /// Creating a channel.
    CreateChannel,
    /// Creating a role.
    CreateRole,
    /// Editing the guild.
    Edit,
    /// Changing the current user's nickname.
    EditNickname,
    /// Listing the guild's invites.
    Invites,
    /// Counting the members a prune would remove.
    PruneCount,
    /// Pruning members.
    StartPrune,
}

/// The permission an action needs.
pub open spec fn action_permission(action: GuildAction) -> u64 {
    match action {
        GuildAction::Bans => Permissions::BAN_MEMBERS,
        GuildAction::Unban => Permissions::BAN_MEMBERS,
        GuildAction::CreateChannel => Permissions::MANAGE_CHANNELS,
        GuildAction::CreateRole => Permissions::MANAGE_ROLES,
        GuildAction::Edit => Permissions::MANAGE_GUILD,
        GuildAction::EditNickname => Permissions::CHANGE_NICKNAME,
        GuildAction::Invites => Permissions::MANAGE_GUILD,
        GuildAction::PruneCount => Permissions::KICK_MEMBERS,
        GuildAction::StartPrune => Permissions::KICK_MEMBERS,
    }
}

impl GuildAction {
    /// The permission the action needs.
    pub fn required(&self) -> (r: Permissions)
        ensures
            r@ == action_permission(*self),
    {
        assert(Permissions::BAN_MEMBERS & ALL_BITS == Permissions::BAN_MEMBERS
            && Permissions::MANAGE_CHANNELS & ALL_BITS == Permissions::MANAGE_CHANNELS
            && Permissions::MANAGE_ROLES & ALL_BITS == Permissions::MANAGE_ROLES
            && Permissions::MANAGE_GUILD & ALL_BITS == Permissions::MANAGE_GUILD
            && Permissions::CHANGE_NICKNAME & ALL_BITS == Permissions::CHANGE_NICKNAME
            && Permissions::KICK_MEMBERS & ALL_BITS == Permissions::KICK_MEMBERS) by (bit_vector);
        let bits = match self {
            GuildAction::Bans => Permissions::BAN_MEMBERS,
            GuildAction::Unban => Permissions::BAN_MEMBERS,
            GuildAction::CreateChannel => Permissions::MANAGE_CHANNELS,
            GuildAction::CreateRole => Permissions::MANAGE_ROLES,
            GuildAction::Edit => Permissions::MANAGE_GUILD,
            GuildAction::EditNickname => Permissions::CHANGE_NICKNAME,
            GuildAction::Invites => Permissions::MANAGE_GUILD,
            GuildAction::PruneCount => Permissions::KICK_MEMBERS,
            GuildAction::StartPrune => Permissions::KICK_MEMBERS,
        };
        Permissions::from_flags(bits)
    }
}

impl Guild {
    /// The check made before `action`: when the current user is known, fails with
    /// [`ModelError::InvalidPermissions`] for the permission the action needs if they lack
    /// it. `fetched` is the current user's member, looked up elsewhere when the guild does
    /// not hold it.
    pub fn check_action(
        &self,
        action: GuildAction,
        current_user: Option<UserId>,
        fetched: Option<&Member>,
    ) -> (r: Result<(), ModelError>)
        ensures
            r is Ok <==> (current_user matches Some(uid) ==> user_has_permissions(
                self.members@,
                self.roles@,
                self.owner_id,
                self.id,
                uid,
                member_value(fetched),
                action_permission(action),
            )),
            r matches Err(e) ==> (e matches ModelError::InvalidPermissions(p) && p@
                == action_permission(action)),
    {
        self.check_permissions(current_user, fetched, action.required())
    }
}

/// Bit facts behind the laws below, on plain flag words.
proof fn lemma_usable_bits(p: u64)
    ensures
        usable(p) & !p == 0,
        usable(usable(p)) == usable(p),
        !bits_contain(usable(p), Permissions::SEND_MESSAGES) ==> usable(p) & MESSAGING_PERMISSIONS
            == 0,
        !bits_contain(usable(p), Permissions::READ_MESSAGES) ==> usable(p) & ACTION_PERMISSIONS
            == 0,
        bits_contain(usable(p | Permissions::READ_MESSAGES), Permissions::READ_MESSAGES),
{
    let q = usable(p);
    let p1 = if p & Permissions::SEND_MESSAGES == Permissions::SEND_MESSAGES {
        p
    } else {
        p & (!MESSAGING_PERMISSIONS & ALL_BITS)
    };
    assert(q == if p1 & Permissions::READ_MESSAGES == Permissions::READ_MESSAGES {
        p1
    } else {
        p1 & (!ACTION_PERMISSIONS & ALL_BITS)
    });
    let q1 = if q & Permissions::SEND_MESSAGES == Permissions::SEND_MESSAGES {
        q
    } else {
        q & (!MESSAGING_PERMISSIONS & ALL_BITS)
    };
    let q2 = if q1 & Permissions::READ_MESSAGES == Permissions::READ_MESSAGES {
        q1
    } else {
        q1 & (!ACTION_PERMISSIONS & ALL_BITS)
    };
    assert(q & !p == 0 && q1 == q && q2 == q && (q
        & Permissions::SEND_MESSAGES == Permissions::SEND_MESSAGES || q & MESSAGING_PERMISSIONS
        == 0) && (q & Permissions::READ_MESSAGES == Permissions::READ_MESSAGES || q
        & ACTION_PERMISSIONS == 0)) by (bit_vector)
        requires
            p1 == if p & Permissions::SEND_MESSAGES == Permissions::SEND_MESSAGES {
                p
            } else {
                p & (!MESSAGING_PERMISSIONS & ALL_BITS)
            },
            q == if p1 & Permissions::READ_MESSAGES == Permissions::READ_MESSAGES {
                p1
            } else {
                p1 & (!ACTION_PERMISSIONS & ALL_BITS)
            },
            q1 == if q & Permissions::SEND_MESSAGES == Permissions::SEND_MESSAGES {
                q
            } else {
                q & (!MESSAGING_PERMISSIONS & ALL_BITS)
            },
            q2 == if q1 & Permissions::READ_MESSAGES == Permissions::READ_MESSAGES {
                q1
            } else {
                q1 & (!ACTION_PERMISSIONS & ALL_BITS)
            },
    ;
    assert(usable(q) == q2);
    let r = p | Permissions::READ_MESSAGES;
    let r1 = if r & Permissions::SEND_MESSAGES == Permissions::SEND_MESSAGES {
        r
    } else {
        r & (!MESSAGING_PERMISSIONS & ALL_BITS)
    };
    let r2 = if r1 & Permissions::READ_MESSAGES == Permissions::READ_MESSAGES {
        r1
    } else {
        r1 & (!ACTION_PERMISSIONS & ALL_BITS)
    };
    assert(r2 & Permissions::READ_MESSAGES == Permissions::READ_MESSAGES) by (bit_vector)
        requires
            r == p | Permissions::READ_MESSAGES,
            r1 == if r & Permissions::SEND_MESSAGES == Permissions::SEND_MESSAGES {
                r
            } else {
                r & (!MESSAGING_PERMISSIONS & ALL_BITS)
            },
            r2 == if r1 & Permissions::READ_MESSAGES == Permissions::READ_MESSAGES {
                r1
            } else {
                r1 & (!ACTION_PERMISSIONS & ALL_BITS)
            },
    ;
    assert(usable(p | Permissions::READ_MESSAGES) == r2);
}

/// Removing the unusable permissions only takes permissions away, removes nothing
/// more when done twice, and leaves no messaging permission without sending messages
/// and no action permission without reading messages.
pub proof fn lemma_unusable_removed(p: u64)
    ensures
        usable(p) & !p == 0,
        usable(usable(p)) == usable(p),
        !bits_contain(usable(p), Permissions::SEND_MESSAGES) ==> usable(p) & MESSAGING_PERMISSIONS
            == 0,
        !bits_contain(usable(p), Permissions::READ_MESSAGES) ==> usable(p) & ACTION_PERMISSIONS
            == 0,
{
    lemma_usable_bits(p);
}

/// In a text channel no voice permission is left; in any other channel nothing changes.
pub proof fn lemma_text_channel_drops_voice(kind: ChannelType, p: u64)
    ensures
        kind == ChannelType::Text ==> voice_adjusted(kind, p) & VOICE_PERMISSIONS == 0,
        kind != ChannelType::Text ==> voice_adjusted(kind, p) == p,
{
    assert(p & (!VOICE_PERMISSIONS & ALL_BITS) & VOICE_PERMISSIONS == 0) by (bit_vector);
}

/// The owner of a guild has every permission there, and in every channel every one but
/// the voice permissions of a text channel.
pub proof fn lemma_owner_has_every_permission(
    channel: GuildChannel,
    member: Member,
    roles: Seq<Role>,
    owner_id: UserId,
    guild_id: GuildId,
)
    requires
        member.user.id == owner_id,
    ensures
        channel_permissions(channel, member, roles, owner_id, guild_id) == Ok::<u64, ModelError>(
            voice_adjusted(channel.kind, ALL_BITS),
        ),
        guild_permissions(member, roles, owner_id, guild_id) == ALL_BITS,
{
}

/// A member whose roles grant the administrator permission has every permission in the
/// guild and in every channel (but the voice ones of a text channel), whatever the
/// channel's overwrites.
pub proof fn lemma_administrator_has_every_permission(
    channel: GuildChannel,
    member: Member,
    roles: Seq<Role>,
    owner_id: UserId,
    guild_id: GuildId,
)
    requires
        role_with_id(roles, RoleId(guild_id.0)) matches Some(everyone) && roles_union(
            everyone.permissions@,
            member.roles@,
            roles,
        ) matches Some(base) && bits_contain(base, Permissions::ADMINISTRATOR),
    ensures
        channel_permissions(channel, member, roles, owner_id, guild_id) == Ok::<u64, ModelError>(
            voice_adjusted(channel.kind, ALL_BITS),
        ),
{
}

/// A member with an administrator role has every permission in the guild.
pub proof fn lemma_administrator_role_has_every_guild_permission(
    member: Member,
    roles: Seq<Role>,
    owner_id: UserId,
    guild_id: GuildId,
)
    requires
        role_with_id(roles, RoleId(guild_id.0)).is_some(),
        has_admin_role(member.roles@, roles),
    ensures
        guild_permissions(member, roles, owner_id, guild_id) == ALL_BITS,
{
}

/// The default channel of a guild (the one with the guild's id) is always readable.
pub proof fn lemma_default_channel_always_readable(
    channel: GuildChannel,
    member: Member,
    roles: Seq<Role>,
    owner_id: UserId,
    guild_id: GuildId,
)
    requires
        channel.id.0 == guild_id.0,
    ensures
        channel_permissions(channel, member, roles, owner_id, guild_id) matches Ok(p) ==> bits_contain(
            p,
            Permissions::READ_MESSAGES,
        ),
{
    let r = channel_permissions(channel, member, roles, owner_id, guild_id);
    if let Ok(p) = r {
        if p == voice_adjusted(channel.kind, ALL_BITS) {
            assert(ALL_BITS & Permissions::READ_MESSAGES == Permissions::READ_MESSAGES && (ALL_BITS
                & (!VOICE_PERMISSIONS & ALL_BITS)) & Permissions::READ_MESSAGES
                == Permissions::READ_MESSAGES) by (bit_vector);
        } else {
            let everyone = role_with_id(roles, RoleId(guild_id.0)).unwrap();
            let base = roles_union(everyone.permissions@, member.roles@, roles).unwrap();
            let ows = channel.permission_overwrites@;
            let data = role_overwrite_data(ows, member.roles@, roles, guild_id);
            let after_roles = apply_entries(base, insertion_sorted(data, lower_position()));
            let after_member = apply_member_overwrites(after_roles, ows, member.user.id);
            lemma_usable_bits(after_member);
        }
    }
}

/// Calculating a member's channel permissions fails exactly when the member is not the
/// owner and the `@everyone` role or one of the member's roles is missing.
pub proof fn lemma_channel_permissions_fail_on_missing_role(
    channel: GuildChannel,
    member: Member,
    roles: Seq<Role>,
    owner_id: UserId,
    guild_id: GuildId,
)
    ensures
        channel_permissions(channel, member, roles, owner_id, guild_id).is_err() <==> (
        member.user.id != owner_id && (role_with_id(roles, RoleId(guild_id.0)).is_none() || exists|
            i: int,
        |
            0 <= i < member.roles@.len() && role_with_id(roles, #[trigger] member.roles@[i]).is_none())),
{
    if let Some(everyone) = role_with_id(roles, RoleId(guild_id.0)) {
        lemma_roles_union_none_iff(everyone.permissions@, member.roles@, roles);
    }
}

/// The union of roles is undefined exactly when one of the roles is missing.
proof fn lemma_roles_union_none_iff(base: u64, ids: Seq<RoleId>, roles: Seq<Role>)
    ensures
        roles_union(base, ids, roles).is_none() <==> exists|i: int|
            0 <= i < ids.len() && role_with_id(roles, #[trigger] ids[i]).is_none(),
    decreases ids.len(),
{
    if ids.len() > 0 {
        let rest = ids.drop_last();
        lemma_roles_union_none_iff(base, rest, roles);
        if roles_union(base, rest, roles).is_none() {
            let i = choose|i: int| 0 <= i < rest.len() && role_with_id(roles, #[trigger] rest[i]).is_none();
            assert(ids[i] == rest[i]);
        } else if role_with_id(roles, ids.last()).is_none() {
            assert(ids[ids.len() - 1] == ids.last());
        } else {
            assert forall|i: int| 0 <= i < ids.len() implies role_with_id(roles, #[trigger] ids[i]).is_some() by {
                if i < ids.len() - 1 {
                    assert(ids[i] == rest[i]);
                }
            }
        }
    }
}

/// Overwrite entries come out ordered by role position, with none lost or added.
pub proof fn lemma_overwrites_in_position_order(data: Seq<(i64, Permissions, Permissions)>)
    ensures
        forall|i: int, j: int|
            0 <= i < j < insertion_sorted(data, lower_position()).len() ==> insertion_sorted(
                data,
                lower_position(),
            )[i].0 <= insertion_sorted(data, lower_position())[j].0,
        insertion_sorted(data, lower_position()).to_multiset() == data.to_multiset(),
{
    crate::seq_lib::lemma_insertion_sorted_ordered(data, lower_position());
    crate::seq_lib::lemma_insertion_sorted_multiset(data, lower_position());
}

/// A role's channel permissions fail exactly when the role or the channel belongs to
/// another guild.
pub proof fn lemma_role_permissions_fail_on_wrong_guild(
    channel: GuildChannel,
    role: Role,
    guild_id: GuildId,
)
    ensures
        role_channel_permissions(channel, role, guild_id).is_err() <==> (role.guild_id != guild_id
            || channel.guild_id != guild_id),
{
}

/// The role overwrite `ow` counts for `member` in a guild: it is for the `@everyone` role
/// or for one of the member's roles, and that role exists with the position `pos`.
pub open spec fn counted_for(
    ow: PermissionOverwrite,
    member: Member,
    roles: Seq<Role>,
    guild_id: GuildId,
    pos: i64,
) -> bool {
    match ow.kind {
        PermissionOverwriteType::Role(rid) => (rid.0 == guild_id.0 || member.roles@.contains(rid))
            && match role_with_id(roles, rid) {
            Some(r) => r.position == pos,
            None => false,
        },
        PermissionOverwriteType::Member(_) => false,
    }
}

/// A counting role overwrite contributes its role's position with its deny and allow.
proof fn lemma_counted_entry(
    ow: PermissionOverwrite,
    member: Member,
    roles: Seq<Role>,
    guild_id: GuildId,
    pos: i64,
)
    requires
        counted_for(ow, member, roles, guild_id, pos),
    ensures
        role_overwrite_entry(ow, member.roles@, roles, guild_id) == Some((pos, ow.deny, ow.allow)),
{
}

/// The entries of a list of overwrites grow by the entry of an overwrite added at the end.
proof fn lemma_data_push(
    ows: Seq<PermissionOverwrite>,
    ow: PermissionOverwrite,
    member: Member,
    roles: Seq<Role>,
    guild_id: GuildId,
)
    ensures
        role_overwrite_data(ows.push(ow), member.roles@, roles, guild_id) == match role_overwrite_entry(
            ow,
            member.roles@,
            roles,
            guild_id,
        ) {
            Some(e) => role_overwrite_data(ows, member.roles@, roles, guild_id).push(e),
            None => role_overwrite_data(ows, member.roles@, roles, guild_id),
        },
{
    assert(ows.push(ow).drop_last() =~= ows);
}

/// Applying entries one more: the added entry applies last.
proof fn lemma_entries_push(p: u64, data: Seq<(i64, Permissions, Permissions)>, e: (i64, Permissions, Permissions))
    ensures
        apply_entries(p, data.push(e)) == apply_overwrite(apply_entries(p, data), e.1@, e.2@),
{
    assert(data.push(e).drop_last() =~= data);
}

/// A member's overwrites with one more overwrite at the end: it applies last when it is
/// for the member, and changes nothing otherwise.
proof fn lemma_member_overwrites_push(p: u64, ows: Seq<PermissionOverwrite>, ow: PermissionOverwrite, user: UserId)
    ensures
        apply_member_overwrites(p, ows.push(ow), user) == if ow.kind
            == PermissionOverwriteType::Member(user) {
            apply_overwrite(apply_member_overwrites(p, ows, user), ow.deny@, ow.allow@)
        } else {
            apply_member_overwrites(p, ows, user)
        },
{
    assert(ows.push(ow).drop_last() =~= ows);
}

/// Sorting one entry leaves it.
proof fn lemma_sort_one(e: (i64, Permissions, Permissions))
    ensures
        insertion_sorted(seq![e], lower_position()) == seq![e],
{
    assert(seq![e].drop_last() =~= Seq::<(i64, Permissions, Permissions)>::empty());
    assert(insertion_sorted(Seq::<(i64, Permissions, Permissions)>::empty(), lower_position())
        == Seq::<(i64, Permissions, Permissions)>::empty());
    assert(seq![e].last() == e);
}

/// In a channel other than the default one whose only overwrite is a role overwrite
/// counting for a member who is neither the owner nor an administrator, the member's
/// permissions are their base permissions with the overwrite's denied flags taken away
/// and its allowed flags added, then the unusable ones dropped.
pub proof fn lemma_role_overwrite_applies(
    channel: GuildChannel,
    member: Member,
    roles: Seq<Role>,
    owner_id: UserId,
    guild_id: GuildId,
    everyone: Role,
    base: u64,
    ow: PermissionOverwrite,
    pos: i64,
)
    requires
        member.user.id != owner_id,
        channel.id.0 != guild_id.0,
        role_with_id(roles, RoleId(guild_id.0)) == Some(everyone),
        roles_union(everyone.permissions@, member.roles@, roles) == Some(base),
        !bits_contain(base, Permissions::ADMINISTRATOR),
        channel.permission_overwrites@ == seq![ow],
        counted_for(ow, member, roles, guild_id, pos),
    ensures
        channel_permissions(channel, member, roles, owner_id, guild_id) == Ok::<u64, ModelError>(
            usable((base & bits_complement(ow.deny@)) | ow.allow@),
        ),
{
    let ows = channel.permission_overwrites@;
    let e = (pos, ow.deny, ow.allow);
    let empty = Seq::<PermissionOverwrite>::empty();
    assert(empty.push(ow) =~= ows);
    lemma_counted_entry(ow, member, roles, guild_id, pos);
    lemma_data_push(empty, ow, member, roles, guild_id);
    assert(Seq::<(i64, Permissions, Permissions)>::empty().push(e) =~= seq![e]);
    assert(role_overwrite_data(ows, member.roles@, roles, guild_id) == seq![e]);
    assert(seq![e].drop_last() =~= Seq::<(i64, Permissions, Permissions)>::empty());
    lemma_sort_one(e);
    lemma_entries_push(base, Seq::<(i64, Permissions, Permissions)>::empty(), e);
    assert(apply_entries(base, seq![e]) == apply_overwrite(base, ow.deny@, ow.allow@));
    let q = apply_overwrite(base, ow.deny@, ow.allow@);
    lemma_member_overwrites_push(q, empty, ow, member.user.id);
    assert(apply_member_overwrites(q, ows, member.user.id) == q);
}

/// Two counting role overwrites apply from the lower role position to the higher one,
/// whatever their order in the channel: the higher role's overwrite has the last word.
pub proof fn lemma_role_overwrites_by_position(
    channel: GuildChannel,
    member: Member,
    roles: Seq<Role>,
    owner_id: UserId,
    guild_id: GuildId,
    everyone: Role,
    base: u64,
    low: PermissionOverwrite,
    low_pos: i64,
    high: PermissionOverwrite,
    high_pos: i64,
)
    requires
        member.user.id != owner_id,
        channel.id.0 != guild_id.0,
        role_with_id(roles, RoleId(guild_id.0)) == Some(everyone),
        roles_union(everyone.permissions@, member.roles@, roles) == Some(base),
        !bits_contain(base, Permissions::ADMINISTRATOR),
        channel.permission_overwrites@ == seq![low, high] || channel.permission_overwrites@
            == seq![high, low],
        counted_for(low, member, roles, guild_id, low_pos),
        counted_for(high, member, roles, guild_id, high_pos),
        low_pos < high_pos,
    ensures
        channel_permissions(channel, member, roles, owner_id, guild_id) == Ok::<u64, ModelError>(
            usable(
                (((base & bits_complement(low.deny@)) | low.allow@) & bits_complement(high.deny@))
                    | high.allow@,
            ),
        ),
{
    let ows = channel.permission_overwrites@;
    let el = (low_pos, low.deny, low.allow);
    let eh = (high_pos, high.deny, high.allow);
    let first = ows[0];
    let e1 = if first == low { el } else { eh };
    let e2 = if first == low { eh } else { el };
    let second = ows[1];
    let empty = Seq::<PermissionOverwrite>::empty();
    assert(empty.push(first) =~= seq![first]);
    assert(seq![first].push(second) =~= ows);
    lemma_counted_entry(low, member, roles, guild_id, low_pos);
    lemma_counted_entry(high, member, roles, guild_id, high_pos);
    lemma_data_push(empty, first, member, roles, guild_id);
    lemma_data_push(seq![first], second, member, roles, guild_id);
    assert(Seq::<(i64, Permissions, Permissions)>::empty().push(e1) =~= seq![e1]);
    let data = role_overwrite_data(ows, member.roles@, roles, guild_id);
    assert(role_overwrite_data(seq![first], member.roles@, roles, guild_id) == seq![e1]);
    assert(data == seq![e1].push(e2));
    assert(seq![e1].push(e2).drop_last() =~= seq![e1]);
    assert(seq![e1].drop_last() =~= Seq::<(i64, Permissions, Permissions)>::empty());
    let sorted = seq![el, eh];
    lemma_sort_one(e1);
    if first == low {
        assert(insert_sorted(seq![el], eh, lower_position()) == seq![el].push(eh));
        assert(seq![el].push(eh) =~= sorted);
    } else {
        assert(seq![eh].drop_last() =~= Seq::<(i64, Permissions, Permissions)>::empty());
        assert(seq![eh].last() == eh);
        assert((lower_position())(el, eh));
        assert(insert_sorted(Seq::<(i64, Permissions, Permissions)>::empty(), el, lower_position())
            == seq![el]);
        assert(insert_sorted(seq![eh], el, lower_position()) == seq![el].push(eh));
        assert(seq![el].push(eh) =~= sorted);
    }
    assert(insertion_sorted(data, lower_position()) == sorted);
    assert(sorted.drop_last() =~= seq![el]);
    assert(seq![el].drop_last() =~= Seq::<(i64, Permissions, Permissions)>::empty());
    let q = apply_entries(base, sorted);
    lemma_entries_push(base, Seq::<(i64, Permissions, Permissions)>::empty(), el);
    assert(Seq::<(i64, Permissions, Permissions)>::empty().push(el) =~= seq![el]);
    assert(seq![el].push(eh) =~= sorted);
    lemma_entries_push(base, seq![el], eh);
    assert(apply_entries(base, seq![el]) == apply_overwrite(base, low.deny@, low.allow@));
    assert(q == apply_overwrite(apply_overwrite(base, low.deny@, low.allow@), high.deny@, high.allow@));
    lemma_member_overwrites_push(q, empty, first, member.user.id);
    lemma_member_overwrites_push(q, seq![first], second, member.user.id);
    assert(apply_member_overwrites(q, seq![first], member.user.id) == q);
    assert(apply_member_overwrites(q, ows, member.user.id) == q);
}

/// An overwrite for the member applies after the role overwrites, wherever it stands in
/// the channel: its denied flags go and its allowed flags come last.
pub proof fn lemma_member_overwrite_applies_last(
    channel: GuildChannel,
    member: Member,
    roles: Seq<Role>,
    owner_id: UserId,
    guild_id: GuildId,
    everyone: Role,
    base: u64,
    mine: PermissionOverwrite,
    ow: PermissionOverwrite,
    pos: i64,
)
    requires
        member.user.id != owner_id,
        channel.id.0 != guild_id.0,
        role_with_id(roles, RoleId(guild_id.0)) == Some(everyone),
        roles_union(everyone.permissions@, member.roles@, roles) == Some(base),
        !bits_contain(base, Permissions::ADMINISTRATOR),
        channel.permission_overwrites@ == seq![mine, ow],
        mine.kind == PermissionOverwriteType::Member(member.user.id),
        counted_for(ow, member, roles, guild_id, pos),
    ensures
        channel_permissions(channel, member, roles, owner_id, guild_id) == Ok::<u64, ModelError>(
            usable(
                (((base & bits_complement(ow.deny@)) | ow.allow@) & bits_complement(mine.deny@))
                    | mine.allow@,
            ),
        ),
{
    let ows = channel.permission_overwrites@;
    let e = (pos, ow.deny, ow.allow);
    let empty = Seq::<PermissionOverwrite>::empty();
    assert(ows.drop_last() =~= seq![mine]);
    assert(seq![mine].drop_last() =~= empty);
    assert(empty.push(mine) =~= seq![mine]);
    assert(seq![mine].push(ow) =~= ows);
    lemma_counted_entry(ow, member, roles, guild_id, pos);
    lemma_data_push(empty, mine, member, roles, guild_id);
    lemma_data_push(seq![mine], ow, member, roles, guild_id);
    assert(role_overwrite_data(seq![mine], member.roles@, roles, guild_id) =~= Seq::<
        (i64, Permissions, Permissions),
    >::empty());
    assert(Seq::<(i64, Permissions, Permissions)>::empty().push(e) =~= seq![e]);
    assert(role_overwrite_data(ows, member.roles@, roles, guild_id) =~= seq![e]);
    assert(seq![e].drop_last() =~= Seq::<(i64, Permissions, Permissions)>::empty());
    lemma_sort_one(e);
    let q = apply_entries(base, seq![e]);
    lemma_entries_push(base, Seq::<(i64, Permissions, Permissions)>::empty(), e);
    assert(q == apply_overwrite(base, ow.deny@, ow.allow@));
    lemma_member_overwrites_push(q, empty, mine, member.user.id);
    lemma_member_overwrites_push(q, seq![mine], ow, member.user.id);
    assert(apply_member_overwrites(q, seq![mine], member.user.id) == apply_overwrite(
        q,
        mine.deny@,
        mine.allow@,
    ));
    assert(apply_member_overwrites(q, ows, member.user.id) == apply_overwrite(
        q,
        mine.deny@,
        mine.allow@,
    ));
}

/// A role's channel permissions take the channel's first overwrite for the role into
/// account: what it denies and does not allow is not held, and what it allows is held
/// unless unusable; without an overwrite the role keeps its usable permissions.
pub proof fn lemma_role_overwrite_in_role_permissions(
    channel: GuildChannel,
    role: Role,
    guild_id: GuildId,
    i: int,
)
    requires
        role.guild_id == guild_id,
        channel.guild_id == guild_id,
        !bits_contain(role.permissions@, Permissions::ADMINISTRATOR),
        0 <= i < channel.permission_overwrites@.len(),
        channel.permission_overwrites@[i].kind == PermissionOverwriteType::Role(role.id),
        forall|j: int|
            0 <= j < i ==> (#[trigger] channel.permission_overwrites@[j]).kind
                != PermissionOverwriteType::Role(role.id),
    ensures
        ({
            let o = channel.permission_overwrites@[i];
            &&& role_channel_permissions(channel, role, guild_id) == Ok::<u64, ModelError>(
                usable((role.permissions@ & bits_complement(o.deny@)) | o.allow@),
            )
            &&& role_channel_permissions(channel, role, guild_id) matches Ok(p) && p & o.deny@
                & !o.allow@ == 0
        }),
{
    let ows = channel.permission_overwrites@;
    let o = ows[i];
    lemma_first_match_at(ows, |x: PermissionOverwrite| x.kind == PermissionOverwriteType::Role(role.id), i);
    let q = (role.permissions@ & bits_complement(o.deny@)) | o.allow@;
    lemma_usable_bits(q);
    let u = usable(q);
    let d = o.deny@;
    let a = o.allow@;
    let rp = role.permissions@;
    assert(u & !q == 0);
    assert(q == (rp & (!d & ALL_BITS)) | a);
    assert(u & !((rp & (!d & ALL_BITS)) | a) == 0 ==> u & d & !a == 0) by (bit_vector);
}

/// A role without an overwrite in the channel keeps its usable permissions there.
pub proof fn lemma_role_without_overwrite(channel: GuildChannel, role: Role, guild_id: GuildId)
    requires
        role.guild_id == guild_id,
        channel.guild_id == guild_id,
        !bits_contain(role.permissions@, Permissions::ADMINISTRATOR),
        forall|j: int|
            0 <= j < channel.permission_overwrites@.len() ==> (
            #[trigger] channel.permission_overwrites@[j]).kind != PermissionOverwriteType::Role(
                role.id,
            ),
    ensures
        role_channel_permissions(channel, role, guild_id) == Ok::<u64, ModelError>(
            usable(role.permissions@),
        ),
{
    lemma_first_match_none(
        channel.permission_overwrites@,
        |x: PermissionOverwrite| x.kind == PermissionOverwriteType::Role(role.id),
    );
}

/// A user holds a set of permissions exactly when their guild permissions contain every
/// flag of it: holding a union is holding each part, and holding a set is holding each
/// part of it.
pub proof fn lemma_has_permissions_means_every_flag(
    members: Seq<Member>,
    roles: Seq<Role>,
    owner_id: UserId,
    guild_id: GuildId,
    user_id: UserId,
    fetched: Option<Member>,
    a: u64,
    b: u64,
)
    ensures
        user_has_permissions(members, roles, owner_id, guild_id, user_id, fetched, a) <==> (
        user_guild_permissions(members, roles, owner_id, guild_id, user_id, fetched) matches Some(
            p,
        ) && a & !p == 0),
        user_has_permissions(members, roles, owner_id, guild_id, user_id, fetched, a | b) <==> (
        user_has_permissions(members, roles, owner_id, guild_id, user_id, fetched, a)
            && user_has_permissions(members, roles, owner_id, guild_id, user_id, fetched, b)),
        user_has_permissions(members, roles, owner_id, guild_id, user_id, fetched, a) ==> (
        user_has_permissions(members, roles, owner_id, guild_id, user_id, fetched, a & b)),
{
    if let Some(p) = user_guild_permissions(members, roles, owner_id, guild_id, user_id, fetched) {
        assert((a | b) & !p == 0 <==> (a & !p == 0 && b & !p == 0)) by (bit_vector);
        assert(a & !p == 0 ==> (a & b) & !p == 0) by (bit_vector);
    }
}

} // verus!
