//! Server permissions: bit masks granted by roles, and the checks routes run
//! against them.

use vstd::prelude::*;

use crate::api_errors::{ApplicationError, FORBIDDEN, NOT_FOUND, is_plain_error};

verus! {

/// May see the channels of a server.
pub const VIEW_CHANNELS: u64 = 1;

/// May post messages.
pub const SEND_MESSAGES: u64 = 2;

/// May delete other members' messages.
pub const MANAGE_MESSAGES: u64 = 4;

/// May create, rename and delete channels.
pub const MANAGE_CHANNELS: u64 = 8;

/// May create, edit, read and delete roles.
pub const MANAGE_ROLES: u64 = 16;

/// May edit and delete the server.
pub const MANAGE_SERVER: u64 = 32;

/// May create invites.
pub const CREATE_INVITE: u64 = 64;

/// May revoke invites.
pub const MANAGE_INVITES: u64 = 128;

/// May give roles to members.
pub const ADD_ROLE: u64 = 256;

/// May take roles from members.
pub const REMOVE_ROLE: u64 = 512;

/// May remove members from the server.
pub const MANAGE_USERS: u64 = 1024;

/// Every permission: what the owner of a server holds.
pub const ALL_PERMS: u64 = 0xffff_ffff_ffff_ffff;

/// What every member holds without any role.
pub const BASE_PERMS: u64 = 3;

/// Every bit of `required` is set in `perms`.
pub open spec fn holds_all(perms: u64, required: u64) -> bool {
    perms & required == required
}

/// `perms` holds every permission in `required`.
pub fn has_permissions(perms: u64, required: u64) -> (r: bool)
    ensures
        r == holds_all(perms, required),
{
    perms & required == required
}

/// The answer to a caller who lacks a permission the route requires.
pub fn missing_permissions() -> (r: ApplicationError)
    ensures
        is_plain_error(r, FORBIDDEN, "user does not have required permissions"@, "user"@),
{
    ApplicationError::new(FORBIDDEN, "user does not have required permissions", "user", Vec::new(), None)
}

/// Succeeds when `perms` holds every permission in `required`, and answers
/// 403 otherwise.
pub fn required_permissions(perms: u64, required: u64) -> (r: Result<(), ApplicationError>)
    ensures
        r is Ok <==> holds_all(perms, required),
        r matches Err(e) ==> is_plain_error(e, FORBIDDEN, "user does not have required permissions"@, "user"@),
{
    if has_permissions(perms, required) {
        Ok(())
    } else {
        Err(missing_permissions())
    }
}

/// One row of the permission lookup of a user in a server: the server's
/// owner, the user's membership (if any), and the mask of one of their roles.
#[derive(Debug, Clone, Copy)]
pub struct PermissionRow {
    pub owner_id: u128,
    pub member_id: Option<u128>,
    pub mask: i64,
}

/// The union of the role masks of `rows`.
pub open spec fn union_of_masks(rows: Seq<PermissionRow>) -> u64
    decreases rows.len(),
{
    if rows.len() == 0 {
        0
    } else {
        union_of_masks(rows.drop_last()) | (rows.last().mask as u64)
    }
}

/// The permissions of `user` given the lookup rows of a server: nothing when
/// the server is unknown, everything for its owner, nothing for a non-member,
/// and for a member the base permissions plus those of every role.
pub open spec fn effective_permissions_spec(rows: Seq<PermissionRow>, user: u128) -> u64 {
    if rows.len() == 0 {
        0
    } else if rows[0].owner_id == user {
        ALL_PERMS
    } else if rows[0].member_id is None {
        0
    } else {
        BASE_PERMS | union_of_masks(rows)
    }
}

/// The permissions `user` holds in a server, from the rows of its lookup.
pub fn effective_permissions(rows: &[PermissionRow], user: u128) -> (r: u64)
    ensures
        r == effective_permissions_spec(rows@, user),
{
    if rows.len() == 0 {
        return 0;
    }
    if rows[0].owner_id == user {
        return ALL_PERMS;
    }
    if rows[0].member_id.is_none() {
        return 0;
    }
    let mut acc: u64 = 0;
    let mut i: usize = 0;
    while i < rows.len()
        invariant
            0 <= i <= rows@.len(),
            acc == union_of_masks(rows@.take(i as int)),
        decreases rows.len() - i,
    {
        assert(rows@.take(i as int + 1).drop_last() =~= rows@.take(i as int));
        acc = acc | (rows[i].mask as u64);
        i = i + 1;
    }
    assert(rows@.take(rows@.len() as int) =~= rows@);
    BASE_PERMS | acc
}

/// The kind of a channel.
#[derive(Debug, Clone, Copy, PartialEq, Eq, Structural)]
pub enum ChannelKind {
    Text,
    Voice,
    Dm,
}

/// Where a channel lives: in a server, with the caller's permissions there,
/// or in a direct conversation, where no roles apply.
#[derive(Debug, Clone, Copy)]
pub enum ChannelScope {
    Server { id: u128, perms: u64 },
    Dm,
}

/// A channel the caller may see, and on what terms.
#[derive(Debug, Clone, Copy)]
pub struct ChannelAccess {
    pub kind: ChannelKind,
    pub scope: ChannelScope,
}

impl ChannelAccess {
    /// Succeeds when the caller holds `required_perms` in the channel's
    /// server; a direct conversation requires nothing.
    pub fn require(&self, required_perms: u64) -> (r: Result<(), ApplicationError>)
        ensures
            r is Ok <==> match self.scope {
                ChannelScope::Server { perms, .. } => holds_all(perms, required_perms),
                ChannelScope::Dm => true,
            },
            r matches Err(e) ==> is_plain_error(e, FORBIDDEN, "user does not have required permissions"@, "user"@),
    {
        match self.scope {
            ChannelScope::Server { perms, .. } => required_permissions(perms, required_perms),
            ChannelScope::Dm => Ok(()),
        }
    }

    /// The caller's permissions in the channel's server, or none for a direct
    /// conversation.
    pub fn permissions(&self) -> (r: Option<u64>)
        ensures
            r == match self.scope {
                ChannelScope::Server { perms, .. } => Some(perms),
                ChannelScope::Dm => None::<u64>,
            },
    {
        match self.scope {
            ChannelScope::Server { perms, .. } => Some(perms),
            ChannelScope::Dm => None,
        }
    }
}

/// The row of a channel: its kind and its server, if any.
#[derive(Debug, Clone, Copy)]
pub struct ChannelRow {
    pub kind: ChannelKind,
    pub server_id: Option<u128>,
}

/// What deciding channel access needs after the channel itself is known.
#[derive(Debug, Clone, Copy)]
pub enum ChannelLookup {
    /// The caller's permissions in this server.
    ServerPermissions { kind: ChannelKind, server_id: u128 },
    /// Whether the caller takes part in this direct conversation.
    DmMembership { kind: ChannelKind },
}

/// First step of channel access: an unknown channel is a 404, a server
/// channel next needs the caller's permissions there, a conversation needs
/// the caller's membership.
pub fn channel_lookup(channel: Option<ChannelRow>) -> (r: Result<ChannelLookup, ApplicationError>)
    ensures
        match channel {
            None => r matches Err(e) && e.code == NOT_FOUND && e.message@ == "no such "@ + "channel"@,
            Some(row) => match row.server_id {
                Some(id) => r == Ok::<ChannelLookup, ApplicationError>(
                    ChannelLookup::ServerPermissions { kind: row.kind, server_id: id },
                ),
                None => r == Ok::<ChannelLookup, ApplicationError>(
                    ChannelLookup::DmMembership { kind: row.kind },
                ),
            },
        },
{
    match channel {
        None => Err(ApplicationError::not_found("channel")),
        Some(row) => match row.server_id {
            Some(id) => Ok(ChannelLookup::ServerPermissions { kind: row.kind, server_id: id }),
            None => Ok(ChannelLookup::DmMembership { kind: row.kind }),
        },
    }
}

/// Access to a server channel given the caller's permissions there: seeing
/// it takes VIEW_CHANNELS.
pub fn server_channel_access(kind: ChannelKind, server_id: u128, perms: u64) -> (r: Result<
    ChannelAccess,
    ApplicationError,
>)
    ensures
        holds_all(perms, VIEW_CHANNELS) ==> r == Ok::<ChannelAccess, ApplicationError>(
            ChannelAccess { kind, scope: ChannelScope::Server { id: server_id, perms } },
        ),
        !holds_all(perms, VIEW_CHANNELS) ==> (r matches Err(e) && is_plain_error(
            e,
            FORBIDDEN,
            "forbidden"@,
            "user"@,
        )),
{
    if perms & VIEW_CHANNELS != VIEW_CHANNELS {
        return Err(ApplicationError::new(FORBIDDEN, "forbidden", "user", Vec::new(), None));
    }
    Ok(ChannelAccess { kind, scope: ChannelScope::Server { id: server_id, perms } })
}

/// Access to a direct conversation given how many participant rows name the
/// caller: exactly one grants it, anything else is a 404.
pub fn dm_channel_access(kind: ChannelKind, participant_rows: i64) -> (r: Result<
    ChannelAccess,
    ApplicationError,
>)
    ensures
        participant_rows == 1 ==> r == Ok::<ChannelAccess, ApplicationError>(
            ChannelAccess { kind, scope: ChannelScope::Dm },
        ),
        participant_rows != 1 ==> (r matches Err(e) && is_plain_error(
            e,
            NOT_FOUND,
            "no channel exists for this user"@,
            "request"@,
        )),
{
    if participant_rows != 1 {
        return Err(
            ApplicationError::new(NOT_FOUND, "no channel exists for this user", "request", Vec::new(), None),
        );
    }
    Ok(ChannelAccess { kind, scope: ChannelScope::Dm })
}

/// `mask` grants nothing that `caller` does not hold.
pub open spec fn within(mask: u64, caller: u64) -> bool {
    mask & !caller == 0
}

/// `mask` grants only permissions that `caller` holds: the rule for creating,
/// editing and handing out roles.
pub fn grants_only_held(mask: u64, caller: u64) -> (r: bool)
    ensures
        r == within(mask, caller),
{
    mask & !caller == 0
}

/// Law: a mask grants nothing beyond the caller's permissions exactly when
/// the caller holds every permission of the mask.
pub proof fn law_within_is_holding(mask: u64, caller: u64)
    ensures
        within(mask, caller) <==> holds_all(caller, mask),
{
    assert((mask & !caller == 0) <==> (caller & mask == mask)) by (bit_vector);
}

/// Law: the owner of a server holds every permission.
pub proof fn law_owner_holds_everything(required: u64)
    ensures
        holds_all(ALL_PERMS, required),
{
    assert(0xffff_ffff_ffff_ffffu64 & required == required) by (bit_vector);
}

/// Law: holding a union of permissions is holding each of them.
pub proof fn law_holds_union(perms: u64, a: u64, b: u64)
    ensures
        holds_all(perms, a | b) <==> holds_all(perms, a) && holds_all(perms, b),
{
    assert((perms & (a | b) == (a | b)) <==> (perms & a == a && perms & b == b)) by (bit_vector);
}

/// Law: whoever holds more permissions passes every check that a holder of
/// fewer passes.
pub proof fn law_holds_monotone(p: u64, q: u64, required: u64)
    requires
        holds_all(q, p),
        holds_all(p, required),
    ensures
        holds_all(q, required),
{
    assert((q & p == p && p & required == required) ==> q & required == required) by (bit_vector);
}

proof fn lemma_union_covers(rows: Seq<PermissionRow>, i: int)
    requires
        0 <= i < rows.len(),
    ensures
        holds_all(union_of_masks(rows), rows[i].mask as u64),
    decreases rows.len(),
{
    let u = union_of_masks(rows.drop_last());
    let m = rows.last().mask as u64;
    if i < rows.len() - 1 {
        lemma_union_covers(rows.drop_last(), i);
        let x = rows[i].mask as u64;
        assert(rows.drop_last()[i] == rows[i]);
        assert(u & x == x ==> (u | m) & x == x) by (bit_vector);
    } else {
        assert((u | m) & m == m) by (bit_vector);
    }
}

/// Law: a member holds the base permissions and every permission of each of
/// their roles.
pub proof fn law_member_holds_roles(rows: Seq<PermissionRow>, user: u128, i: int)
    requires
        0 <= i < rows.len(),
        rows[0].owner_id != user,
        rows[0].member_id is Some,
    ensures
        holds_all(effective_permissions_spec(rows, user), BASE_PERMS),
        holds_all(effective_permissions_spec(rows, user), rows[i].mask as u64),
{
    lemma_union_covers(rows, i);
    let u = union_of_masks(rows);
    let x = rows[i].mask as u64;
    assert((3u64 | u) & 3u64 == 3u64) by (bit_vector);
    assert(u & x == x ==> (3u64 | u) & x == x) by (bit_vector);
}

} // verus!
