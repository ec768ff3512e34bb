//! The rules of the server routes: invites, joining, leaving and kicking.

use vstd::prelude::*;

use crate::api_errors::{ApplicationError, ErrorDetail, BAD_REQUEST, GONE, NOT_FOUND, is_plain_error};
use crate::clock::{now_nanos, time_add_seconds, time_add_spec};
use crate::models::Invite;
use crate::validation::invite_code_ok;

verus! {

/// Uses an invite gets when the request names none.
pub const DEFAULT_INVITE_USES: i64 = 2;

/// The length of an invite code.
pub const INVITE_CODE_LEN: usize = 21;

/// An invite can still be redeemed at `now`: not revoked, not spent, and not
/// past its expiry (an invite without one never expires).
pub open spec fn invite_usable_spec(invite: Invite, now: i128) -> bool {
    &&& !invite.revoked
    &&& invite.uses < invite.max_uses
    &&& match invite.expires_at {
        Some(exp) => !(exp < now),
        None => true,
    }
}

/// The answer to a real invite that can no longer be used.
pub fn invite_no_longer_usable() -> (r: ApplicationError)
    ensures
        is_plain_error(r, GONE, "invite was revoked, is at max uses, or has expired"@, "invite"@),
{
    ApplicationError::new(GONE, "invite was revoked, is at max uses, or has expired", "invite", Vec::new(), None)
}

/// Checks that the invite looked up for a join exists and can be redeemed at
/// `now`: an unknown code is a 404, a revoked, spent or expired one a 410.
pub fn check_invite(invite: Option<Invite>, now: i128) -> (r: Result<Invite, ApplicationError>)
    ensures
        match invite {
            None => r matches Err(e) && e.code == NOT_FOUND && e.message@ == "no such "@ + "invite"@,
            Some(inv) => if invite_usable_spec(inv, now) {
                r == Ok::<Invite, ApplicationError>(inv)
            } else {
                r matches Err(e) && is_plain_error(
                    e,
                    GONE,
                    "invite was revoked, is at max uses, or has expired"@,
                    "invite"@,
                )
            },
        },
{
    let inv = match invite {
        None => return Err(ApplicationError::not_found("invite")),
        Some(inv) => inv,
    };
    let expired = match inv.expires_at {
        Some(exp) => exp < now,
        None => false,
    };
    if inv.revoked || inv.uses >= inv.max_uses || expired {
        return Err(invite_no_longer_usable());
    }
    Ok(inv)
}

/// What a join does once the invite checks out.
#[derive(Debug, Clone, Copy, PartialEq, Eq, Structural)]
pub enum JoinStep {
    /// The caller is a member already: nothing changes and no use is spent.
    AlreadyMember,
    /// Spend one use and add the membership.
    SpendAndJoin,
}

/// Joining is idempotent: a member joins again without spending a use.
pub fn join_step(membership_rows: i64) -> (r: JoinStep)
    ensures
        r == (if membership_rows > 0 {
            JoinStep::AlreadyMember
        } else {
            JoinStep::SpendAndJoin
        }),
{
    if membership_rows > 0 {
        JoinStep::AlreadyMember
    } else {
        JoinStep::SpendAndJoin
    }
}

/// The verdict on a join, checks in the route's order: the invite looked up
/// for the code must exist and be usable at `now` before membership is
/// looked at; then a member joins again without spending a use, and anyone
/// else spends one. Gives the invite and the step.
pub fn decide_join(invite: Option<Invite>, now: i128, membership_rows: i64) -> (r: Result<
    (Invite, JoinStep),
    ApplicationError,
>)
    ensures
        match invite {
            None => r matches Err(e) && e.code == NOT_FOUND && e.message@ == "no such "@ + "invite"@,
            Some(inv) => if invite_usable_spec(inv, now) {
                r == Ok::<(Invite, JoinStep), ApplicationError>(
                    (
                        inv,
                        if membership_rows > 0 {
                            JoinStep::AlreadyMember
                        } else {
                            JoinStep::SpendAndJoin
                        },
                    ),
                )
            } else {
                r matches Err(e) && is_plain_error(
                    e,
                    GONE,
                    "invite was revoked, is at max uses, or has expired"@,
                    "invite"@,
                )
            },
        },
{
    let inv = check_invite(invite, now)?;
    Ok((inv, join_step(membership_rows)))
}

/// The guarded spend of a use touched no row: someone else took the last
/// seat first.
pub fn require_use_spent(rows_affected: u64) -> (r: Result<(), ApplicationError>)
    ensures
        r is Ok <==> rows_affected != 0,
        r matches Err(e) ==> is_plain_error(
            e,
            GONE,
            "invite was revoked, is at max uses, or has expired"@,
            "invite"@,
        ),
{
    if rows_affected == 0 {
        return Err(invite_no_longer_usable());
    }
    Ok(())
}

/// The counters of an invite after one successful join.
pub open spec fn spend_use(invite: Invite) -> Invite {
    Invite { uses: (invite.uses + 1) as i64, ..invite }
}

/// Law: no sequence of successful joins takes an invite past its maximum:
/// a join is allowed only while uses are below the maximum, and spends one.
pub proof fn law_joins_never_exceed_max_uses(invite: Invite, now: i128)
    requires
        invite.uses <= invite.max_uses,
        invite_usable_spec(invite, now),
    ensures
        spend_use(invite).uses <= spend_use(invite).max_uses,
        spend_use(invite).uses == invite.uses + 1,
{
}

/// Removing a member from a server: an unknown server is a 404, and the
/// owner can never be removed.
pub fn check_member_removal(owner_id: Option<u128>, user: u128) -> (r: Result<(), ApplicationError>)
    ensures
        match owner_id {
            None => r matches Err(e) && e.code == NOT_FOUND && e.message@ == "no such "@ + "server"@,
            Some(owner) => if owner == user {
                r matches Err(e) && e.code == BAD_REQUEST && e.message@
                    == "can not remove owner from server"@ && e.target@ == "request"@
                    && e.details@.len() == 1 && e.details@[0].code == 4000
                    && e.details@[0].target@ == "user"@ && e.details@[0].message@
                    == "invalid user id"@
            } else {
                r is Ok
            },
        },
{
    match owner_id {
        None => Err(ApplicationError::not_found("server")),
        Some(owner) => {
            if owner == user {
                return Err(
                    ApplicationError::new(
                        BAD_REQUEST,
                        "can not remove owner from server",
                        "request",
                        vec![ErrorDetail::new(4000, "user", "invalid user id")],
                        None,
                    ),
                );
            }
            Ok(())
        },
    }
}

/// A server update is accepted when it names a new name, a new icon or both;
/// one that names neither has no values to update and is answered 400.
pub fn check_server_patch(name: &Option<String>, icon: &Option<String>) -> (r: Result<
    (),
    ApplicationError,
>)
    ensures
        r is Err <==> name is None && icon is None,
        r matches Err(e) ==> e.code == BAD_REQUEST && e.message@ == "bad request"@ && e.target@
            == "body"@ && e.details@.len() == 1 && e.details@[0].code == 4001
            && e.details@[0].target@ == "body"@ && e.details@[0].message@
            == "no values to update"@,
{
    if name.is_none() && icon.is_none() {
        return Err(
            ApplicationError::new(
                BAD_REQUEST,
                "bad request",
                "body",
                vec![ErrorDetail::new(4001, "body", "no values to update")],
                None,
            ),
        );
    }
    Ok(())
}

/// The number of uses a new invite gets: what the request names, or two.
pub fn invite_max_uses(requested: Option<i64>) -> (r: i64)
    ensures
        r == match requested {
            Some(n) => n,
            None => DEFAULT_INVITE_USES,
        },
{
    match requested {
        Some(n) => n,
        None => DEFAULT_INVITE_USES,
    }
}

/// How long a new invite stays valid, in seconds: one hour.
pub const INVITE_LIFETIME_SECS: i64 = 3600;

/// `c` may appear in an invite code: a letter, a digit, `_` or `-` (the
/// URL-safe alphabet of `nanoid`).
pub open spec fn is_invite_char(c: char) -> bool {
    ('a' <= c <= 'z') || ('A' <= c <= 'Z') || ('0' <= c <= '9') || c == '_' || c == '-'
}

/// Calls `nanoid::format` with `nanoid::rngs::default`, the URL-safe
/// alphabet `nanoid::alphabet::SAFE` and a length of 21, as `nanoid!()` does.
/// Claims what its source shows: 21 characters of that alphabet. Which ones
/// is left to chance.
#[verifier::external_body]
fn new_invite_code() -> (r: String)
    ensures
        r@.len() == INVITE_CODE_LEN,
        forall|i: int| 0 <= i < r@.len() ==> is_invite_char(#[trigger] r@[i]),
{
    nanoid::format(nanoid::rngs::default, &nanoid::alphabet::SAFE, INVITE_CODE_LEN)
}

/// The invite created at `now` under `code` for `server_id` by
/// `created_by`: unused, unrevoked, expiring an hour later, with the uses
/// the request names or two.
pub fn new_invite(code: String, server_id: u128, created_by: u128, now: i128, requested_max_uses: Option<i64>) -> (r: Invite)
    ensures
        r.id == code,
        r.server_id == server_id,
        r.created_by == Some(created_by),
        r.expires_at == time_add_spec(now, INVITE_LIFETIME_SECS),
        r.expires_at matches Some(t) ==> t == now + INVITE_LIFETIME_SECS * 1_000_000_000,
        r.max_uses == match requested_max_uses {
            Some(n) => n,
            None => DEFAULT_INVITE_USES,
        },
        r.uses == 0,
        !r.revoked,
{
    Invite {
        id: code,
        server_id,
        created_by: Some(created_by),
        expires_at: time_add_seconds(now, INVITE_LIFETIME_SECS),
        max_uses: invite_max_uses(requested_max_uses),
        uses: 0,
        revoked: false,
    }
}

/// A new invite under a fresh random code, valid for an hour from now by the
/// machine's clock.
pub fn create_invite(server_id: u128, created_by: u128, requested_max_uses: Option<i64>) -> (r: Invite)
    ensures
        r.id@.len() == INVITE_CODE_LEN,
        forall|i: int| 0 <= i < r.id@.len() ==> is_invite_char(#[trigger] r.id@[i]),
        invite_code_ok(r.id@),
        r.server_id == server_id,
        r.created_by == Some(created_by),
        r.max_uses == match requested_max_uses {
            Some(n) => n,
            None => DEFAULT_INVITE_USES,
        },
        r.uses == 0,
        !r.revoked,
{
    let code = new_invite_code();
    new_invite(code, server_id, created_by, now_nanos(), requested_max_uses)
}

/// Law: a freshly created invite whose uses lie in the range a request may
/// name (or the default) can be redeemed at the moment it was made.
pub proof fn law_new_invite_is_usable(inv: Invite, now: i128)
    requires
        inv.uses == 0,
        !inv.revoked,
        1 <= inv.max_uses <= 255,
        inv.expires_at matches Some(t) ==> t == now + INVITE_LIFETIME_SECS * 1_000_000_000,
    ensures
        invite_usable_spec(inv, now),
{
}

} // verus!
