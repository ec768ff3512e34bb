//! Friend requests and the direct conversations they open.

use vstd::prelude::*;

use crate::api_errors::{ApplicationError, BAD_REQUEST, NOT_FOUND, is_plain_error};

verus! {

/// A friend request as stored.
#[derive(Debug, Clone, Copy)]
pub struct FriendRequest {
    pub id: u128,
    pub from_user: u128,
    pub to_user: u128,
    pub rejected: bool,
}

/// The participants of a conversation in the one order it is stored in:
/// lower id first.
pub open spec fn canonical_pair_spec(x: u128, y: u128) -> (u128, u128) {
    if x <= y {
        (x, y)
    } else {
        (y, x)
    }
}

/// The participants of a direct conversation, stored lower id first.
#[derive(Debug, Clone, Copy)]
pub struct DmParticipant {
    pub channel_id: u128,
    pub user_a_id: u128,
    pub user_b_id: u128,
}

impl DmParticipant {
    /// The participants of a conversation between `x` and `y`, lower id
    /// first, so that one pair of users has one conversation whoever asked.
    pub fn canonical_pair(x: u128, y: u128) -> (r: (u128, u128))
        ensures
            r == canonical_pair_spec(x, y),
    {
        if x <= y {
            (x, y)
        } else {
            (y, x)
        }
    }
}

/// Law: the stored pair does not depend on who asked, holds both users, and
/// is ordered.
pub proof fn law_canonical_pair(x: u128, y: u128)
    ensures
        canonical_pair_spec(x, y) == canonical_pair_spec(y, x),
        canonical_pair_spec(x, y).0 <= canonical_pair_spec(x, y).1,
        (canonical_pair_spec(x, y).0 == x && canonical_pair_spec(x, y).1 == y) || (
        canonical_pair_spec(x, y).0 == y && canonical_pair_spec(x, y).1 == x),
{
}

/// Accepting a friend request: only the recipient can, so a request that is
/// unknown or addressed to someone else is not found; a rejected request
/// cannot be accepted; otherwise the conversation opens between the two.
pub fn accept_friend_request(request: Option<FriendRequest>) -> (r: Result<(u128, u128), ApplicationError>)
    ensures
        match request {
            None => r matches Err(e) && e.code == NOT_FOUND && e.message@ == "no such "@
                + "friend request"@,
            Some(req) => if req.rejected {
                r matches Err(e) && is_plain_error(
                    e,
                    BAD_REQUEST,
                    "can not operate on a rejected request"@,
                    "request"@,
                )
            } else {
                r == Ok::<(u128, u128), ApplicationError>(
                    canonical_pair_spec(req.from_user, req.to_user),
                )
            },
        },
{
    let req = match request {
        None => return Err(ApplicationError::not_found("friend request")),
        Some(req) => req,
    };
    if req.rejected {
        return Err(
            ApplicationError::new(
                BAD_REQUEST,
                "can not operate on a rejected request",
                "request",
                Vec::new(),
                None,
            ),
        );
    }
    Ok(DmParticipant::canonical_pair(req.from_user, req.to_user))
}

/// The request as the caller `caller` may see it: only its recipient finds it.
pub open spec fn addressed_to(request: Option<FriendRequest>, caller: u128) -> Option<FriendRequest> {
    match request {
        Some(req) => if req.to_user == caller {
            Some(req)
        } else {
            None
        },
        None => None,
    }
}

/// Accepting the friend request `request` (as stored, if it exists) by the
/// user `caller`: a request addressed to someone else is answered as if it
/// did not exist, so a sender cannot approve their own request; the
/// recipient's acceptance is decided by `accept_friend_request`.
pub fn accept_friend_request_as(caller: u128, request: Option<FriendRequest>) -> (r: Result<
    (u128, u128),
    ApplicationError,
>)
    ensures
        match addressed_to(request, caller) {
            None => r matches Err(e) && e.code == NOT_FOUND && e.message@ == "no such "@
                + "friend request"@,
            Some(req) => if req.rejected {
                r matches Err(e) && is_plain_error(
                    e,
                    BAD_REQUEST,
                    "can not operate on a rejected request"@,
                    "request"@,
                )
            } else {
                r == Ok::<(u128, u128), ApplicationError>(
                    canonical_pair_spec(req.from_user, req.to_user),
                )
            },
        },
{
    let visible = match request {
        Some(req) => if req.to_user == caller {
            Some(req)
        } else {
            None
        },
        None => None,
    };
    accept_friend_request(visible)
}

/// Which friend requests to list.
#[derive(Debug, Clone, Copy, PartialEq, Eq, Structural)]
pub enum FriendRequestType {
    Incoming,
    Outgoing,
}

/// What to do with a friend request.
#[derive(Debug, Clone, Copy, PartialEq, Eq, Structural)]
pub enum RequestAction {
    Reject,
    Accept,
}

} // verus!
