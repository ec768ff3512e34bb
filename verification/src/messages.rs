//! The rules of the message routes: which channels carry messages, who may
//! post, edit and delete.

use vstd::prelude::*;

use crate::api_errors::{ApplicationError, BAD_REQUEST, FORBIDDEN, NOT_FOUND, is_plain_error};
use crate::permission::{
    holds_all, ChannelAccess, ChannelKind, ChannelScope, MANAGE_MESSAGES, SEND_MESSAGES,
};

verus! {

/// The answer to a route used on the wrong kind of channel.
pub fn invalid_channel_type() -> (r: ApplicationError)
    ensures
        is_plain_error(r, BAD_REQUEST, "invalid channel type"@, "request"@),
{
    ApplicationError::bad_request("invalid channel type", "request", Vec::new())
}

/// Messages live in text channels and direct conversations, not in voice
/// channels.
pub fn require_message_channel(kind: ChannelKind) -> (r: Result<(), ApplicationError>)
    ensures
        r is Ok <==> kind != ChannelKind::Voice,
        r matches Err(e) ==> is_plain_error(e, BAD_REQUEST, "invalid channel type"@, "request"@),
{
    if kind == ChannelKind::Voice {
        return Err(invalid_channel_type());
    }
    Ok(())
}

/// Listing who is in a call takes a voice channel.
pub fn require_voice_channel(kind: ChannelKind) -> (r: Result<(), ApplicationError>)
    ensures
        r is Ok <==> kind == ChannelKind::Voice,
        r matches Err(e) ==> is_plain_error(e, BAD_REQUEST, "invalid channel type"@, "request"@),
{
    if kind != ChannelKind::Voice {
        return Err(invalid_channel_type());
    }
    Ok(())
}

/// Posting takes a message channel and, in a server, SEND_MESSAGES.
pub fn check_post(access: &ChannelAccess) -> (r: Result<(), ApplicationError>)
    ensures
        r is Ok <==> access.kind != ChannelKind::Voice && match access.scope {
            ChannelScope::Server { perms, .. } => holds_all(perms, SEND_MESSAGES),
            ChannelScope::Dm => true,
        },
        r matches Err(e) ==> (access.kind == ChannelKind::Voice && is_plain_error(
            e,
            BAD_REQUEST,
            "invalid channel type"@,
            "request"@,
        )) || (access.kind != ChannelKind::Voice && is_plain_error(
            e,
            FORBIDDEN,
            "user does not have required permissions"@,
            "user"@,
        )),
{
    require_message_channel(access.kind)?;
    access.require(SEND_MESSAGES)
}

/// The caller may remove other members' messages: a server channel where
/// they hold MANAGE_MESSAGES. A direct conversation has no moderators.
pub open spec fn moderates(access: ChannelAccess) -> bool {
    match access.scope {
        ChannelScope::Server { perms, .. } => holds_all(perms, MANAGE_MESSAGES),
        ChannelScope::Dm => false,
    }
}

/// Which messages an edit or a delete may touch.
#[derive(Debug, Clone, Copy, PartialEq, Eq, Structural)]
pub enum MessageScope {
    /// Any message of the channel.
    AnyAuthor,
    /// Only the caller's own messages.
    OwnOnly,
}

/// The rows an edit or delete by `caller` may touch in the given scope.
pub open spec fn scope_admits(scope: MessageScope, caller: u128, author: Option<u128>) -> bool {
    match scope {
        MessageScope::AnyAuthor => true,
        MessageScope::OwnOnly => author == Some(caller),
    }
}

/// Authors may always delete their own messages; removing anyone else's is
/// moderation and takes MANAGE_MESSAGES.
pub fn delete_scope(access: &ChannelAccess) -> (r: MessageScope)
    ensures
        r == (if moderates(*access) {
            MessageScope::AnyAuthor
        } else {
            MessageScope::OwnOnly
        }),
{
    match access.scope {
        ChannelScope::Server { perms, .. } => if perms & MANAGE_MESSAGES == MANAGE_MESSAGES {
            MessageScope::AnyAuthor
        } else {
            MessageScope::OwnOnly
        },
        ChannelScope::Dm => MessageScope::OwnOnly,
    }
}

/// Law: whoever may delete, the author of a message may delete it, and
/// anyone else may only when they moderate the channel.
pub proof fn law_delete_is_author_or_moderator(access: ChannelAccess, caller: u128, author: Option<u128>)
    ensures
        scope_admits(
            if moderates(access) {
                MessageScope::AnyAuthor
            } else {
                MessageScope::OwnOnly
            },
            caller,
            author,
        ) <==> (author == Some(caller) || moderates(access)),
{
}

/// The rows an edit by `caller` may touch: only the caller's own messages,
/// whatever their permissions, since rewriting another's words is forgery.
/// A message whose author was deleted can be edited by no one.
pub open spec fn edit_admits(caller: u128, author: Option<u128>) -> bool {
    author == Some(caller)
}

/// Editing takes a message channel and touches only the caller's own
/// messages: holding MANAGE_MESSAGES buys nothing here.
pub fn edit_scope(access: &ChannelAccess) -> (r: Result<MessageScope, ApplicationError>)
    ensures
        r is Ok <==> access.kind != ChannelKind::Voice,
        r matches Err(e) ==> is_plain_error(e, BAD_REQUEST, "invalid channel type"@, "request"@),
        r matches Ok(s) ==> s == MessageScope::OwnOnly,
        r matches Ok(s) ==> forall|caller: u128, author: Option<u128>|
            #[trigger] scope_admits(s, caller, author) == edit_admits(caller, author),
{
    require_message_channel(access.kind)?;
    Ok(MessageScope::OwnOnly)
}

/// An edit or delete must have changed exactly one row; anything else means
/// the message is not there or not the caller's to change.
pub fn require_one_row(rows_affected: u64) -> (r: Result<(), ApplicationError>)
    ensures
        r is Ok <==> rows_affected == 1,
        r matches Err(e) ==> e.code == NOT_FOUND && e.message@ == "no such "@ + "message"@
            && e.target@ == "path"@ && e.details@.len() == 1 && e.details@[0].code == 4004
            && e.details@[0].target@ == "message"@ && e.details@[0].message@
            == "unknown id, or not visible in this scope"@ && e.innererror is None,
{
    if rows_affected != 1 {
        return Err(ApplicationError::not_found("message"));
    }
    Ok(())
}

} // verus!
