//! The rules of the channel routes.

use vstd::prelude::*;

use crate::api_errors::{
    ApplicationError, ErrorDetail, BAD_REQUEST, FORBIDDEN, NOT_FOUND, is_plain_error,
};
use crate::permission::{holds_all, required_permissions, MANAGE_CHANNELS};

verus! {

/// The answer when the channel in the path is not in the server in the path;
/// whether it exists elsewhere is deliberately not told.
pub fn channel_not_found() -> (r: ApplicationError)
    ensures
        r.code == NOT_FOUND,
        r.message@ == "no such channel in this server"@,
        r.target@ == "path"@,
        r.details@.len() == 1,
        r.details@[0].code == 4004,
        r.details@[0].target@ == "channel"@,
        r.details@[0].message@ == "channel must belong to the server in the path"@,
        r.innererror is None,
{
    ApplicationError::new(
        NOT_FOUND,
        "no such channel in this server",
        "path",
        vec![ErrorDetail::new(4004, "channel", "channel must belong to the server in the path")],
        None,
    )
}

/// What an update of a channel changes.
#[derive(Debug, Clone)]
pub enum ChannelPatch {
    NameAndCategory { name: String, category: String },
    Name { name: String },
    Category { category: String },
}

/// The update a patch body asks for; a body that changes nothing is a 400.
pub fn channel_patch(name: Option<String>, category: Option<String>) -> (r: Result<
    ChannelPatch,
    ApplicationError,
>)
    ensures
        match (name, category) {
            (None, None) => r matches Err(e) && is_plain_error(e, BAD_REQUEST, "empty body"@, "body"@),
            (Some(n), Some(c)) => r matches Ok(ChannelPatch::NameAndCategory { name, category })
                && name == n && category == c,
            (Some(n), None) => r matches Ok(ChannelPatch::Name { name }) && name == n,
            (None, Some(c)) => r matches Ok(ChannelPatch::Category { category }) && category == c,
        },
{
    match (name, category) {
        (None, None) => Err(ApplicationError::new(BAD_REQUEST, "empty body", "body", Vec::new(), None)),
        (Some(name), Some(category)) => Ok(ChannelPatch::NameAndCategory { name, category }),
        (Some(name), None) => Ok(ChannelPatch::Name { name }),
        (None, Some(category)) => Ok(ChannelPatch::Category { category }),
    }
}

/// The verdict on a channel patch, checks in the route's order: the caller's
/// permissions `perms` must hold MANAGE_CHANNELS before the body is looked
/// at; then the body must change something.
pub fn decide_channel_patch(perms: u64, name: Option<String>, category: Option<String>) -> (r: Result<
    ChannelPatch,
    ApplicationError,
>)
    ensures
        !holds_all(perms, MANAGE_CHANNELS) ==> (r matches Err(e) && is_plain_error(
            e,
            FORBIDDEN,
            "user does not have required permissions"@,
            "user"@,
        )),
        holds_all(perms, MANAGE_CHANNELS) ==> match (name, category) {
            (None, None) => r matches Err(e) && is_plain_error(e, BAD_REQUEST, "empty body"@, "body"@),
            (Some(n), Some(c)) => r matches Ok(ChannelPatch::NameAndCategory { name, category })
                && name == n && category == c,
            (Some(n), None) => r matches Ok(ChannelPatch::Name { name }) && name == n,
            (None, Some(c)) => r matches Ok(ChannelPatch::Category { category }) && category == c,
        },
{
    required_permissions(perms, MANAGE_CHANNELS)?;
    channel_patch(name, category)
}

/// An update or delete scoped by server that touched no row addressed a
/// channel outside the server.
pub fn require_channel_changed(rows_affected: u64) -> (r: Result<(), ApplicationError>)
    ensures
        r is Ok <==> rows_affected != 0,
        r matches Err(e) ==> e.code == NOT_FOUND && e.message@ == "no such channel in this server"@
            && e.target@ == "path"@ && e.details@.len() == 1 && e.details@[0].code == 4004
            && e.details@[0].target@ == "channel"@ && e.details@[0].message@
            == "channel must belong to the server in the path"@ && e.innererror is None,
{
    if rows_affected == 0 {
        return Err(channel_not_found());
    }
    Ok(())
}

} // verus!
