//! The rules of the role routes: nobody confers a permission they do not
//! hold, whether by creating, editing or handing out a role.

use vstd::prelude::*;

use crate::api_errors::{ApplicationError, ErrorDetail, BAD_REQUEST, FORBIDDEN, NOT_FOUND, is_plain_error};
use crate::permission::{holds_all, missing_permissions, within, ADD_ROLE, MANAGE_ROLES};

verus! {

/// The answer to a caller who tries to confer permissions they lack.
pub fn escalation_refused(verb_grant: bool) -> (r: ApplicationError)
    ensures
        verb_grant ==> is_plain_error(r, FORBIDDEN, "user can not grant permissions they do no have"@, "user"@),
        !verb_grant ==> is_plain_error(r, FORBIDDEN, "user can not set permissions they do no have"@, "user"@),
{
    if verb_grant {
        ApplicationError::new(FORBIDDEN, "user can not grant permissions they do no have", "user", Vec::new(), None)
    } else {
        ApplicationError::new(FORBIDDEN, "user can not set permissions they do no have", "user", Vec::new(), None)
    }
}

/// The mask of a new role: what was asked (nothing by default), provided the
/// caller holds MANAGE_ROLES and every permission of the mask.
pub fn check_create_role(caller: u64, mask: Option<u64>) -> (r: Result<u64, ApplicationError>)
    ensures
        !holds_all(caller, MANAGE_ROLES) ==> (r matches Err(e) && is_plain_error(
            e,
            FORBIDDEN,
            "user does not have required permissions"@,
            "user"@,
        )),
        holds_all(caller, MANAGE_ROLES) ==> match mask {
            None => r == Ok::<u64, ApplicationError>(0),
            Some(m) => if within(m, caller) {
                r == Ok::<u64, ApplicationError>(m)
            } else {
                r matches Err(e) && is_plain_error(
                    e,
                    FORBIDDEN,
                    "user can not set permissions they do no have"@,
                    "user"@,
                )
            },
        },
        r matches Ok(m) ==> within(m, caller),
{
    if caller & MANAGE_ROLES != MANAGE_ROLES {
        return Err(missing_permissions());
    }
    let m = match mask {
        Some(m) => m,
        None => 0,
    };
    assert(m == 0 ==> m & !caller == 0) by (bit_vector);
    if m & !caller != 0 {
        return Err(escalation_refused(false));
    }
    Ok(m)
}

/// A role patch that changes nothing is refused before anything else.
pub fn check_role_patch_body(
    name: &Option<String>,
    bg_color: &Option<String>,
    fg_color: &Option<String>,
    mask: Option<u64>,
) -> (r: Result<(), ApplicationError>)
    ensures
        r is Ok <==> (name is Some || bg_color is Some || fg_color is Some || mask is Some),
        r matches Err(e) ==> is_plain_error(e, BAD_REQUEST, "patch body is empty"@, "body"@),
{
    if mask.is_none() && name.is_none() && bg_color.is_none() && fg_color.is_none() {
        return Err(ApplicationError::new(BAD_REQUEST, "patch body is empty", "body", Vec::new(), None));
    }
    Ok(())
}

/// A role patch by `caller` takes MANAGE_ROLES, and a new mask must grant
/// nothing the caller lacks.
pub fn check_role_patch(caller: u64, mask: Option<u64>) -> (r: Result<(), ApplicationError>)
    ensures
        r is Ok <==> holds_all(caller, MANAGE_ROLES) && match mask {
            Some(m) => within(m, caller),
            None => true,
        },
        !holds_all(caller, MANAGE_ROLES) ==> (r matches Err(e) && is_plain_error(
            e,
            FORBIDDEN,
            "user does not have required permissions"@,
            "user"@,
        )),
        holds_all(caller, MANAGE_ROLES) && (mask matches Some(m) && !within(m, caller)) ==> (
        r matches Err(e) && is_plain_error(
            e,
            FORBIDDEN,
            "user can not set permissions they do no have"@,
            "user"@,
        )),
{
    if caller & MANAGE_ROLES != MANAGE_ROLES {
        return Err(missing_permissions());
    }
    if let Some(m) = mask {
        if m & !caller != 0 {
            return Err(escalation_refused(false));
        }
    }
    Ok(())
}

/// The verdict on a role patch, checks in the route's order: a body that
/// changes nothing is refused before the caller's permissions `caller` are
/// looked at; then MANAGE_ROLES is needed, and a new mask may grant nothing
/// the caller lacks.
pub fn decide_role_patch(
    name: &Option<String>,
    bg_color: &Option<String>,
    fg_color: &Option<String>,
    mask: Option<u64>,
    caller: u64,
) -> (r: Result<(), ApplicationError>)
    ensures
        !(name is Some || bg_color is Some || fg_color is Some || mask is Some) ==> (r matches Err(e)
            && is_plain_error(e, BAD_REQUEST, "patch body is empty"@, "body"@)),
        (name is Some || bg_color is Some || fg_color is Some || mask is Some) ==> {
            &&& (r is Ok <==> holds_all(caller, MANAGE_ROLES) && match mask {
                Some(m) => within(m, caller),
                None => true,
            })
            &&& (!holds_all(caller, MANAGE_ROLES) ==> (r matches Err(e) && is_plain_error(
                e,
                FORBIDDEN,
                "user does not have required permissions"@,
                "user"@,
            )))
            &&& (holds_all(caller, MANAGE_ROLES) && (mask matches Some(m) && !within(m, caller)) ==> (
            r matches Err(e) && is_plain_error(
                e,
                FORBIDDEN,
                "user can not set permissions they do no have"@,
                "user"@,
            )))
        },
{
    check_role_patch_body(name, bg_color, fg_color, mask)?;
    check_role_patch(caller, mask)
}

/// The answer when the server, role and member of a role assignment do not
/// belong together; which of them is missing is not told.
pub fn role_member_not_found() -> (r: ApplicationError)
    ensures
        r.code == NOT_FOUND,
        r.message@ == "no such role or member in this server"@,
        r.target@ == "body"@,
        r.details@.len() == 1,
        r.details@[0].code == 4001,
        r.details@[0].target@ == "target"@,
        r.details@[0].message@ == "role and target must both belong to the server in the path"@,
        r.innererror is None,
{
    ApplicationError::new(
        NOT_FOUND,
        "no such role or member in this server",
        "body",
        vec![ErrorDetail::new(4001, "target", "role and target must both belong to the server in the path")],
        None,
    )
}

/// Handing out a role takes ADD_ROLE.
pub fn check_add_role_permission(caller: u64) -> (r: Result<(), ApplicationError>)
    ensures
        r is Ok <==> holds_all(caller, ADD_ROLE),
        r matches Err(e) ==> is_plain_error(e, FORBIDDEN, "user does not have required permissions"@, "user"@),
{
    if caller & ADD_ROLE != ADD_ROLE {
        return Err(missing_permissions());
    }
    Ok(())
}

/// Handing out a role found in the server (its stored mask given) grants
/// nothing the caller lacks; a role not in the server is not found.
pub fn check_role_grant(caller: u64, role_mask: Option<i64>) -> (r: Result<(), ApplicationError>)
    ensures
        match role_mask {
            None => r matches Err(e) && e.code == NOT_FOUND && e.message@
                == "no such role or member in this server"@,
            Some(m) => if within(m as u64, caller) {
                r is Ok
            } else {
                r matches Err(e) && is_plain_error(
                    e,
                    FORBIDDEN,
                    "user can not grant permissions they do no have"@,
                    "user"@,
                )
            },
        },
{
    match role_mask {
        None => Err(role_member_not_found()),
        Some(m) => {
            if (m as u64) & !caller != 0 {
                return Err(escalation_refused(true));
            }
            Ok(())
        },
    }
}

/// Law: whatever route confers a role's permissions (creating, editing or
/// handing it out), the holder ends up with no permission the granting
/// caller lacks: adding the role's mask to the caller's own permissions
/// changes nothing.
pub proof fn law_no_escalation(caller: u64, mask: u64)
    requires
        within(mask, caller),
    ensures
        caller | mask == caller,
        forall|required: u64| holds_all(mask, required) ==> holds_all(caller, required),
{
    assert(mask & !caller == 0 ==> caller | mask == caller) by (bit_vector);
    assert forall|required: u64| holds_all(mask, required) implies holds_all(caller, required) by {
        assert((mask & !caller == 0 && mask & required == required) ==> caller & required == required)
            by (bit_vector);
    }
}

} // verus!
