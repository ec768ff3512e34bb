//! The checks request bodies pass before a handler runs: lengths counted in
//! characters, no control characters, URLs and e-mail addresses that parse,
//! numbers in range. A body that fails them is refused with the names of the
//! fields at fault, in the order the body declares them.

use vstd::prelude::*;
use vstd::string::{StrSliceExecFns, StringExecFns};

use crate::permission::ChannelKind;
use crate::text::views;

verus! {

/// `validator` accepts `s` as an e-mail address (the HTML5 definition, with
/// length limits on both parts and international domains).
pub uninterp spec fn email_valid_spec(s: Seq<char>) -> bool;

/// `validator` accepts `s` as a URL: the `url` crate parses it.
pub uninterp spec fn url_valid_spec(s: Seq<char>) -> bool;

/// Calls `validator::ValidateEmail::validate_email`. Claims that the answer
/// is the one named by `email_valid_spec`, and, as its source shows, that an
/// accepted address holds an `@`.
#[verifier::external_body]
fn email_valid(s: &str) -> (r: bool)
    ensures
        r == email_valid_spec(s@),
        r ==> s@.contains('@'),
{
    validator::ValidateEmail::validate_email(&s)
}

/// Calls `validator::ValidateUrl::validate_url`. Claims that the answer is
/// the one named by `url_valid_spec`.
#[verifier::external_body]
fn url_valid(s: &str) -> (r: bool)
    ensures
        r == url_valid_spec(s@),
{
    validator::ValidateUrl::validate_url(&s)
}

/// The number of characters of `s` lies within the bounds that are given.
pub open spec fn length_ok(s: Seq<char>, min: Option<nat>, max: Option<nat>) -> bool {
    &&& (min matches Some(m) ==> s.len() >= m)
    &&& (max matches Some(m) ==> s.len() <= m)
}

/// `c` is a control character (general category Cc), as `char::is_control`
/// tells.
pub open spec fn is_control(c: char) -> bool {
    c <= '\u{1f}' || ('\u{7f}' <= c <= '\u{9f}')
}

/// `s` holds no control character.
pub open spec fn no_control(s: Seq<char>) -> bool {
    forall|i: int| 0 <= i < s.len() ==> !is_control(#[trigger] s[i])
}

/// The number of characters of `s` lies within the bounds that are given.
pub fn valid_length(s: &str, min: Option<u64>, max: Option<u64>) -> (r: bool)
    ensures
        r == length_ok(
            s@,
            match min {
                Some(m) => Some(m as nat),
                None => None::<nat>,
            },
            match max {
                Some(m) => Some(m as nat),
                None => None::<nat>,
            },
        ),
{
    let n = s.unicode_len();
    if let Some(m) = min {
        if (n as u64) < m {
            return false;
        }
    }
    if let Some(m) = max {
        if (n as u64) > m {
            return false;
        }
    }
    true
}

/// `s` holds no control character.
pub fn non_control_character(s: &str) -> (r: bool)
    ensures
        r == no_control(s@),
{
    let n = s.unicode_len();
    let mut i: usize = 0;
    while i < n
        invariant
            n == s@.len(),
            0 <= i <= n,
            forall|k: int| 0 <= k < i ==> !is_control(#[trigger] s@[k]),
        decreases n - i,
    {
        let c = s.get_char(i);
        if c <= '\u{1f}' || ('\u{7f}' <= c && c <= '\u{9f}') {
            return false;
        }
        i = i + 1;
    }
    true
}

/// The field `name`, listed when its check failed.
pub open spec fn flag(ok: bool, name: Seq<char>) -> Seq<Seq<char>> {
    if ok {
        Seq::empty()
    } else {
        seq![name]
    }
}

fn note(errs: &mut Vec<String>, ok: bool, name: &str)
    ensures
        views(final(errs)@) == views(old(errs)@) + flag(ok, name@),
{
    let ghost before = errs@;
    if !ok {
        errs.push(name.to_owned());
        assert(views(errs@) =~= views(before) + flag(ok, name@));
    } else {
        assert(views(errs@) =~= views(before) + flag(ok, name@));
    }
}

/// The result of a check: accepted when no field is at fault, else the
/// fields at fault.
pub open spec fn reports(r: Result<(), Vec<String>>, faults: Seq<Seq<char>>) -> bool {
    match r {
        Ok(_) => faults.len() == 0,
        Err(v) => faults.len() > 0 && views(v@) == faults,
    }
}

fn verdict(errs: Vec<String>) -> (r: Result<(), Vec<String>>)
    ensures
        reports(r, views(errs@)),
{
    if errs.len() == 0 {
        Ok(())
    } else {
        Err(errs)
    }
}

/// A name of 3 to 255 characters without control characters.
pub open spec fn name_ok(s: Seq<char>) -> bool {
    length_ok(s, Some(3), Some(255)) && no_control(s)
}

fn check_name(s: &str) -> (r: bool)
    ensures
        r == name_ok(s@),
{
    valid_length(s, Some(3), Some(255)) && non_control_character(s)
}

/// An optional field passes when absent.
pub open spec fn opt_ok(f: Option<String>, ok: spec_fn(Seq<char>) -> bool) -> bool {
    match f {
        Some(s) => ok(s@),
        None => true,
    }
}

/// A colour written `#rrggbb`: exactly seven characters.
pub open spec fn color_ok(s: Seq<char>) -> bool {
    s.len() == 7
}

/// The login form.
#[derive(Debug, Clone)]
pub struct LoginRequest {
    pub username: String,
    pub password: String,
    pub cf_token: String,
}

/// The fields of a login form at fault: a username of 4 to 255 characters, a
/// password of 8 to 384, a Turnstile token of at most 2048.
pub open spec fn login_faults(f: LoginRequest) -> Seq<Seq<char>> {
    flag(length_ok(f.username@, Some(4), Some(255)), "username"@) + flag(
        length_ok(f.password@, Some(8), Some(384)),
        "password"@,
    ) + flag(length_ok(f.cf_token@, None, Some(2048)), "cf_token"@)
}

impl LoginRequest {
    /// Checks the form.
    pub fn validate(&self) -> (r: Result<(), Vec<String>>)
        ensures
            reports(r, login_faults(*self)),
    {
        let mut errs: Vec<String> = Vec::new();
        note(&mut errs, valid_length(self.username.as_str(), Some(4), Some(255)), "username");
        note(&mut errs, valid_length(self.password.as_str(), Some(8), Some(384)), "password");
        note(&mut errs, valid_length(self.cf_token.as_str(), None, Some(2048)), "cf_token");
        verdict(errs)
    }
}

/// The signup form.
#[derive(Debug, Clone)]
pub struct SignupFormRequest {
    pub username: String,
    pub password: String,
    pub email: String,
    pub cf_token: String,
}

/// The fields of a signup form at fault: a username of 4 to 255 characters,
/// a password of 8 to 255, an e-mail address, a Turnstile token of at most
/// 2048.
pub open spec fn signup_faults(f: SignupFormRequest) -> Seq<Seq<char>> {
    flag(length_ok(f.username@, Some(4), Some(255)), "username"@) + flag(
        length_ok(f.password@, Some(8), Some(255)),
        "password"@,
    ) + flag(email_valid_spec(f.email@), "email"@) + flag(
        length_ok(f.cf_token@, None, Some(2048)),
        "cf_token"@,
    )
}

impl SignupFormRequest {
    /// Checks the form.
    pub fn validate(&self) -> (r: Result<(), Vec<String>>)
        ensures
            reports(r, signup_faults(*self)),
    {
        let mut errs: Vec<String> = Vec::new();
        note(&mut errs, valid_length(self.username.as_str(), Some(4), Some(255)), "username");
        note(&mut errs, valid_length(self.password.as_str(), Some(8), Some(255)), "password");
        note(&mut errs, email_valid(self.email.as_str()), "email");
        note(&mut errs, valid_length(self.cf_token.as_str(), None, Some(2048)), "cf_token");
        verdict(errs)
    }
}

/// The body of a channel creation.
#[derive(Debug, Clone)]
pub struct CreateChannelPayload {
    pub name: String,
    pub category: Option<String>,
    pub kind: ChannelKind,
}

/// The fields of a channel creation at fault: the name and the category, if
/// any, are 3 to 255 characters without control characters.
pub open spec fn create_channel_faults(p: CreateChannelPayload) -> Seq<Seq<char>> {
    flag(name_ok(p.name@), "name"@) + flag(opt_ok(p.category, |s: Seq<char>| name_ok(s)), "category"@)
}

impl CreateChannelPayload {
    /// Checks the body.
    pub fn validate(&self) -> (r: Result<(), Vec<String>>)
        ensures
            reports(r, create_channel_faults(*self)),
    {
        let mut errs: Vec<String> = Vec::new();
        note(&mut errs, check_name(self.name.as_str()), "name");
        let category_ok = match &self.category {
            Some(c) => check_name(c.as_str()),
            None => true,
        };
        note(&mut errs, category_ok, "category");
        verdict(errs)
    }
}

/// The body of a channel update.
#[derive(Debug, Clone)]
pub struct PatchChannelPayload {
    pub name: Option<String>,
    pub category: Option<String>,
}

/// The fields of a channel update at fault: a new name is 3 to 255
/// characters, a new category at most 255, neither with control characters.
pub open spec fn patch_channel_faults(p: PatchChannelPayload) -> Seq<Seq<char>> {
    flag(opt_ok(p.name, |s: Seq<char>| name_ok(s)), "name"@) + flag(
        opt_ok(p.category, |s: Seq<char>| length_ok(s, None, Some(255)) && no_control(s)),
        "category"@,
    )
}

impl PatchChannelPayload {
    /// Checks the body.
    pub fn validate(&self) -> (r: Result<(), Vec<String>>)
        ensures
            reports(r, patch_channel_faults(*self)),
    {
        let mut errs: Vec<String> = Vec::new();
        let name_ok = match &self.name {
            Some(n) => check_name(n.as_str()),
            None => true,
        };
        note(&mut errs, name_ok, "name");
        let category_ok = match &self.category {
            Some(c) => valid_length(c.as_str(), None, Some(255)) && non_control_character(c.as_str()),
            None => true,
        };
        note(&mut errs, category_ok, "category");
        verdict(errs)
    }
}

/// The body of a server creation.
#[derive(Debug, Clone)]
pub struct PostServerPayload {
    pub name: String,
    pub icon: Option<String>,
}

/// The body of a server update.
#[derive(Debug, Clone)]
pub struct PatchServerPayload {
    pub name: Option<String>,
    pub icon: Option<String>,
}

/// The fields of a server body at fault: a name of 3 to 255 characters
/// without control characters, an icon that is a URL; absent fields pass.
pub open spec fn server_faults(name: Option<String>, icon: Option<String>) -> Seq<Seq<char>> {
    flag(opt_ok(name, |s: Seq<char>| name_ok(s)), "name"@) + flag(
        opt_ok(icon, |s: Seq<char>| url_valid_spec(s)),
        "icon"@,
    )
}

fn check_server(name: Option<&str>, icon: Option<&str>) -> (r: Result<(), Vec<String>>)
    ensures
        reports(
            r,
            flag(
                match name {
                    Some(n) => name_ok(n@),
                    None => true,
                },
                "name"@,
            ) + flag(
                match icon {
                    Some(i) => url_valid_spec(i@),
                    None => true,
                },
                "icon"@,
            ),
        ),
{
    let mut errs: Vec<String> = Vec::new();
    let name_ok = match name {
        Some(n) => check_name(n),
        None => true,
    };
    note(&mut errs, name_ok, "name");
    let icon_ok = match icon {
        Some(i) => url_valid(i),
        None => true,
    };
    note(&mut errs, icon_ok, "icon");
    verdict(errs)
}

impl PostServerPayload {
    /// Checks the body.
    pub fn validate(&self) -> (r: Result<(), Vec<String>>)
        ensures
            reports(r, server_faults(Some(self.name), self.icon)),
    {
        let icon = match &self.icon {
            Some(i) => Some(i.as_str()),
            None => None,
        };
        check_server(Some(self.name.as_str()), icon)
    }
}

impl PatchServerPayload {
    /// Checks the body.
    pub fn validate(&self) -> (r: Result<(), Vec<String>>)
        ensures
            reports(r, server_faults(self.name, self.icon)),
    {
        let name = match &self.name {
            Some(n) => Some(n.as_str()),
            None => None,
        };
        let icon = match &self.icon {
            Some(i) => Some(i.as_str()),
            None => None,
        };
        check_server(name, icon)
    }
}

/// The body of a role creation.
#[derive(Debug, Clone)]
pub struct CreateRolePayload {
    pub name: String,
    /// `#rrggbb`.
    pub fg_color: Option<String>,
    /// `#rrggbb`.
    pub bg_color: Option<String>,
    pub mask: Option<u64>,
}

/// The body of a role update.
#[derive(Debug, Clone)]
pub struct PatchRolePayload {
    pub name: Option<String>,
    pub bg_color: Option<String>,
    pub fg_color: Option<String>,
    pub mask: Option<u64>,
}

/// The fields of a role body at fault: a name of 3 to 255 characters without
/// control characters, colours of exactly seven characters; absent fields
/// pass.
pub open spec fn role_faults(name: Option<String>, fg_color: Option<String>, bg_color: Option<String>) -> Seq<Seq<char>> {
    flag(opt_ok(name, |s: Seq<char>| name_ok(s)), "name"@) + flag(
        opt_ok(fg_color, |s: Seq<char>| color_ok(s)),
        "fg_color"@,
    ) + flag(opt_ok(bg_color, |s: Seq<char>| color_ok(s)), "bg_color"@)
}

fn check_color(c: &Option<String>) -> (r: bool)
    ensures
        r == opt_ok(*c, |s: Seq<char>| color_ok(s)),
{
    match c {
        Some(c) => valid_length(c.as_str(), Some(7), Some(7)),
        None => true,
    }
}

impl CreateRolePayload {
    /// Checks the body.
    pub fn validate(&self) -> (r: Result<(), Vec<String>>)
        ensures
            reports(r, role_faults(Some(self.name), self.fg_color, self.bg_color)),
    {
        let mut errs: Vec<String> = Vec::new();
        note(&mut errs, check_name(self.name.as_str()), "name");
        note(&mut errs, check_color(&self.fg_color), "fg_color");
        note(&mut errs, check_color(&self.bg_color), "bg_color");
        verdict(errs)
    }
}

impl PatchRolePayload {
    /// Checks the body.
    pub fn validate(&self) -> (r: Result<(), Vec<String>>)
        ensures
            reports(r, role_faults(self.name, self.fg_color, self.bg_color)),
    {
        let mut errs: Vec<String> = Vec::new();
        let name_ok = match &self.name {
            Some(n) => check_name(n.as_str()),
            None => true,
        };
        note(&mut errs, name_ok, "name");
        note(&mut errs, check_color(&self.fg_color), "fg_color");
        note(&mut errs, check_color(&self.bg_color), "bg_color");
        verdict(errs)
    }
}

/// The body of an invite creation.
#[derive(Debug, Clone, Copy)]
pub struct CreateInvitePayload {
    pub max_uses: Option<i64>,
}

/// The fields of an invite creation at fault: a maximum of uses, if given,
/// from 1 to 255.
pub open spec fn create_invite_faults(p: CreateInvitePayload) -> Seq<Seq<char>> {
    flag(
        match p.max_uses {
            Some(n) => 1 <= n <= 255,
            None => true,
        },
        "max_uses"@,
    )
}

impl CreateInvitePayload {
    /// Checks the body.
    pub fn validate(&self) -> (r: Result<(), Vec<String>>)
        ensures
            reports(r, create_invite_faults(*self)),
    {
        let mut errs: Vec<String> = Vec::new();
        let ok = match self.max_uses {
            Some(n) => 1 <= n && n <= 255,
            None => true,
        };
        note(&mut errs, ok, "max_uses");
        verdict(errs)
    }
}

/// An invite code as a request names it: exactly 21 characters.
pub open spec fn invite_code_ok(s: Seq<char>) -> bool {
    s.len() == 21
}

/// Checks an invite code named by a request (to join with it, or to revoke
/// it), under the name of its field.
pub fn validate_invite_code(code: &str, field: &str) -> (r: Result<(), Vec<String>>)
    ensures
        reports(r, flag(invite_code_ok(code@), field@)),
{
    let mut errs: Vec<String> = Vec::new();
    note(&mut errs, valid_length(code, Some(21), Some(21)), field);
    verdict(errs)
}

/// The query of an invite revocation.
#[derive(Debug, Clone)]
pub struct DeleteInviteQuery {
    pub id: String,
}

impl DeleteInviteQuery {
    /// Checks the query: the id is an invite code.
    pub fn validate(&self) -> (r: Result<(), Vec<String>>)
        ensures
            reports(r, flag(invite_code_ok(self.id@), "id"@)),
    {
        validate_invite_code(self.id.as_str(), "id")
    }
}

/// The body of a join.
#[derive(Debug, Clone)]
pub struct PostJoinServerPayload {
    pub invite_code: String,
}

impl PostJoinServerPayload {
    /// Checks the body: the code is an invite code.
    pub fn validate(&self) -> (r: Result<(), Vec<String>>)
        ensures
            reports(r, flag(invite_code_ok(self.invite_code@), "invite_code"@)),
    {
        validate_invite_code(self.invite_code.as_str(), "invite_code")
    }
}

} // verus!
