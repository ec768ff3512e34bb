//! The records the server stores and returns. Ids are UUIDs as integers and
//! times are nanoseconds since the Unix epoch.

use vstd::prelude::*;

use crate::permission::ChannelKind;

verus! {

/// A channel: of a server, or a direct conversation without one.
#[derive(Debug, Clone)]
pub struct Channel {
    pub id: u128,
    pub kind: ChannelKind,
    pub server_id: Option<u128>,
    pub name: String,
    pub category: Option<String>,
}

/// A server.
#[derive(Debug, Clone)]
pub struct Server {
    pub id: u128,
    pub name: String,
    pub owner_id: u128,
    pub created_at: i128,
    pub icon: Option<String>,
}

/// The membership of a user in a server.
#[derive(Debug, Clone)]
pub struct ServerMember {
    pub id: String,
    pub server_id: u128,
    pub user_id: u128,
}

/// A role of a server and the permissions it grants.
#[derive(Debug, Clone)]
pub struct Role {
    pub id: u128,
    pub server_id: u128,
    pub name: String,
    pub fg_color: Option<String>,
    pub bg_color: Option<String>,
    pub mask: i64,
}

/// A role held by a membership: `member_id` names the membership, not the
/// user.
#[derive(Debug, Clone, Copy)]
pub struct RoleMember {
    pub role_id: u128,
    pub member_id: u128,
}

/// A stored message. Times are nanoseconds since the Unix epoch.
#[derive(Debug, Clone)]
pub struct Message {
    pub id: u128,
    pub channel_id: u128,
    pub user_id: Option<u128>,
    pub content: String,
    pub created_at: i128,
    pub edited_at: Option<i128>,
    pub deleted_at: Option<i128>,
}

/// An invite as stored. Times are nanoseconds since the Unix epoch.
#[derive(Debug, Clone)]
pub struct Invite {
    pub id: String,
    pub server_id: u128,
    pub created_by: Option<u128>,
    pub expires_at: Option<i128>,
    pub max_uses: i64,
    pub uses: i64,
    pub revoked: bool,
}

} // verus!
