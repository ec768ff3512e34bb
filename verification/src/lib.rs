//! Hermes: the verified core of a chat server and of its voice overlay.
//!
//! Every module holds the decisions of one area of the service as plain
//! functions over plain values; the I/O around them (HTTP, database, sockets)
//! lives in the application crate.

mod api_errors;
mod authorize;
mod bearer;
mod channels;
mod clock;
mod codec;
mod cursor;
mod friends;
mod jws;
mod jwt;
mod messages;
mod models;
mod oauth_errors;
mod overlay;
mod permission;
mod pkce;
mod render;
mod roles;
mod scope;
mod servers;
mod session;
mod startup;
mod text;
mod token;
mod turnstile;
mod urls;
mod validation;
mod voice_state;

pub use api_errors::{
    ApplicationError, DbError, ErrorDetail, InnerError, BAD_REQUEST, FORBIDDEN, GONE,
    INTERNAL_SERVER_ERROR, NOT_FOUND, UNAUTHORIZED,
};
pub use authorize::{
    authorize_scope, authorize_user, build_error_redirect, code_redirect, login_redirect,
    AuthorizeErrorResponse, OAuthErrorBody,
};
pub use bearer::{
    bearer_from_authorization, extract_bearer_token, require_bearer, socket_auth_missing,
    socket_auth_rejected, socket_claims, socket_token, AuthError, BEARER_PREFIX,
    BEARER_SUBPROTOCOL,
};
pub use channels::{
    channel_not_found, channel_patch, decide_channel_patch, require_channel_changed, ChannelPatch,
};
pub use cursor::{
    encode_cursor, make_cursor_error, page_messages, parse_cursor, MessageQueryResult, PAGE_SIZE,
};
pub use friends::{
    accept_friend_request, accept_friend_request_as, DmParticipant, FriendRequest, FriendRequestType, RequestAction,
};
pub use jws::{header_view, sign_compact_token, verify_compact_token, JwsHeader, VerifiedToken};
pub use jwt::{
    access_claims, check_access_claims, check_access_claims_now, check_refresh_claims,
    check_refresh_claims_now, compute_jwk_thumbprint, jwk_of, public_key_of_pem, refresh_claims,
    resource_audience, EXPIRY_LEEWAY_SECS,
    server_endpoints, Claims, Jwk, RefreshClaims, ServerEndpoints, ACCESS_TOKEN_LIFETIME,
    REFRESH_TOKEN_LIFETIME,
};
pub use messages::{
    check_post, delete_scope, invalid_channel_type, require_message_channel, require_one_row,
    require_voice_channel, edit_scope, MessageScope,
};
pub use models::{Channel, Invite, Message, Role, RoleMember, Server, ServerMember};
pub use oauth_errors::{
    authorize_error_body, JwtError, OAuthAuthorizeError, OAuthErrorType, OAuthTokenError,
};
pub use overlay::{
    idle_view, participant_row, room_view, view, window_step, DotStatus, PanelView,
    ParticipantRow, WindowAction, WindowEvent,
};
pub use permission::{
    channel_lookup, dm_channel_access, effective_permissions, grants_only_held, has_permissions,
    missing_permissions, required_permissions, server_channel_access, ChannelAccess, ChannelKind,
    ChannelLookup, ChannelRow, ChannelScope, PermissionRow, ADD_ROLE, ALL_PERMS, BASE_PERMS,
    CREATE_INVITE, MANAGE_CHANNELS, MANAGE_INVITES, MANAGE_MESSAGES, MANAGE_ROLES, MANAGE_SERVER,
    MANAGE_USERS, REMOVE_ROLE, SEND_MESSAGES, VIEW_CHANNELS,
};
pub use pkce::{generate_code, is_valid_pkce_charset, validate_pkce};
pub use render::{rgba_to_bgra, StubBackend, BYTES_PER_PIXEL};
pub use roles::{
    check_add_role_permission, check_create_role, check_role_grant, check_role_patch,
    check_role_patch_body, decide_role_patch, escalation_refused, role_member_not_found,
};
pub use scope::{
    parse_scopes, scopes_from_stored, scopes_to_string, OAuthAuthorizeQuery, Scope,
    OAUTH_CLIENT_ID, OAUTH_DEV_REDIRECT_URI, OAUTH_REDIRECT_URI,
};
pub use servers::{
    check_invite, check_member_removal, check_server_patch, create_invite, decide_join, invite_max_uses,
    invite_no_longer_usable, join_step, new_invite, require_use_spent, JoinStep,
    DEFAULT_INVITE_USES, INVITE_CODE_LEN, INVITE_LIFETIME_SECS,
};
pub use session::{SessionError, SessionRegistry};
pub use startup::{check_session_secret, validate_env, ApiDoc, SESSION_SECRET_MIN_BYTES};
pub use token::{
    decide_code_grant, decide_code_grant_now, decide_refresh, revocation_target, token_response,
    issue_grant, new_grant, AuthorizationCode, CodeExchange, GRANT_LIFETIME_SECS, OAuthRevokeRequest, OAuthTokenRequest, OAuthTokenResponse,
    RefreshExchange, RefreshToken, TokenRefusal,
};
pub use turnstile::{
    avatar_url, check_turnstile, invalid_credentials, login_decision, remote_ip_missing, render_auth_page,
    turnstile_refused, turnstile_unavailable, user_already_exists, AuthPageError, Metadata,
    TurnstileError, TurnstileResponse,
};
pub use validation::{
    non_control_character, valid_length, validate_invite_code, CreateChannelPayload,
    CreateInvitePayload, CreateRolePayload, DeleteInviteQuery, LoginRequest,
    PatchChannelPayload, PatchRolePayload, PatchServerPayload, PostJoinServerPayload,
    PostServerPayload, SignupFormRequest,
};
pub use voice_state::{ActiveRoom, Participant, RoomState, VoiceEvent};
