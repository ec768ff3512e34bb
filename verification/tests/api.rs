use hermes::{
    accept_friend_request, accept_friend_request_as, channel_lookup, channel_not_found, channel_patch,
    check_add_role_permission, check_create_role, check_invite, check_member_removal, check_post,
    check_role_grant, check_role_patch, check_role_patch_body, check_server_patch, decide_channel_patch,
    decide_join, decide_role_patch, delete_scope,
    edit_scope,
    dm_channel_access, effective_permissions, encode_cursor, grants_only_held, has_permissions,
    invite_max_uses, join_step, make_cursor_error, page_messages, parse_cursor,
    require_channel_changed, require_message_channel, require_one_row, require_use_spent,
    require_voice_channel, required_permissions, role_member_not_found, server_channel_access,
    validate_invite_code, ApplicationError, ChannelAccess, ChannelKind, ChannelLookup,
    ChannelPatch, ChannelRow, ChannelScope, CreateChannelPayload, CreateInvitePayload, DbError,
    MessageScope, DmParticipant, ErrorDetail, FriendRequest, InnerError, Invite, JoinStep, LoginRequest,
    Message, PatchChannelPayload, PermissionRow, SignupFormRequest, ADD_ROLE, ALL_PERMS, BASE_PERMS, MANAGE_CHANNELS, MANAGE_MESSAGES,
    MANAGE_ROLES, MANAGE_SERVER, MANAGE_USERS, PAGE_SIZE, SEND_MESSAGES, VIEW_CHANNELS,
};

fn server_access(kind: ChannelKind, perms: u64) -> ChannelAccess {
    ChannelAccess { kind, scope: ChannelScope::Server { id: 1, perms } }
}

#[test]
fn error_constructors() {
    let d = ErrorDetail::new(4001, "body", "bad");
    assert_eq!((d.code, d.target.as_str(), d.message.as_str()), (4001, "body", "bad"));
    let e = ApplicationError::not_found("server");
    assert_eq!(e.code, 404);
    assert_eq!(e.message, "no such server");
    assert_eq!(e.target, "path");
    assert_eq!(e.details[0].code, 4004);
    assert_eq!(e.details[0].target, "server");
    let e = ApplicationError::bad_request("why", "query", vec![]);
    assert_eq!((e.code, e.message.as_str(), e.target.as_str()), (400, "why", "query"));
    let ctx = InnerError::labeled("db".to_string(), "down".to_string());
    assert_eq!(ctx.trace(), &vec!["db".to_string(), "down".to_string()]);
    let e = ApplicationError::new(418, "teapot", "kettle", vec![], Some(InnerError::new("hot".to_string())));
    assert_eq!(e.innererror.unwrap().trace(), &vec!["hot".to_string()]);
}

#[test]
fn database_failures_map_to_statuses() {
    let e = ApplicationError::from_db_error(DbError::Database("UNIQUE constraint failed".to_string()));
    assert_eq!(e.code, 400);
    assert_eq!(e.message, "Bad Request");
    assert_eq!(e.details[0].code, 400);
    assert_eq!(e.details[0].target, "query");
    assert_eq!(e.details[0].message, "UNIQUE constraint failed");
    let e = ApplicationError::from_db_error(DbError::RowNotFound);
    assert_eq!((e.code, e.message.as_str(), e.target.as_str()), (500, "Internal Server Error", "server"));
    assert!(e.details.is_empty());
    let e = ApplicationError::from_db_error(DbError::Other("pool timed out".to_string()));
    assert_eq!((e.code, e.target.as_str()), (500, "server"));
    assert_eq!(e.innererror.unwrap().trace(), &vec!["pool timed out".to_string()]);
}

#[test]
fn permission_masks() {
    assert!(has_permissions(VIEW_CHANNELS | SEND_MESSAGES, SEND_MESSAGES));
    assert!(!has_permissions(VIEW_CHANNELS, VIEW_CHANNELS | SEND_MESSAGES));
    assert!(has_permissions(0, 0));
    let e = required_permissions(BASE_PERMS, MANAGE_CHANNELS).unwrap_err();
    assert_eq!(e.code, 403);
    assert_eq!(e.message, "user does not have required permissions");
    assert!(required_permissions(ALL_PERMS, MANAGE_CHANNELS).is_ok());
}

#[test]
fn effective_permissions_of_owner_member_and_stranger() {
    let owner = vec![PermissionRow { owner_id: 1, member_id: Some(1), mask: 0 }];
    assert_eq!(effective_permissions(&owner, 1), ALL_PERMS);
    let member = vec![
        PermissionRow { owner_id: 1, member_id: Some(2), mask: MANAGE_MESSAGES as i64 },
        PermissionRow { owner_id: 1, member_id: Some(2), mask: MANAGE_ROLES as i64 },
    ];
    assert_eq!(effective_permissions(&member, 2), BASE_PERMS | MANAGE_MESSAGES | MANAGE_ROLES);
    let stranger = vec![PermissionRow { owner_id: 1, member_id: None, mask: 0 }];
    assert_eq!(effective_permissions(&stranger, 3), 0);
    assert_eq!(effective_permissions(&[], 3), 0);
}

#[test]
fn join_server_grants_only_base_permissions() {
    let fresh = vec![PermissionRow { owner_id: 1, member_id: Some(2), mask: 0 }];
    assert_eq!(effective_permissions(&fresh, 2), BASE_PERMS);
    assert!(!has_permissions(effective_permissions(&fresh, 2), MANAGE_CHANNELS));
}

#[test]
fn create_channel_requires_manage_channels() {
    assert_eq!(required_permissions(BASE_PERMS, MANAGE_CHANNELS).unwrap_err().code, 403);
    assert!(required_permissions(BASE_PERMS | MANAGE_CHANNELS, MANAGE_CHANNELS).is_ok());
}

#[test]
fn kick_user_from_server_rejects_manage_server_alone() {
    assert!(!has_permissions(BASE_PERMS | MANAGE_SERVER, MANAGE_USERS));
    assert!(has_permissions(BASE_PERMS | MANAGE_USERS, MANAGE_USERS));
}

#[test]
fn channel_lookup_and_access() {
    assert_eq!(channel_lookup(None).unwrap_err().message, "no such channel");
    match channel_lookup(Some(ChannelRow { kind: ChannelKind::Text, server_id: Some(7) })).unwrap() {
        ChannelLookup::ServerPermissions { kind, server_id } => {
            assert_eq!(kind, ChannelKind::Text);
            assert_eq!(server_id, 7);
        }
        other => panic!("unexpected {:?}", other),
    }
    assert!(matches!(
        channel_lookup(Some(ChannelRow { kind: ChannelKind::Dm, server_id: None })).unwrap(),
        ChannelLookup::DmMembership { kind: ChannelKind::Dm }
    ));
    let e = server_channel_access(ChannelKind::Text, 7, 0).unwrap_err();
    assert_eq!((e.code, e.message.as_str()), (403, "forbidden"));
    let a = server_channel_access(ChannelKind::Text, 7, BASE_PERMS).unwrap();
    assert_eq!(a.permissions(), Some(BASE_PERMS));
    let e = dm_channel_access(ChannelKind::Dm, 0).unwrap_err();
    assert_eq!((e.code, e.message.as_str()), (404, "no channel exists for this user"));
    let a = dm_channel_access(ChannelKind::Dm, 1).unwrap();
    assert_eq!(a.permissions(), None);
    assert!(a.require(MANAGE_MESSAGES).is_ok());
}

#[test]
fn message_routes_reject_a_voice_channel() {
    let e = require_message_channel(ChannelKind::Voice).unwrap_err();
    assert_eq!((e.code, e.message.as_str()), (400, "invalid channel type"));
    assert!(require_message_channel(ChannelKind::Text).is_ok());
    assert!(require_message_channel(ChannelKind::Dm).is_ok());
    assert!(require_voice_channel(ChannelKind::Voice).is_ok());
    assert!(require_voice_channel(ChannelKind::Text).is_err());
}

#[test]
fn posting_needs_send_messages() {
    assert!(check_post(&server_access(ChannelKind::Text, BASE_PERMS)).is_ok());
    assert_eq!(check_post(&server_access(ChannelKind::Text, VIEW_CHANNELS)).unwrap_err().code, 403);
    assert_eq!(check_post(&server_access(ChannelKind::Voice, ALL_PERMS)).unwrap_err().code, 400);
    assert!(check_post(&ChannelAccess { kind: ChannelKind::Dm, scope: ChannelScope::Dm }).is_ok());
}

#[test]
fn delete_message_allows_a_moderator_to_remove_someone_elses() {
    assert_eq!(delete_scope(&server_access(ChannelKind::Text, BASE_PERMS | MANAGE_MESSAGES)), MessageScope::AnyAuthor);
}

#[test]
fn delete_message_refuses_a_plain_member_someone_elses() {
    assert_eq!(delete_scope(&server_access(ChannelKind::Text, BASE_PERMS)), MessageScope::OwnOnly);
    assert_eq!(delete_scope(&ChannelAccess { kind: ChannelKind::Dm, scope: ChannelScope::Dm }), MessageScope::OwnOnly);
}

#[test]
fn patch_message_for_an_unknown_message_is_not_found() {
    let e = require_one_row(0).unwrap_err();
    assert_eq!((e.code, e.message.as_str()), (404, "no such message"));
    assert!(require_one_row(1).is_ok());
}

#[test]
fn patch_channel_none() {
    let e = channel_patch(None, None).unwrap_err();
    assert_eq!((e.code, e.message.as_str(), e.target.as_str()), (400, "empty body", "body"));
    assert!(matches!(channel_patch(Some("n".into()), None).unwrap(), ChannelPatch::Name { .. }));
    assert!(matches!(channel_patch(None, Some("c".into())).unwrap(), ChannelPatch::Category { .. }));
    assert!(matches!(
        channel_patch(Some("n".into()), Some("c".into())).unwrap(),
        ChannelPatch::NameAndCategory { .. }
    ));
}

#[test]
fn patch_channel_is_scoped_to_the_server_in_the_path() {
    let e = require_channel_changed(0).unwrap_err();
    assert_eq!(e.code, 404);
    assert_eq!(e.message, "no such channel in this server");
    assert!(require_channel_changed(1).is_ok());
    let e = channel_not_found();
    assert_eq!(e.details[0].message, "channel must belong to the server in the path");
}

#[test]
fn create_role_rejects_granting_permissions_the_caller_lacks() {
    let caller = BASE_PERMS | MANAGE_ROLES;
    let e = check_create_role(caller, Some(MANAGE_SERVER)).unwrap_err();
    assert_eq!((e.code, e.message.as_str()), (403, "user can not set permissions they do no have"));
}

#[test]
fn create_role_allows_granting_permissions_the_caller_holds() {
    let caller = BASE_PERMS | MANAGE_ROLES | MANAGE_MESSAGES;
    assert_eq!(check_create_role(caller, Some(MANAGE_MESSAGES)).unwrap(), MANAGE_MESSAGES);
    assert_eq!(check_create_role(caller, None).unwrap(), 0);
}

#[test]
fn create_role_requires_manage_roles() {
    let e = check_create_role(BASE_PERMS, None).unwrap_err();
    assert_eq!((e.code, e.message.as_str()), (403, "user does not have required permissions"));
}

#[test]
fn patch_role_rejects_granting_permissions_the_caller_lacks() {
    assert_eq!(check_role_patch(BASE_PERMS | MANAGE_ROLES, Some(ALL_PERMS)).unwrap_err().code, 403);
    assert!(check_role_patch(BASE_PERMS | MANAGE_ROLES, Some(SEND_MESSAGES)).is_ok());
    assert_eq!(check_role_patch(BASE_PERMS, None).unwrap_err().code, 403);
    let e = check_role_patch_body(&None, &None, &None, None).unwrap_err();
    assert_eq!((e.code, e.message.as_str()), (400, "patch body is empty"));
    assert!(check_role_patch_body(&None, &None, &None, Some(0)).is_ok());
}

#[test]
fn put_role_rejects_granting_permissions_the_caller_lacks() {
    let e = check_role_grant(BASE_PERMS | ADD_ROLE, Some(MANAGE_SERVER as i64)).unwrap_err();
    assert_eq!((e.code, e.message.as_str()), (403, "user can not grant permissions they do no have"));
    assert!(check_role_grant(BASE_PERMS | ADD_ROLE, Some(SEND_MESSAGES as i64)).is_ok());
    let e = check_role_grant(ALL_PERMS, None).unwrap_err();
    assert_eq!(e.code, 404);
    assert_eq!(e.message, role_member_not_found().message);
    assert_eq!(check_add_role_permission(BASE_PERMS).unwrap_err().code, 403);
    assert!(check_add_role_permission(ADD_ROLE).is_ok());
    assert!(grants_only_held(SEND_MESSAGES, BASE_PERMS));
    assert!(!grants_only_held(MANAGE_USERS, BASE_PERMS));
}

fn invite(uses: i64, max_uses: i64, expires_at: Option<i128>, revoked: bool) -> Invite {
    Invite {
        id: "x".repeat(21),
        server_id: 1,
        created_by: Some(2),
        expires_at,
        max_uses,
        uses,
        revoked,
    }
}

#[test]
fn join_server_with_an_unknown_code_is_not_found() {
    let e = check_invite(None, 0).unwrap_err();
    assert_eq!((e.code, e.message.as_str()), (404, "no such invite"));
}

#[test]
fn join_server_refuses_a_dead_invite() {
    for inv in [invite(0, 2, Some(10), true), invite(2, 2, Some(10), false), invite(0, 2, Some(10), false)] {
        let e = check_invite(Some(inv), 11).unwrap_err();
        assert_eq!(e.code, 410);
        assert_eq!(e.message, "invite was revoked, is at max uses, or has expired");
    }
}

#[test]
fn join_server_accepts_an_invite_that_never_expires() {
    assert!(check_invite(Some(invite(1, 2, None, false)), i128::MAX).is_ok());
    assert!(check_invite(Some(invite(1, 2, Some(10), false)), 10).is_ok());
}

#[test]
fn join_server_by_an_existing_member_is_a_no_op() {
    assert_eq!(join_step(1), JoinStep::AlreadyMember);
    assert_eq!(join_step(0), JoinStep::SpendAndJoin);
}

#[test]
fn join_server_exhausts_an_invite_at_max_uses() {
    assert_eq!(require_use_spent(0).unwrap_err().code, 410);
    assert!(require_use_spent(1).is_ok());
}

#[test]
fn leave_server_rejects_the_owner() {
    let e = check_member_removal(Some(5), 5).unwrap_err();
    assert_eq!((e.code, e.message.as_str()), (400, "can not remove owner from server"));
    assert_eq!(e.details[0].code, 4000);
    assert!(check_member_removal(Some(5), 6).is_ok());
}

#[test]
fn leave_server_for_an_unknown_server_is_not_found() {
    assert_eq!(check_member_removal(None, 6).unwrap_err().code, 404);
}

#[test]
fn patch_server_needs_a_name_or_an_icon() {
    assert!(check_server_patch(&Some("n".into()), &Some("i".into())).is_ok());
    assert!(check_server_patch(&Some("n".into()), &None).is_ok());
    assert!(check_server_patch(&None, &Some("i".into())).is_ok());
    let e = check_server_patch(&None, &None).unwrap_err();
    assert_eq!((e.code, e.details[0].code, e.details[0].message.as_str()), (400, 4001, "no values to update"));
}

#[test]
fn create_invite_defaults_max_uses() {
    assert_eq!(invite_max_uses(None), 2);
    assert_eq!(invite_max_uses(Some(9)), 9);
}

#[test]
fn create_invite_rejects_out_of_range_max_uses() {
    assert!(CreateInvitePayload { max_uses: Some(0) }.validate().is_err());
    assert!(CreateInvitePayload { max_uses: Some(256) }.validate().is_err());
    assert!(CreateInvitePayload { max_uses: Some(255) }.validate().is_ok());
    assert!(CreateInvitePayload { max_uses: None }.validate().is_ok());
}

#[test]
fn revoke_invite_rejects_a_malformed_id() {
    assert_eq!(validate_invite_code("short", "id").unwrap_err(), vec!["id".to_string()]);
    assert!(validate_invite_code(&"k".repeat(21), "id").is_ok());
}

#[test]
fn join_server_rejects_a_malformed_code() {
    assert_eq!(validate_invite_code("short", "invite_code").unwrap_err(), vec!["invite_code".to_string()]);
}

#[test]
fn put_friend_request_accept_after_reject_rolls_back() {
    let req = FriendRequest { id: 1, from_user: 9, to_user: 4, rejected: true };
    let e = accept_friend_request(Some(req)).unwrap_err();
    assert_eq!((e.code, e.message.as_str()), (400, "can not operate on a rejected request"));
}

#[test]
fn put_friend_request_accept_for_an_unknown_id_is_not_found() {
    let e = accept_friend_request(None).unwrap_err();
    assert_eq!((e.code, e.message.as_str()), (404, "no such friend request"));
}

#[test]
fn put_friend_request_accept_opens_a_dm_channel() {
    let req = FriendRequest { id: 1, from_user: 9, to_user: 4, rejected: false };
    assert_eq!(accept_friend_request(Some(req)).unwrap(), (4, 9));
    assert_eq!(DmParticipant::canonical_pair(4, 9), DmParticipant::canonical_pair(9, 4));
    assert_eq!(DmParticipant::canonical_pair(3, 3), (3, 3));
}

fn row(id: u128, created_at: i128) -> Message {
    Message {
        id,
        channel_id: 1,
        user_id: Some(2),
        content: format!("m{}", id),
        created_at,
        edited_at: None,
        deleted_at: None,
    }
}

#[test]
fn cursors_round_trip() {
    let c = encode_cursor(0, 1).unwrap();
    assert_eq!(c, "MTk3MC0wMS0wMVQwMDowMDowMFosMDAwMDAwMDAtMDAwMC0wMDAwLTAwMDAtMDAwMDAwMDAwMDAx");
    assert_eq!(parse_cursor(&c).unwrap(), (0, 1));
    let t: i128 = 1_714_566_645_500_000_000;
    let id: u128 = 2040782911132661522235942288014082135;
    let c = encode_cursor(t, id).unwrap();
    assert_eq!(c, "MjAyNC0wNS0wMVQxMjozMDo0NS41WiwwMTg5MGE1ZC1hYzk2LTc3NGItYmNjZS1iMzAyMDk5YTgwNTc=");
    assert_eq!(parse_cursor(&c).unwrap(), (t, id));
}

#[test]
fn list_messages_rejects_a_malformed_cursor() {
    let code = |raw: &str| parse_cursor(raw).unwrap_err().details[0].code;
    assert_eq!(code("!!not base64!!"), 4001);
    assert_eq!(code("__4seA=="), 4002);
    assert_eq!(code("bm8gY29tbWEgaGVyZQ=="), 4003);
    assert_eq!(code("eWVzdGVyZGF5LDAwMDAwMDAwLTAwMDAtMDAwMC0wMDAwLTAwMDAwMDAwMDAwMQ=="), 4004);
    assert_eq!(code("MTk3MC0wMS0wMVQwMDowMDowMFosbm90LWEtdXVpZA=="), 4005);
    let e = parse_cursor("bm8gY29tbWEgaGVyZQ==").unwrap_err();
    assert_eq!((e.code, e.message.as_str(), e.target.as_str()), (400, "a query param is invalid or malformed", "query"));
    assert_eq!(e.details[0].message, "cursor is invalid or malformed");
    let e = make_cursor_error(4009, None);
    assert_eq!(e.details[0].code, 4009);
}

#[test]
fn list_messages_caps_a_page_at_50_and_returns_a_cursor() {
    let rows: Vec<Message> = (0..51u128).map(|i| row(1000 - i, 1_000_000_000 * (100 - i as i128))).collect();
    let page = page_messages(rows).unwrap();
    assert_eq!(page.count, PAGE_SIZE);
    assert_eq!(page.results.len(), 50);
    assert_eq!(page.results[49].id, 951);
    let cursor = page.cursor.unwrap();
    assert_eq!(parse_cursor(&cursor).unwrap(), (1_000_000_000 * 51, 951));
}

#[test]
fn list_messages_returns_an_empty_page_for_an_empty_channel() {
    let page = page_messages(Vec::new()).unwrap();
    assert_eq!(page.count, 0);
    assert!(page.results.is_empty());
    assert!(page.cursor.is_none());
    let page = page_messages((0..50u128).map(|i| row(i, i as i128)).collect()).unwrap();
    assert_eq!(page.count, 50);
    assert!(page.cursor.is_none());
}

#[test]
fn request_bodies_name_the_fields_at_fault() {
    let ok = CreateChannelPayload { name: "general".into(), category: None, kind: ChannelKind::Text };
    assert!(ok.validate().is_ok());
    let bad = CreateChannelPayload { name: "ab".into(), category: Some("x\u{7}yz".into()), kind: ChannelKind::Text };
    assert_eq!(bad.validate().unwrap_err(), vec!["name".to_string(), "category".to_string()]);
    let p = PatchChannelPayload { name: None, category: Some(String::new()) };
    assert!(p.validate().is_ok());
    let p = PatchChannelPayload { name: Some("é".repeat(256)), category: None };
    assert_eq!(p.validate().unwrap_err(), vec!["name".to_string()]);
    let p = PatchChannelPayload { name: Some("é".repeat(255)), category: None };
    assert!(p.validate().is_ok());
    let s = hermes::PostServerPayload { name: "home".into(), icon: Some("https://example.com/i.png".into()) };
    assert!(s.validate().is_ok());
    let s = hermes::PostServerPayload { name: "ho".into(), icon: Some("not a url".into()) };
    assert_eq!(s.validate().unwrap_err(), vec!["name".to_string(), "icon".to_string()]);
    let s = hermes::PatchServerPayload { name: None, icon: None };
    assert!(s.validate().is_ok());
    let r = hermes::CreateRolePayload { name: "mods".into(), fg_color: Some("#ffffff".into()), bg_color: Some("#fff".into()), mask: None };
    assert_eq!(r.validate().unwrap_err(), vec!["bg_color".to_string()]);
    let r = hermes::PatchRolePayload { name: None, bg_color: None, fg_color: Some("red".into()), mask: Some(1) };
    assert_eq!(r.validate().unwrap_err(), vec!["fg_color".to_string()]);
    assert!(hermes::DeleteInviteQuery { id: "z".repeat(21) }.validate().is_ok());
    assert_eq!(
        hermes::PostJoinServerPayload { invite_code: "z".repeat(20) }.validate().unwrap_err(),
        vec!["invite_code".to_string()]
    );
    let l = LoginRequest { username: "abc".into(), password: "12345678".into(), cf_token: String::new() };
    assert_eq!(l.validate().unwrap_err(), vec!["username".to_string()]);
    let f = SignupFormRequest {
        username: "alice".into(),
        password: "correct horse".into(),
        email: "alice@example.com".into(),
        cf_token: "t".into(),
    };
    assert!(f.validate().is_ok());
    let f = SignupFormRequest { email: "alice.example.com".into(), ..f };
    assert_eq!(f.validate().unwrap_err(), vec!["email".to_string()]);
}

#[test]
fn create_invite_returns_the_new_invite() {
    let inv = hermes::new_invite("abcdefghijklmnopqrstu".to_string(), 3, 4, 0, Some(5));
    assert_eq!(inv.id, "abcdefghijklmnopqrstu");
    assert_eq!((inv.server_id, inv.created_by, inv.max_uses, inv.uses, inv.revoked), (3, Some(4), 5, 0, false));
    assert_eq!(inv.expires_at, Some(3_600_000_000_000));
    assert!(check_invite(Some(inv), 3_600_000_000_000).is_ok());
    let inv = hermes::create_invite(3, 4, None);
    assert_eq!(inv.id.chars().count(), 21);
    assert!(inv.id.chars().all(|c| c.is_ascii_alphanumeric() || c == '_' || c == '-'));
    assert_eq!(inv.max_uses, 2);
    assert!(validate_invite_code(&inv.id, "invite_code").is_ok());
    assert!(inv.expires_at.is_some());
    let other = hermes::create_invite(3, 4, None);
    assert_ne!(inv.id, other.id);
}

#[test]
fn message_routes_reject_a_non_member_of_the_server() {
    assert_eq!(server_channel_access(ChannelKind::Text, 1, 0).unwrap_err().code, 403);
}

#[test]
fn message_routes_reject_an_orphan_channel() {
    let lookup = channel_lookup(Some(ChannelRow { kind: ChannelKind::Text, server_id: None })).unwrap();
    assert!(matches!(lookup, ChannelLookup::DmMembership { kind: ChannelKind::Text }));
    assert_eq!(dm_channel_access(ChannelKind::Text, 0).unwrap_err().code, 404);
}

#[test]
fn message_routes_reject_a_stranger_to_a_dm() {
    assert_eq!(dm_channel_access(ChannelKind::Dm, 0).unwrap_err().code, 404);
}

#[test]
fn message_routes_reject_an_unknown_channel() {
    assert_eq!(channel_lookup(None).unwrap_err().code, 404);
}

#[test]
fn get_channel_rejects_a_non_member() {
    assert_eq!(server_channel_access(ChannelKind::Voice, 1, 0).unwrap_err().code, 403);
}

#[test]
fn kick_user_from_server_requires_manage_users() {
    assert_eq!(required_permissions(BASE_PERMS, MANAGE_USERS).unwrap_err().code, 403);
}

#[test]
fn kick_user_from_server_rejects_the_owner() {
    assert_eq!(check_member_removal(Some(8), 8).unwrap_err().code, 400);
}

#[test]
fn remove_role_requires_remove_role() {
    assert_eq!(required_permissions(BASE_PERMS | ADD_ROLE, hermes::REMOVE_ROLE).unwrap_err().code, 403);
}

#[test]
fn put_role_requires_add_role() {
    assert_eq!(check_add_role_permission(BASE_PERMS | MANAGE_ROLES).unwrap_err().code, 403);
}

#[test]
fn put_role_allows_granting_permissions_the_caller_holds() {
    assert!(check_role_grant(BASE_PERMS | ADD_ROLE | MANAGE_MESSAGES, Some(MANAGE_MESSAGES as i64)).is_ok());
}

#[test]
fn put_role_rejects_a_target_who_is_not_a_member() {
    let e = role_member_not_found();
    assert_eq!(e.code, 404);
    assert_eq!(e.details[0].message, "role and target must both belong to the server in the path");
}

#[test]
fn patch_message_is_author_only_even_for_a_moderator() {
    // the update is scoped to the caller's own messages, so a moderator's
    // edit of someone else's touches no row
    assert_eq!(require_one_row(0).unwrap_err().code, 404);
}

#[test]
fn delete_message_allows_the_author_without_manage_messages() {
    assert_eq!(delete_scope(&server_access(ChannelKind::Text, BASE_PERMS)), MessageScope::OwnOnly);
}

#[test]
fn join_server_twice_does_not_duplicate_membership() {
    assert_eq!(join_step(1), JoinStep::AlreadyMember);
}

#[test]
fn list_messages_cursor_past_the_end_is_empty() {
    let page = page_messages(Vec::new()).unwrap();
    assert!(page.results.is_empty());
    assert_eq!(page.count, 0);
    assert_eq!(page.cursor, None);
}

#[test]
fn list_messages_cursor_walks_the_backlog_without_gaps_or_overlap() {
    // newest first, with two messages sharing a timestamp
    let backlog: Vec<Message> = (0..120u128)
        .map(|i| row(10_000 - i, 1_000_000_000 * (500 - (i / 2) as i128)))
        .collect();
    let fetch = |cursor: Option<(i128, u128)>| -> Vec<Message> {
        backlog
            .iter()
            .filter(|r| match cursor {
                Some((t, id)) => (r.created_at, r.id) < (t, id),
                None => true,
            })
            .take(PAGE_SIZE + 1)
            .cloned()
            .collect()
    };
    let mut seen: Vec<u128> = Vec::new();
    let mut cursor = None;
    loop {
        let page = page_messages(fetch(cursor)).unwrap();
        seen.extend(page.results.iter().map(|r| r.id));
        match page.cursor {
            Some(c) => cursor = Some(parse_cursor(&c).unwrap()),
            None => break,
        }
    }
    let all: Vec<u128> = backlog.iter().map(|r| r.id).collect();
    assert_eq!(seen, all);
}

#[test]
fn editing_is_author_only_even_for_a_moderator() {
    assert!(matches!(edit_scope(&server_access(ChannelKind::Text, ALL_PERMS)), Ok(MessageScope::OwnOnly)));
    assert!(matches!(edit_scope(&server_access(ChannelKind::Text, BASE_PERMS)), Ok(MessageScope::OwnOnly)));
    assert!(matches!(
        edit_scope(&ChannelAccess { kind: ChannelKind::Dm, scope: ChannelScope::Dm }),
        Ok(MessageScope::OwnOnly)
    ));
    let e = edit_scope(&server_access(ChannelKind::Voice, ALL_PERMS)).unwrap_err();
    assert_eq!((e.code, e.message.as_str(), e.target.as_str()), (400, "invalid channel type", "request"));
}

#[test]
fn only_the_recipient_accepts_a_friend_request() {
    let req = FriendRequest { id: 1, from_user: 9, to_user: 4, rejected: false };
    assert_eq!(accept_friend_request_as(4, Some(req)).unwrap(), (4, 9));
    let e = accept_friend_request_as(9, Some(req)).unwrap_err();
    assert_eq!((e.code, e.message.as_str()), (404, "no such friend request"));
    let e = accept_friend_request_as(5, Some(req)).unwrap_err();
    assert_eq!(e.code, 404);
    let rejected = FriendRequest { rejected: true, ..req };
    assert_eq!(accept_friend_request_as(4, Some(rejected)).unwrap_err().code, 400);
    assert_eq!(accept_friend_request_as(9, Some(rejected)).unwrap_err().code, 404);
}

#[test]
fn role_patch_checks_the_body_before_permissions() {
    let none: Option<String> = None;
    // an empty body from a caller without MANAGE_ROLES is answered 400, not 403
    let e = decide_role_patch(&none, &none, &none, None, 0).unwrap_err();
    assert_eq!((e.code, e.message.as_str()), (400, "patch body is empty"));
    let name = Some("mods".to_string());
    let e = decide_role_patch(&name, &none, &none, None, 0).unwrap_err();
    assert_eq!((e.code, e.message.as_str()), (403, "user does not have required permissions"));
    let e = decide_role_patch(&name, &none, &none, Some(MANAGE_SERVER), MANAGE_ROLES).unwrap_err();
    assert_eq!((e.code, e.message.as_str()), (403, "user can not set permissions they do no have"));
    assert!(decide_role_patch(&name, &none, &none, Some(MANAGE_ROLES), MANAGE_ROLES).is_ok());
}

#[test]
fn channel_patch_checks_permissions_before_the_body() {
    // an empty body from a caller without MANAGE_CHANNELS is answered 403, not 400
    let e = decide_channel_patch(BASE_PERMS, None, None).unwrap_err();
    assert_eq!((e.code, e.message.as_str()), (403, "user does not have required permissions"));
    let e = decide_channel_patch(MANAGE_CHANNELS, None, None).unwrap_err();
    assert_eq!((e.code, e.message.as_str()), (400, "empty body"));
    assert!(matches!(
        decide_channel_patch(MANAGE_CHANNELS, Some("general".to_string()), None),
        Ok(ChannelPatch::Name { .. })
    ));
}

#[test]
fn join_checks_the_invite_before_membership() {
    assert_eq!(decide_join(None, 0, 1).unwrap_err().code, 404);
    // a member holding a spent invite is still refused
    assert_eq!(decide_join(Some(invite(2, 2, None, false)), 0, 1).unwrap_err().code, 410);
    let (inv, step) = decide_join(Some(invite(0, 2, None, false)), 0, 1).unwrap();
    assert_eq!((inv.uses, step), (0, JoinStep::AlreadyMember));
    let (_, step) = decide_join(Some(invite(0, 2, Some(10), false)), 10, 0).unwrap();
    assert_eq!(step, JoinStep::SpendAndJoin);
    assert_eq!(decide_join(Some(invite(0, 2, Some(10), false)), 11, 0).unwrap_err().code, 410);
}

#[test]
fn an_invite_expiry_is_an_hour_later_when_representable() {
    let inv = hermes::new_invite("c".repeat(21), 1, 2, 0, None);
    assert_eq!(inv.expires_at, Some(3_600_000_000_000));
    let late = 253_402_300_799_000_000_000i128;
    let inv = hermes::new_invite("c".repeat(21), 1, 2, late, None);
    assert_eq!(inv.expires_at, None);
}
