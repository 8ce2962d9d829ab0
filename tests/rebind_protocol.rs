use railways_backend::admin::{authorize_api_key, minecraft_ban};
use railways_backend::error::ApiError;
use railways_backend::model::{BanData, Session, User};
use railways_backend::rebind::{
    rebind_begin, rebind_step, BindingRecord, RebindAction, RebindEvent, RebindState, StorageOutcome,
};

fn session(identity: i64) -> Session {
    Session {
        user: User {
            discord_id: identity,
            minecraft_uuid: None,
            created_at: None,
            last_updated: None,
            is_admin: false,
            banned: false,
        },
        session_id: 1,
        access_token: "a".to_string(),
        refresh_token: "r".to_string(),
        expires_at: 100,
        expired: false,
    }
}

fn drive(state: RebindState, events: Vec<RebindEvent>) -> Vec<RebindAction> {
    let mut s = state;
    let mut out = Vec::new();
    for e in events {
        let (next, action) = rebind_step(s, e);
        out.push(action);
        s = next;
    }
    out
}

#[test]
fn first_binding_adds_without_removing() {
    let s = session(123);
    let record = BindingRecord { minecraft_uuid: None, banned: false };
    let (state, first) = rebind_begin(Some(&s), Some(record), "Notch".to_string(), 50);
    assert!(matches!(first, RebindAction::LookupUuid { ref username } if username == "Notch"));
    let u1: u128 = 0x069a79f444e94726a5befca90e38aaf5;
    let actions = drive(
        state,
        vec![
            RebindEvent::LookedUp { uuid: Some(u1) },
            RebindEvent::Stored { outcome: StorageOutcome::Committed },
            RebindEvent::AllowListDone,
        ],
    );
    assert!(matches!(actions[0], RebindAction::StoreBinding { identity: 123, uuid } if uuid == u1));
    assert!(matches!(actions[1], RebindAction::AllowListAdd { ref name } if name == "Notch"));
    assert!(matches!(actions[2], RebindAction::Finish { outcome: Ok(()) }));
    let removes = actions.iter().filter(|a| matches!(a, RebindAction::AllowListRemove { .. })).count();
    let adds = actions.iter().filter(|a| matches!(a, RebindAction::AllowListAdd { .. })).count();
    assert_eq!(removes, 0);
    assert_eq!(adds, 1);
}

#[test]
fn rebinding_removes_old_then_adds_new() {
    let s = session(5);
    let record = BindingRecord { minecraft_uuid: Some(0xA), banned: false };
    let (state, _) = rebind_begin(Some(&s), Some(record), "NewName".to_string(), 50);
    let actions = drive(
        state,
        vec![
            RebindEvent::LookedUp { uuid: Some(0xB) },
            RebindEvent::Stored { outcome: StorageOutcome::Committed },
            RebindEvent::NameResolved { name: Some("OldName".to_string()) },
            RebindEvent::AllowListDone,
            RebindEvent::AllowListDone,
        ],
    );
    assert!(matches!(actions[0], RebindAction::StoreBinding { identity: 5, uuid: 0xB }));
    assert!(matches!(actions[1], RebindAction::ResolveName { uuid: 0xA }));
    assert!(matches!(actions[2], RebindAction::AllowListRemove { ref name } if name == "OldName"));
    assert!(matches!(actions[3], RebindAction::AllowListAdd { ref name } if name == "NewName"));
    assert!(matches!(actions[4], RebindAction::Finish { outcome: Ok(()) }));
}

#[test]
fn unresolvable_old_name_still_adds_new() {
    let s = session(5);
    let record = BindingRecord { minecraft_uuid: Some(0xA), banned: false };
    let (state, _) = rebind_begin(Some(&s), Some(record), "NewName".to_string(), 50);
    let actions = drive(
        state,
        vec![
            RebindEvent::LookedUp { uuid: Some(0xB) },
            RebindEvent::Stored { outcome: StorageOutcome::Committed },
            RebindEvent::NameResolved { name: None },
            RebindEvent::AllowListDone,
        ],
    );
    assert!(matches!(actions[2], RebindAction::AllowListAdd { ref name } if name == "NewName"));
    assert!(matches!(actions[3], RebindAction::Finish { outcome: Ok(()) }));
}

#[test]
fn banned_user_is_forbidden_without_side_effects() {
    let s = session(5);
    let record = BindingRecord { minecraft_uuid: Some(0xA), banned: true };
    let (state, first) = rebind_begin(Some(&s), Some(record), "Name".to_string(), 50);
    assert!(matches!(first, RebindAction::Finish { outcome: Err(ApiError::Forbidden) }));
    let actions = drive(
        state,
        vec![
            RebindEvent::LookedUp { uuid: Some(0xB) },
            RebindEvent::Stored { outcome: StorageOutcome::Committed },
        ],
    );
    for a in actions {
        assert!(matches!(a, RebindAction::Finish { outcome: Err(ApiError::Forbidden) }));
    }
}

#[test]
fn missing_session_or_record() {
    let (_, a) = rebind_begin(None, Some(BindingRecord { minecraft_uuid: None, banned: false }), "x".to_string(), 50);
    assert!(matches!(a, RebindAction::Finish { outcome: Err(ApiError::Unauthenticated) }));
    let s = session(5);
    let (_, b) = rebind_begin(Some(&s), None, "x".to_string(), 50);
    assert!(matches!(b, RebindAction::Finish { outcome: Err(ApiError::BadRequest) }));
}

#[test]
fn dead_session_cannot_rebind() {
    let record = BindingRecord { minecraft_uuid: None, banned: false };
    let mut expired = session(5);
    expired.expired = true;
    let (state, first) = rebind_begin(Some(&expired), Some(record), "Notch".to_string(), 50);
    assert!(matches!(first, RebindAction::Finish { outcome: Err(ApiError::Unauthenticated) }));
    let actions = drive(state, vec![RebindEvent::LookedUp { uuid: Some(1) }]);
    assert!(matches!(actions[0], RebindAction::Finish { outcome: Err(ApiError::Unauthenticated) }));
    let lapsed = session(5);
    let (_, first) = rebind_begin(Some(&lapsed), Some(record), "Notch".to_string(), 100);
    assert!(matches!(first, RebindAction::Finish { outcome: Err(ApiError::Unauthenticated) }));
    let (_, first) = rebind_begin(Some(&lapsed), Some(record), "Notch".to_string(), 99);
    assert!(matches!(first, RebindAction::LookupUuid { .. }));
}

#[test]
fn concurrent_claim_loser_gets_collision() {
    let record = BindingRecord { minecraft_uuid: None, banned: false };
    let first = session(1);
    let second = session(2);
    let (s1, _) = rebind_begin(Some(&first), Some(record), "Notch".to_string(), 50);
    let (s2, _) = rebind_begin(Some(&second), Some(record), "Notch".to_string(), 50);
    let a1 = drive(
        s1,
        vec![
            RebindEvent::LookedUp { uuid: Some(7) },
            RebindEvent::Stored { outcome: StorageOutcome::Committed },
            RebindEvent::AllowListDone,
        ],
    );
    let a2 = drive(
        s2,
        vec![
            RebindEvent::LookedUp { uuid: Some(7) },
            RebindEvent::Stored { outcome: StorageOutcome::Collision },
        ],
    );
    assert!(matches!(a1[2], RebindAction::Finish { outcome: Ok(()) }));
    assert!(matches!(a2[1], RebindAction::Finish { outcome: Err(ApiError::CollisionError) }));
}

#[test]
fn lookup_and_storage_failures() {
    let s = session(1);
    let record = BindingRecord { minecraft_uuid: None, banned: false };
    let (st, _) = rebind_begin(Some(&s), Some(record), "n".to_string(), 50);
    let a = drive(st, vec![RebindEvent::LookedUp { uuid: None }]);
    assert!(matches!(a[0], RebindAction::Finish { outcome: Err(ApiError::UpstreamError) }));
    let (st, _) = rebind_begin(Some(&s), Some(record), "n".to_string(), 50);
    let a = drive(
        st,
        vec![RebindEvent::LookedUp { uuid: Some(3) }, RebindEvent::Stored { outcome: StorageOutcome::Failed }],
    );
    assert!(matches!(a[1], RebindAction::Finish { outcome: Err(ApiError::BadRequest) }));
}

#[test]
fn out_of_order_event_is_bad_request() {
    let s = session(1);
    let record = BindingRecord { minecraft_uuid: None, banned: false };
    let (st, _) = rebind_begin(Some(&s), Some(record), "n".to_string(), 50);
    let a = drive(st, vec![RebindEvent::AllowListDone]);
    assert!(matches!(a[0], RebindAction::Finish { outcome: Err(ApiError::BadRequest) }));
}

#[test]
fn api_key_must_match_exactly() {
    assert!(authorize_api_key(Some("s3cret"), "s3cret").is_some());
    assert!(authorize_api_key(Some("s3creT"), "s3cret").is_none());
    assert!(authorize_api_key(Some("s3cret!"), "s3cret").is_none());
    assert!(authorize_api_key(None, "s3cret").is_none());
}

#[test]
fn ban_needs_the_key() {
    let key = authorize_api_key(Some("k"), "k");
    assert_eq!(minecraft_ban(key, BanData { uuid: 42 }), Ok(42));
    assert_eq!(minecraft_ban(None, BanData { uuid: 42 }), Err(ApiError::Unauthenticated));
}

#[test]
fn status_codes() {
    assert_eq!(ApiError::Unauthenticated.status_code(), 401);
    assert_eq!(ApiError::Forbidden.status_code(), 403);
    assert_eq!(ApiError::UpstreamError.status_code(), 502);
    assert_eq!(ApiError::CollisionError.status_code(), 409);
    assert_eq!(ApiError::BadRequest.status_code(), 400);
    assert_eq!(ApiError::NotFound.status_code(), 404);
}
