use vstd::prelude::*;

use crate::error::ApiError;
use crate::model::Session;

verus! {

/// What storage holds about the user asking to rebind.
#[derive(PartialEq, Eq, Structural, Clone, Copy, Debug)]
pub struct BindingRecord {
    pub minecraft_uuid: Option<u128>,
    pub banned: bool,
}

/// How the storage update of the binding ended.
#[derive(PartialEq, Eq, Structural, Clone, Copy, Debug)]
pub enum StorageOutcome {
    Committed,
    /// Another user already holds the requested game account.
    Collision,
    Failed,
}

/// Where a rebind stands between two pieces of outside work.
#[derive(Debug)]
pub enum RebindState {
    /// Waiting for the username to be resolved to a game-account id.
    AwaitLookup { identity: i64, prior: Option<u128>, username: String },
    /// Waiting for storage to record the new binding.
    AwaitStore { prior: Option<u128>, username: String },
    /// The binding is stored; waiting for the name of the old account.
    AwaitPriorName { username: String },
    /// Waiting for the old name to leave the allow-list.
    AwaitRemoval { username: String },
    /// Waiting for the new name to join the allow-list.
    AwaitAddition,
    /// Finished with this outcome.
    Done { outcome: Result<(), ApiError> },
}

/// The outside work a rebind asks for next.
#[derive(Debug)]
pub enum RebindAction {
    /// Resolve a username to its game-account id (a cached lookup).
    LookupUuid { username: String },
    /// Set the user's bound game account in storage.
    StoreBinding { identity: i64, uuid: u128 },
    /// Resolve a game-account id to its current name (a cached lookup).
    ResolveName { uuid: u128 },
    /// Take a name off the allow-list.
    AllowListRemove { name: String },
    /// Put a name on the allow-list.
    AllowListAdd { name: String },
    /// Answer the request.
    Finish { outcome: Result<(), ApiError> },
}

/// What came back from the outside work last asked for.
#[derive(Debug)]
pub enum RebindEvent {
    /// The lookup's id, or `None` where the lookup failed.
    LookedUp { uuid: Option<u128> },
    Stored { outcome: StorageOutcome },
    /// The old account's name, or `None` where it could not be resolved.
    NameResolved { name: Option<String> },
    /// An allow-list call returned; its failure is not surfaced.
    AllowListDone,
}

impl RebindState {
    /// The state after the new binding has been stored.
    pub open spec fn committed(self) -> bool {
        ||| self is AwaitPriorName
        ||| self is AwaitRemoval
        ||| self is AwaitAddition
        ||| self matches RebindState::Done { outcome } && outcome is Ok
    }
}

impl RebindAction {
    pub open spec fn touches_allow_list(self) -> bool {
        self is AllowListRemove || self is AllowListAdd
    }

    pub open spec fn touches_storage(self) -> bool {
        self is StoreBinding
    }
}

pub open spec fn finished(outcome: Result<(), ApiError>) -> (RebindState, RebindAction) {
    (RebindState::Done { outcome }, RebindAction::Finish { outcome })
}

/// How a rebind starts, given the identity of the live session that asks
/// (`None` where no session is live), what storage holds on them and the
/// username they want bound.
pub open spec fn begin_spec(identity: Option<i64>, record: Option<BindingRecord>, username: String) -> (RebindState, RebindAction) {
    match identity {
        None => finished(Err(ApiError::Unauthenticated)),
        Some(id) => match record {
            None => finished(Err(ApiError::BadRequest)),
            Some(rec) => if rec.banned {
                finished(Err(ApiError::Forbidden))
            } else {
                (
                    RebindState::AwaitLookup { identity: id, prior: rec.minecraft_uuid, username },
                    RebindAction::LookupUuid { username },
                )
            },
        },
    }
}

/// One move of a rebind: the next state and the work it asks for. An event
/// that does not answer the work last asked for ends the rebind with
/// `BadRequest`; a finished rebind stays finished.
pub open spec fn step_spec(state: RebindState, event: RebindEvent) -> (RebindState, RebindAction) {
    match state {
        RebindState::AwaitLookup { identity, prior, username } => match event {
            RebindEvent::LookedUp { uuid: Some(u) } => (
                RebindState::AwaitStore { prior, username },
                RebindAction::StoreBinding { identity, uuid: u },
            ),
            RebindEvent::LookedUp { uuid: None } => finished(Err(ApiError::UpstreamError)),
            _ => finished(Err(ApiError::BadRequest)),
        },
        RebindState::AwaitStore { prior, username } => match event {
            RebindEvent::Stored { outcome: StorageOutcome::Committed } => match prior {
                Some(p) => (RebindState::AwaitPriorName { username }, RebindAction::ResolveName { uuid: p }),
                None => (RebindState::AwaitAddition, RebindAction::AllowListAdd { name: username }),
            },
            RebindEvent::Stored { outcome: StorageOutcome::Collision } => finished(Err(ApiError::CollisionError)),
            _ => finished(Err(ApiError::BadRequest)),
        },
        RebindState::AwaitPriorName { username } => match event {
            RebindEvent::NameResolved { name: Some(n) } => (
                RebindState::AwaitRemoval { username },
                RebindAction::AllowListRemove { name: n },
            ),
            RebindEvent::NameResolved { name: None } => (
                RebindState::AwaitAddition,
                RebindAction::AllowListAdd { name: username },
            ),
            _ => finished(Err(ApiError::BadRequest)),
        },
        RebindState::AwaitRemoval { username } => match event {
            RebindEvent::AllowListDone => (
                RebindState::AwaitAddition,
                RebindAction::AllowListAdd { name: username },
            ),
            _ => finished(Err(ApiError::BadRequest)),
        },
        RebindState::AwaitAddition => match event {
            RebindEvent::AllowListDone => finished(Ok(())),
            _ => finished(Err(ApiError::BadRequest)),
        },
        RebindState::Done { outcome } => finished(outcome),
    }
}

/// The work asked for while `events` come in, one action per event.
pub open spec fn run(state: RebindState, events: Seq<RebindEvent>) -> Seq<RebindAction>
    decreases events.len(),
{
    if events.len() == 0 {
        Seq::empty()
    } else {
        let (next, action) = step_spec(state, events[0]);
        seq![action] + run(next, events.subrange(1, events.len() as int))
    }
}

/// A finished rebind asks for nothing more than its answer.
pub proof fn lemma_run_finished(outcome: Result<(), ApiError>, events: Seq<RebindEvent>)
    ensures
        run(RebindState::Done { outcome }, events).len() == events.len(),
        forall|i: int|
            0 <= i < events.len() ==> #[trigger] run(RebindState::Done { outcome }, events)[i]
                == (RebindAction::Finish { outcome }),
    decreases events.len(),
{
    if events.len() > 0 {
        let rest = events.subrange(1, events.len() as int);
        lemma_run_finished(outcome, rest);
        let r = run(RebindState::Done { outcome }, events);
        assert(r == seq![RebindAction::Finish { outcome }] + run(RebindState::Done { outcome }, rest));
        assert forall|i: int| 0 <= i < events.len() implies #[trigger] r[i] == (RebindAction::Finish { outcome }) by {
            if i > 0 {
                assert(r[i] == run(RebindState::Done { outcome }, rest)[i - 1]);
            }
        }
    }
}

/// A banned user's rebind is answered `Forbidden` at once, and whatever
/// events follow, it never asks for a storage update or an allow-list call.
pub proof fn lemma_banned_rebind_forbidden(
    identity: i64,
    record: BindingRecord,
    username: String,
    events: Seq<RebindEvent>,
)
    requires
        record.banned,
    ensures
        begin_spec(Some(identity), Some(record), username) == finished(Err(ApiError::Forbidden)),
        forall|i: int|
            0 <= i < events.len() ==> !(#[trigger] run(
                begin_spec(Some(identity), Some(record), username).0,
                events,
            )[i]).touches_storage() && !run(
                begin_spec(Some(identity), Some(record), username).0,
                events,
            )[i].touches_allow_list(),
{
    lemma_run_finished(Err(ApiError::Forbidden), events);
}

/// A rebind asked for without a live session is answered `Unauthenticated`
/// at once, and whatever events follow, it never asks for a storage update
/// or an allow-list call.
pub proof fn lemma_no_live_session_unauthenticated(
    record: Option<BindingRecord>,
    username: String,
    events: Seq<RebindEvent>,
)
    ensures
        begin_spec(None, record, username) == finished(Err(ApiError::Unauthenticated)),
        forall|i: int|
            0 <= i < events.len() ==> !(#[trigger] run(begin_spec(None, record, username).0, events)[i]).touches_storage()
                && !run(begin_spec(None, record, username).0, events)[i].touches_allow_list(),
{
    lemma_run_finished(Err(ApiError::Unauthenticated), events);
}

/// When storage rejects the binding because another user holds the account,
/// the rebind is answered `CollisionError` and no allow-list call follows.
pub proof fn lemma_collision_answered(prior: Option<u128>, username: String, events: Seq<RebindEvent>)
    ensures
        step_spec(
            RebindState::AwaitStore { prior, username },
            RebindEvent::Stored { outcome: StorageOutcome::Collision },
        ) == finished(Err(ApiError::CollisionError)),
        forall|i: int|
            0 <= i < events.len() ==> !(#[trigger] run(
                RebindState::Done { outcome: Err(ApiError::CollisionError) },
                events,
            )[i]).touches_allow_list(),
{
    lemma_run_finished(Err(ApiError::CollisionError), events);
}

/// Only a committed storage update moves a rebind into its committed part,
/// and before that no allow-list call is asked for.
proof fn lemma_step_commit(state: RebindState, event: RebindEvent)
    requires
        !state.committed(),
    ensures
        step_spec(state, event).0.committed() ==> event == (RebindEvent::Stored { outcome: StorageOutcome::Committed }),
        step_spec(state, event).1.touches_allow_list() ==> event == (RebindEvent::Stored { outcome: StorageOutcome::Committed }),
{
}

/// Every allow-list call of a rebind that has not yet stored its binding
/// comes at or after the event that reports the binding committed.
pub proof fn lemma_allow_list_after_commit(state: RebindState, events: Seq<RebindEvent>)
    requires
        !state.committed(),
    ensures
        run(state, events).len() == events.len(),
        forall|i: int|
            0 <= i < events.len() && (#[trigger] run(state, events)[i]).touches_allow_list() ==> exists|j: int|
                0 <= j <= i && events[j] == (RebindEvent::Stored { outcome: StorageOutcome::Committed }),
    decreases events.len(),
{
    if events.len() > 0 {
        let (next, action) = step_spec(state, events[0]);
        let rest = events.subrange(1, events.len() as int);
        let r = run(state, events);
        assert(r == seq![action] + run(next, rest));
        lemma_step_commit(state, events[0]);
        if next.committed() {
            assert forall|i: int|
                0 <= i < events.len() && (#[trigger] r[i]).touches_allow_list() implies exists|j: int|
                    0 <= j <= i && events[j] == (RebindEvent::Stored { outcome: StorageOutcome::Committed }) by {
                assert(events[0] == (RebindEvent::Stored { outcome: StorageOutcome::Committed }));
            }
            lemma_run_length(next, rest);
        } else {
            lemma_allow_list_after_commit(next, rest);
            assert forall|i: int|
                0 <= i < events.len() && (#[trigger] r[i]).touches_allow_list() implies exists|j: int|
                    0 <= j <= i && events[j] == (RebindEvent::Stored { outcome: StorageOutcome::Committed }) by {
                if i > 0 {
                    assert(r[i] == run(next, rest)[i - 1]);
                    let j = choose|j: int|
                        0 <= j <= i - 1 && rest[j] == (RebindEvent::Stored { outcome: StorageOutcome::Committed });
                    assert(events[j + 1] == rest[j]);
                }
            }
        }
    }
}

proof fn lemma_run_length(state: RebindState, events: Seq<RebindEvent>)
    ensures
        run(state, events).len() == events.len(),
    decreases events.len(),
{
    if events.len() > 0 {
        let (next, action) = step_spec(state, events[0]);
        lemma_run_length(next, events.subrange(1, events.len() as int));
    }
}

/// Rebinding a user bound to `old_uuid` (currently named `old_name`) to the
/// account `new_uuid` behind `username`: after the lookup, storage is updated
/// first; then the old name is resolved and removed from the allow-list,
/// and only then is the new name added, once each.
pub proof fn lemma_rebind_swaps_allow_list(
    identity: i64,
    old_uuid: u128,
    new_uuid: u128,
    username: String,
    old_name: String,
)
    ensures
        ({
            let record = BindingRecord { minecraft_uuid: Some(old_uuid), banned: false };
            let (s0, a0) = begin_spec(Some(identity), Some(record), username);
            let events = seq![
                RebindEvent::LookedUp { uuid: Some(new_uuid) },
                RebindEvent::Stored { outcome: StorageOutcome::Committed },
                RebindEvent::NameResolved { name: Some(old_name) },
                RebindEvent::AllowListDone,
                RebindEvent::AllowListDone,
            ];
            &&& a0 == (RebindAction::LookupUuid { username })
            &&& run(s0, events) == seq![
                RebindAction::StoreBinding { identity, uuid: new_uuid },
                RebindAction::ResolveName { uuid: old_uuid },
                RebindAction::AllowListRemove { name: old_name },
                RebindAction::AllowListAdd { name: username },
                RebindAction::Finish { outcome: Ok(()) },
            ]
        }),
{
    let record = BindingRecord { minecraft_uuid: Some(old_uuid), banned: false };
    let (s0, a0) = begin_spec(Some(identity), Some(record), username);
    let events = seq![
        RebindEvent::LookedUp { uuid: Some(new_uuid) },
        RebindEvent::Stored { outcome: StorageOutcome::Committed },
        RebindEvent::NameResolved { name: Some(old_name) },
        RebindEvent::AllowListDone,
        RebindEvent::AllowListDone,
    ];
    let s1 = RebindState::AwaitStore { prior: Some(old_uuid), username };
    let s2 = RebindState::AwaitPriorName { username };
    let s3 = RebindState::AwaitRemoval { username };
    let s4 = RebindState::AwaitAddition;
    let s5 = RebindState::Done { outcome: Ok(()) };
    let e1 = events.subrange(1, 5);
    let e2 = e1.subrange(1, 4);
    let e3 = e2.subrange(1, 3);
    let e4 = e3.subrange(1, 2);
    let e5 = e4.subrange(1, 1);
    assert(e5.len() == 0);
    assert(run(s5, e5) == Seq::<RebindAction>::empty());
    assert(run(s4, e4) == seq![RebindAction::Finish { outcome: Ok(()) }] + run(s5, e5));
    assert(run(s3, e3) == seq![RebindAction::AllowListAdd { name: username }] + run(s4, e4));
    assert(run(s2, e2) == seq![RebindAction::AllowListRemove { name: old_name }] + run(s3, e3));
    assert(run(s1, e1) == seq![RebindAction::ResolveName { uuid: old_uuid }] + run(s2, e2));
    assert(run(s0, events) == seq![RebindAction::StoreBinding { identity, uuid: new_uuid }] + run(s1, e1));
    assert(run(s0, events) =~= seq![
        RebindAction::StoreBinding { identity, uuid: new_uuid },
        RebindAction::ResolveName { uuid: old_uuid },
        RebindAction::AllowListRemove { name: old_name },
        RebindAction::AllowListAdd { name: username },
        RebindAction::Finish { outcome: Ok(()) },
    ]);
}

/// No two users hold the same game account.
pub open spec fn bindings_unique(holders: Map<i64, u128>) -> bool {
    forall|a: i64, b: i64|
        holders.contains_key(a) && holders.contains_key(b) && #[trigger] holders[a] == #[trigger] holders[b]
            ==> a == b
}

/// The users holding `uuid`.
pub open spec fn holders_of(holders: Map<i64, u128>, uuid: u128) -> Set<i64> {
    holders.dom().filter(|i: i64| holders[i] == uuid)
}

/// What the binding update does under the uniqueness constraint on bound
/// accounts: it is rejected when another user holds `uuid`, and otherwise
/// binds `identity` to it.
pub open spec fn binding_update(holders: Map<i64, u128>, identity: i64, uuid: u128) -> (Map<i64, u128>, StorageOutcome) {
    if exists|o: i64| o != identity && holders.contains_key(o) && holders[o] == uuid {
        (holders, StorageOutcome::Collision)
    } else {
        (holders.insert(identity, uuid), StorageOutcome::Committed)
    }
}

/// Two users racing to bind the same unclaimed account, in whichever order
/// storage applies their updates: the first is committed, the second is
/// rejected as a collision (which its rebind answers with `CollisionError`),
/// and exactly one user ends up holding the account.
pub proof fn lemma_racing_claims(holders: Map<i64, u128>, first: i64, second: i64, uuid: u128, username: String)
    requires
        bindings_unique(holders),
        first != second,
        holders_of(holders, uuid).is_empty(),
    ensures
        ({
            let (after_first, o1) = binding_update(holders, first, uuid);
            let (after_second, o2) = binding_update(after_first, second, uuid);
            &&& o1 == StorageOutcome::Committed
            &&& o2 == StorageOutcome::Collision
            &&& holders_of(after_second, uuid) == set![first]
            &&& bindings_unique(after_second)
            &&& step_spec(
                RebindState::AwaitStore { prior: None, username },
                RebindEvent::Stored { outcome: o2 },
            ) == finished(Err(ApiError::CollisionError))
        }),
{
    let (after_first, o1) = binding_update(holders, first, uuid);
    assert(!exists|o: i64| o != first && holders.contains_key(o) && holders[o] == uuid) by {
        if exists|o: i64| o != first && holders.contains_key(o) && holders[o] == uuid {
            let o = choose|o: i64| o != first && holders.contains_key(o) && holders[o] == uuid;
            assert(holders_of(holders, uuid).contains(o));
        }
    }
    assert(after_first == holders.insert(first, uuid));
    assert(after_first.contains_key(first) && after_first[first] == uuid);
    let (after_second, o2) = binding_update(after_first, second, uuid);
    assert(after_second == after_first);
    assert(holders_of(after_second, uuid) =~= set![first]) by {
        assert forall|i: i64| holders_of(after_second, uuid).contains(i) implies i == first by {
            if i != first {
                assert(holders.contains_key(i) && holders[i] == uuid);
                assert(holders_of(holders, uuid).contains(i));
            }
        }
    }
    assert forall|a: i64, b: i64|
        after_second.contains_key(a) && after_second.contains_key(b) && #[trigger] after_second[a]
            == #[trigger] after_second[b] implies a == b by {
        if a != first && b != first {
            assert(holders[a] == holders[b]);
        } else if a != first {
            assert(holders_of(holders, uuid).contains(a));
        } else if b != first {
            assert(holders_of(holders, uuid).contains(b));
        }
    }
}

/// Starts a rebind for the session that asks. Only a session that is live
/// at `now` may rebind: with none, or with one marked expired or past its
/// expiry, the rebind is answered `Unauthenticated`.
pub fn rebind_begin(session: Option<&Session>, record: Option<BindingRecord>, username: String, now: i64) -> (r: (RebindState, RebindAction))
    ensures
        r == begin_spec(
            if session.is_some() && session.unwrap().live(now) {
                Some(session.unwrap().user.discord_id)
            } else {
                None
            },
            record,
            username,
        ),
{
    let s = match session {
        Some(s) if s.is_live(now) => s,
        _ => return (
            RebindState::Done { outcome: Err(ApiError::Unauthenticated) },
            RebindAction::Finish { outcome: Err(ApiError::Unauthenticated) },
        ),
    };
    let rec = match record {
        None => return (
            RebindState::Done { outcome: Err(ApiError::BadRequest) },
            RebindAction::Finish { outcome: Err(ApiError::BadRequest) },
        ),
        Some(rec) => rec,
    };
    if rec.banned {
        return (
            RebindState::Done { outcome: Err(ApiError::Forbidden) },
            RebindAction::Finish { outcome: Err(ApiError::Forbidden) },
        );
    }
    let asked = username.clone();
    (
        RebindState::AwaitLookup {
            identity: s.user.discord_id,
            prior: rec.minecraft_uuid,
            username,
        },
        RebindAction::LookupUuid { username: asked },
    )
}

/// Moves a rebind on by one event.
pub fn rebind_step(state: RebindState, event: RebindEvent) -> (r: (RebindState, RebindAction))
    ensures
        r == step_spec(state, event),
{
    match state {
        RebindState::AwaitLookup { identity, prior, username } => match event {
            RebindEvent::LookedUp { uuid: Some(u) } => (
                RebindState::AwaitStore { prior, username },
                RebindAction::StoreBinding { identity, uuid: u },
            ),
            RebindEvent::LookedUp { uuid: None } => (
                RebindState::Done { outcome: Err(ApiError::UpstreamError) },
                RebindAction::Finish { outcome: Err(ApiError::UpstreamError) },
            ),
            _ => (
                RebindState::Done { outcome: Err(ApiError::BadRequest) },
                RebindAction::Finish { outcome: Err(ApiError::BadRequest) },
            ),
        },
        RebindState::AwaitStore { prior, username } => match event {
            RebindEvent::Stored { outcome: StorageOutcome::Committed } => match prior {
                Some(p) => (RebindState::AwaitPriorName { username }, RebindAction::ResolveName { uuid: p }),
                None => (RebindState::AwaitAddition, RebindAction::AllowListAdd { name: username }),
            },
            RebindEvent::Stored { outcome: StorageOutcome::Collision } => (
                RebindState::Done { outcome: Err(ApiError::CollisionError) },
                RebindAction::Finish { outcome: Err(ApiError::CollisionError) },
            ),
            _ => (
                RebindState::Done { outcome: Err(ApiError::BadRequest) },
                RebindAction::Finish { outcome: Err(ApiError::BadRequest) },
            ),
        },
        RebindState::AwaitPriorName { username } => match event {
            RebindEvent::NameResolved { name: Some(n) } => (
                RebindState::AwaitRemoval { username },
                RebindAction::AllowListRemove { name: n },
            ),
            RebindEvent::NameResolved { name: None } => (
                RebindState::AwaitAddition,
                RebindAction::AllowListAdd { name: username },
            ),
            _ => (
                RebindState::Done { outcome: Err(ApiError::BadRequest) },
                RebindAction::Finish { outcome: Err(ApiError::BadRequest) },
            ),
        },
        RebindState::AwaitRemoval { username } => match event {
            RebindEvent::AllowListDone => (
                RebindState::AwaitAddition,
                RebindAction::AllowListAdd { name: username },
            ),
            _ => (
                RebindState::Done { outcome: Err(ApiError::BadRequest) },
                RebindAction::Finish { outcome: Err(ApiError::BadRequest) },
            ),
        },
        RebindState::AwaitAddition => match event {
            RebindEvent::AllowListDone => (
                RebindState::Done { outcome: Ok(()) },
                RebindAction::Finish { outcome: Ok(()) },
            ),
            _ => (
                RebindState::Done { outcome: Err(ApiError::BadRequest) },
                RebindAction::Finish { outcome: Err(ApiError::BadRequest) },
            ),
        },
        RebindState::Done { outcome } => (
            RebindState::Done { outcome },
            RebindAction::Finish { outcome },
        ),
    }
}

} // verus!
