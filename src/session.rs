use vstd::prelude::*;

use crate::cache::live_session;
use crate::error::ApiError;
use crate::ids::{identity_id_of, CLOCK_MAX_SECS, CLOCK_MIN_SECS, parse_identity_id, parse_uuid, random_uuid, unix_now, uuid_parsed};
use crate::model::{Session, SessionRow, User, UserRow};
use vstd::string::StringSliceAdditionalSpecFns;

verus! {

/// A token pair handed out by the identity provider, valid for
/// `expires_in` seconds.
#[derive(Debug)]
pub struct TokenGrant {
    pub access_token: String,
    pub refresh_token: String,
    pub expires_in: i64,
}

/// What the login endpoint does for the session it was shown.
#[derive(Debug)]
pub enum LoginStep {
    /// The session is live: refresh its tokens and rotate it.
    Rotate { session_id: u128, refresh_token: String },
    /// No live session: send the client to the provider's consent page.
    Consent,
}

/// Whether `now + expires_in` fits for every time the clock can read.
pub open spec fn lifetime_fits_any_clock(expires_in: i64) -> bool {
    i64::MIN <= CLOCK_MIN_SECS + expires_in && CLOCK_MAX_SECS + expires_in <= i64::MAX
}

/// Whether an expiry of `now + expires_in` can be recorded.
pub open spec fn expiry_fits(now: i64, expires_in: i64) -> bool {
    i64::MIN <= now + expires_in <= i64::MAX
}

/// `after` is `before` marked expired, nothing else changed.
pub open spec fn marked_expired(before: SessionRow, after: SessionRow) -> bool {
    &&& after.session_id == before.session_id
    &&& after.user_id == before.user_id
    &&& after.access_token@ == before.access_token@
    &&& after.refresh_token@ == before.refresh_token@
    &&& after.expires_at == before.expires_at
    &&& after.expired
}

/// The unexpired session for `user_id` that `grant` yields at `now` under
/// the id `id`.
pub open spec fn session_from_grant(user_id: i64, grant: TokenGrant, now: i64, id: u128) -> SessionRow {
    SessionRow {
        session_id: id,
        user_id,
        access_token: grant.access_token,
        refresh_token: grant.refresh_token,
        expires_at: (now + grant.expires_in) as i64,
        expired: false,
    }
}

/// `current` marked expired.
pub open spec fn expired_copy(current: SessionRow) -> SessionRow {
    SessionRow { expired: true, ..current }
}

/// The session that rotating `current` at `now` under `fresh_id` yields.
pub open spec fn rotated_session(current: SessionRow, grant: TokenGrant, now: i64, fresh_id: u128) -> Result<SessionRow, ApiError> {
    if fresh_id != current.session_id && expiry_fits(now, grant.expires_in) {
        Ok(session_from_grant(current.user_id, grant, now, fresh_id))
    } else {
        Err(ApiError::BadRequest)
    }
}

/// The session id that a session cookie carries, if it carries one.
pub fn session_id_from_cookie(cookie: Option<&str>) -> (r: Result<u128, ApiError>)
    ensures
        cookie.is_none() ==> r == Err::<u128, ApiError>(ApiError::NotFound),
        cookie.is_some() ==> r == match uuid_parsed(cookie.unwrap()@) {
            Some(id) => Ok::<u128, ApiError>(id),
            None => Err(ApiError::NotFound),
        },
{
    match cookie {
        None => Err(ApiError::NotFound),
        Some(text) => match parse_uuid(text) {
            Some(id) => Ok(id),
            None => Err(ApiError::NotFound),
        },
    }
}

/// Puts together the session that a request presents from the stored
/// session row and the row of its user; either row missing, or a user row
/// that is not the session's owner, is `NotFound`.
pub fn resolve_session(session_row: Option<SessionRow>, user_row: Option<UserRow>) -> (r: Result<Session, ApiError>)
    ensures
        r.is_ok() <==> (session_row.is_some() && user_row.is_some()
            && user_row.unwrap().discord_id == session_row.unwrap().user_id),
        r.is_err() ==> r == Err::<Session, ApiError>(ApiError::NotFound),
        r.is_ok() ==> ({
            let s = r.unwrap();
            let row = session_row.unwrap();
            &&& s.user == User::of_row(user_row.unwrap())
            &&& s.session_id == row.session_id
            &&& s.access_token@ == row.access_token@
            &&& s.refresh_token@ == row.refresh_token@
            &&& s.expires_at == row.expires_at
            &&& s.expired == row.expired
        }),
{
    match (session_row, user_row) {
        (Some(row), Some(user)) => {
            if user.discord_id != row.user_id {
                return Err(ApiError::NotFound);
            }
            Ok(Session {
                user: User::from_row(&user),
                session_id: row.session_id,
                access_token: row.access_token,
                refresh_token: row.refresh_token,
                expires_at: row.expires_at,
                expired: row.expired,
            })
        },
        _ => Err(ApiError::NotFound),
    }
}

/// The user of the session that asks, if that session is live at `now`;
/// otherwise `Unauthenticated`.
pub fn get_user_info(session: Option<&Session>, now: i64) -> (r: Result<User, ApiError>)
    ensures
        live_session(session, now) ==> r == Ok::<User, ApiError>(session.unwrap().user),
        !live_session(session, now) ==> r == Err::<User, ApiError>(ApiError::Unauthenticated),
{
    match session {
        Some(s) if s.is_live(now) => Ok(s.user),
        _ => Err(ApiError::Unauthenticated),
    }
}

/// Decides what the login endpoint does with the stored session that the
/// client's cookie names, if any.
pub fn login_step(stored: Option<&SessionRow>, now: i64) -> (r: LoginStep)
    ensures
        (r is Rotate) <==> (stored.is_some() && stored.unwrap().live(now)),
        r is Rotate ==> r->session_id == stored.unwrap().session_id
            && r->refresh_token@ == stored.unwrap().refresh_token@,
{
    match stored {
        Some(row) => {
            if row.is_live(now) {
                LoginStep::Rotate {
                    session_id: row.session_id,
                    refresh_token: row.refresh_token.clone(),
                }
            } else {
                LoginStep::Consent
            }
        },
        None => LoginStep::Consent,
    }
}

/// The session row that `grant` yields for `user_id` at `now` under the id
/// `session_id`; `BadRequest` where the expiry would not fit.
pub fn new_session(user_id: i64, grant: TokenGrant, now: i64, session_id: u128) -> (r: Result<SessionRow, ApiError>)
    ensures
        r.is_ok() <==> expiry_fits(now, grant.expires_in),
        r.is_ok() ==> r.unwrap() == session_from_grant(user_id, grant, now, session_id),
        r.is_err() ==> r == Err::<SessionRow, ApiError>(ApiError::BadRequest),
{
    let expires_at = match now.checked_add(grant.expires_in) {
        Some(t) => t,
        None => return Err(ApiError::BadRequest),
    };
    Ok(SessionRow {
        session_id,
        user_id,
        access_token: grant.access_token,
        refresh_token: grant.refresh_token,
        expires_at,
        expired: false,
    })
}

/// Creates a session for `user_id` from `grant`, under a fresh random id and
/// with its expiry counted from the current time.
pub fn create_session(user_id: i64, grant: TokenGrant) -> (r: Result<SessionRow, ApiError>)
    ensures
        lifetime_fits_any_clock(grant.expires_in) ==> r.is_ok(),
        r.is_ok() ==> ({
            let row = r.unwrap();
            &&& row.user_id == user_id
            &&& row.access_token@ == grant.access_token@
            &&& row.refresh_token@ == grant.refresh_token@
            &&& !row.expired
        }),
        r.is_err() ==> r == Err::<SessionRow, ApiError>(ApiError::BadRequest),
{
    let now = unix_now();
    let id = random_uuid();
    new_session(user_id, grant, now, id)
}

/// Rotates the session `current` at `now`: it is marked expired, and a new one
/// for the same user is made from `grant` under `fresh_id`. The new session
/// never reuses the old id: a `fresh_id` equal to it is `BadRequest`, as is
/// an expiry that does not fit.
pub fn rotate_session_at(current: &mut SessionRow, grant: TokenGrant, now: i64, fresh_id: u128) -> (r: Result<SessionRow, ApiError>)
    ensures
        *final(current) == expired_copy(*old(current)),
        r == rotated_session(*old(current), grant, now, fresh_id),
        marked_expired(*old(current), *final(current)),
        r.is_ok() <==> (fresh_id != old(current).session_id && expiry_fits(now, grant.expires_in)),
        r.is_ok() ==> r.unwrap() == session_from_grant(old(current).user_id, grant, now, fresh_id),
        r.is_err() ==> r == Err::<SessionRow, ApiError>(ApiError::BadRequest),
{
    current.expired = true;
    if fresh_id == current.session_id {
        return Err(ApiError::BadRequest);
    }
    new_session(current.user_id, grant, now, fresh_id)
}

/// Rotates a session now, under a fresh random id. Should the draw repeat
/// the old id, its lowest bit (one of the random ones) is flipped, so the
/// new id always differs; the only failure left is an expiry that does not
/// fit, which no realistic lifetime gives (see `lifetime_fits_any_clock`).
pub fn rotate_session(current: &mut SessionRow, grant: TokenGrant) -> (r: Result<SessionRow, ApiError>)
    ensures
        marked_expired(*old(current), *final(current)),
        lifetime_fits_any_clock(grant.expires_in) ==> r.is_ok(),
        r.is_ok() ==> ({
            let row = r.unwrap();
            &&& row.session_id != old(current).session_id
            &&& row.user_id == old(current).user_id
            &&& row.access_token@ == grant.access_token@
            &&& row.refresh_token@ == grant.refresh_token@
            &&& !row.expired
        }),
        r.is_err() ==> r == Err::<SessionRow, ApiError>(ApiError::BadRequest),
{
    let now = unix_now();
    let drawn = random_uuid();
    let id = if drawn == current.session_id {
        let flipped = drawn ^ 1;
        assert(flipped != drawn) by (bit_vector)
            requires
                flipped == drawn ^ 1,
        ;
        flipped
    } else {
        drawn
    };
    rotate_session_at(current, grant, now, id)
}

/// Revokes a live session at `now`: marks it expired and hands back the
/// access and refresh tokens, in that order, to be invalidated upstream.
/// A session that is not live is left alone and is `Unauthenticated`.
pub fn revoke_session(row: &mut SessionRow, now: i64) -> (r: Result<Vec<String>, ApiError>)
    ensures
        r.is_ok() <==> old(row).live(now),
        r.is_ok() ==> marked_expired(*old(row), *final(row)) && r.unwrap()@.len() == 2
            && r.unwrap()@[0]@ == old(row).access_token@ && r.unwrap()@[1]@
            == old(row).refresh_token@,
        r.is_err() ==> *final(row) == *old(row) && r == Err::<Vec<String>, ApiError>(
            ApiError::Unauthenticated,
        ),
{
    if !row.is_live(now) {
        return Err(ApiError::Unauthenticated);
    }
    row.expired = true;
    let mut tokens: Vec<String> = Vec::new();
    tokens.push(row.access_token.clone());
    tokens.push(row.refresh_token.clone());
    Ok(tokens)
}

/// Checks what the provider's callback delivered: a token lifetime and the
/// textual id of the identity. Gives the identity id and the lifetime, or
/// `BadRequest` when the lifetime is missing or the id is malformed.
pub fn accept_callback(expires_in: Option<i64>, provider_id: &str) -> (r: Result<(i64, i64), ApiError>)
    ensures
        r.is_ok() <==> (expires_in.is_some() && identity_id_of(provider_id.spec_bytes()).is_some()),
        r.is_ok() ==> r.unwrap() == (identity_id_of(provider_id.spec_bytes()).unwrap(), expires_in.unwrap()),
        r.is_err() ==> r == Err::<(i64, i64), ApiError>(ApiError::BadRequest),
{
    let secs = match expires_in {
        Some(s) => s,
        None => return Err(ApiError::BadRequest),
    };
    match parse_identity_id(provider_id) {
        Some(id) => Ok((id, secs)),
        None => Err(ApiError::BadRequest),
    }
}

/// Visiting the login endpoint with a session that is still live rotates
/// it: the login step chooses rotation, the stored session ends up marked
/// expired, and a session that comes out carries an id other than the old
/// one.
pub proof fn lemma_login_rotates(stored: SessionRow, now: i64, grant: TokenGrant, clock: i64, fresh_id: u128)
    requires
        stored.live(now),
    ensures
        expired_copy(stored).expired,
        expired_copy(stored).session_id == stored.session_id,
        rotated_session(stored, grant, clock, fresh_id) is Ok ==> ({
            let fresh = rotated_session(stored, grant, clock, fresh_id).unwrap();
            &&& fresh.session_id != stored.session_id
            &&& fresh.user_id == stored.user_id
            &&& !fresh.expired
        }),
{
}

} // verus!
