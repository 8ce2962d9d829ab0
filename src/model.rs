use vstd::prelude::*;

verus! {

/// One property of a game-account profile, as the profile service gives it.
#[derive(Clone, Debug)]
pub struct MinecraftUuidToUsernameProperties {
    pub name: String,
    pub value: String,
}

/// What a lookup of an identity-provider account returns to the client.
#[derive(Clone, Debug)]
pub struct DiscordUserData {
    pub discord_username: String,
}

/// What a lookup of a game account by id returns to the client.
#[derive(Clone, Debug)]
pub struct MinecraftUserData {
    pub minecraft_username: String,
    pub properties: Vec<MinecraftUuidToUsernameProperties>,
}

/// A user, as the session layer hands it to handlers. Game-account ids are
/// the 128-bit value of their UUID; times are Unix seconds.
#[derive(PartialEq, Eq, Structural, Clone, Copy, Debug)]
pub struct User {
    pub discord_id: i64,
    pub minecraft_uuid: Option<u128>,
    pub created_at: Option<i64>,
    pub last_updated: Option<i64>,
    pub is_admin: bool,
    pub banned: bool,
}

/// A stored `users` row.
#[derive(PartialEq, Eq, Structural, Clone, Copy, Debug)]
pub struct UserRow {
    pub discord_id: i64,
    pub minecraft_uuid: Option<u128>,
    pub created_at: i64,
    pub last_updated: i64,
    pub is_admin: bool,
    pub banned: bool,
}

/// A stored `sessions` row.
#[derive(Debug)]
pub struct SessionRow {
    pub session_id: u128,
    pub user_id: i64,
    pub access_token: String,
    pub refresh_token: String,
    pub expires_at: i64,
    pub expired: bool,
}

/// A resolved session together with its user.
#[derive(Debug)]
pub struct Session {
    pub user: User,
    pub session_id: u128,
    pub access_token: String,
    pub refresh_token: String,
    pub expires_at: i64,
    pub expired: bool,
}

/// Proof that a request presented the administrative key.
#[derive(Debug)]
pub struct APIKey {}

/// The body of a ban request: the game account to ban.
#[derive(PartialEq, Eq, Structural, Clone, Copy, Debug)]
pub struct BanData {
    pub uuid: u128,
}

impl User {
    /// The user that a stored row describes.
    pub open spec fn of_row(row: UserRow) -> User {
        User {
            discord_id: row.discord_id,
            minecraft_uuid: row.minecraft_uuid,
            created_at: Some(row.created_at),
            last_updated: Some(row.last_updated),
            is_admin: row.is_admin,
            banned: row.banned,
        }
    }

    pub fn from_row(row: &UserRow) -> (r: User)
        ensures
            r == User::of_row(*row),
    {
        User {
            discord_id: row.discord_id,
            minecraft_uuid: row.minecraft_uuid,
            created_at: Some(row.created_at),
            last_updated: Some(row.last_updated),
            is_admin: row.is_admin,
            banned: row.banned,
        }
    }
}

impl SessionRow {
    /// A session is live while it is not marked expired and its expiry lies
    /// ahead of `now`.
    pub open spec fn live(&self, now: i64) -> bool {
        !self.expired && now < self.expires_at
    }

    pub fn is_live(&self, now: i64) -> (r: bool)
        ensures
            r == self.live(now),
    {
        !self.expired && now < self.expires_at
    }
}

impl Session {
    pub open spec fn live(&self, now: i64) -> bool {
        !self.expired && now < self.expires_at
    }

    pub fn is_live(&self, now: i64) -> (r: bool)
        ensures
            r == self.live(now),
    {
        !self.expired && now < self.expires_at
    }
}

} // verus!
