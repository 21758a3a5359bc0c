//! Instants, session lifetimes and the sessions themselves.

use vstd::prelude::*;
use crate::errors::SessionCreationError;
use crate::model::viewed_result;
use crate::token::{create_token, is_token};

verus! {

/// How long a session stays valid after it was issued: 24 hours.
pub const SESSION_LIFETIME_SECONDS: i64 = 86_400;

/// The first second that a calendar date and time can name: midnight of
/// 1 January of the year -262143.
pub const FIRST_SECOND: i64 = -8_334_601_228_800;

/// The last second that a calendar date and time can name: the last one of
/// 31 December of the year 262142.
pub const LAST_SECOND: i64 = 8_210_266_876_799;

/// Nanoseconds in a second.
pub const NANOS_PER_SECOND: u32 = 1_000_000_000;

/// An instant in UTC: whole seconds since the Unix epoch and the nanoseconds
/// into that second. Instants are ordered by seconds first, nanoseconds
/// second.
#[derive(Debug, Clone, Copy, PartialEq, Eq, Structural)]
pub struct Timestamp {
    pub secs: i64,
    pub nanos: u32,
}

impl Timestamp {
    /// `self` is `other` or lies after it.
    pub open spec fn at_or_after(self, other: Timestamp) -> bool {
        self.secs > other.secs || (self.secs == other.secs && self.nanos >= other.nanos)
    }

    /// The instant can be written as a calendar date and time, as the
    /// tables of the store keep it: its second lies between `FIRST_SECOND`
    /// and `LAST_SECOND`, and its nanoseconds stay within the second.
    pub open spec fn representable(self) -> bool {
        FIRST_SECOND <= self.secs <= LAST_SECOND && self.nanos < NANOS_PER_SECOND
    }

    /// The instant `seconds` later, where both instants are representable.
    pub open spec fn plus_seconds(self, seconds: int) -> Option<Timestamp> {
        if self.representable() && FIRST_SECOND <= self.secs + seconds <= LAST_SECOND {
            Some(Timestamp { secs: (self.secs + seconds) as i64, nanos: self.nanos })
        } else {
            None
        }
    }

    /// The instant `nanos` nanoseconds into the second `secs` of the epoch.
    pub fn new(secs: i64, nanos: u32) -> (instant: Timestamp)
        ensures
            instant.secs == secs,
            instant.nanos == nanos,
    {
        Timestamp { secs, nanos }
    }

    /// Whether `self` is `other` or lies after it.
    pub fn is_at_or_after(&self, other: &Timestamp) -> (later: bool)
        ensures
            later == self.at_or_after(*other),
    {
        self.secs > other.secs || (self.secs == other.secs && self.nanos >= other.nanos)
    }

    /// Whether the instant can be written as a calendar date and time.
    pub fn is_representable(&self) -> (representable: bool)
        ensures
            representable == self.representable(),
    {
        FIRST_SECOND <= self.secs && self.secs <= LAST_SECOND && self.nanos < NANOS_PER_SECOND
    }

    /// Adds whole seconds; `None` where the instant or the result cannot
    /// be represented.
    pub fn checked_add_seconds(&self, seconds: i64) -> (sum: Option<Timestamp>)
        ensures
            sum == self.plus_seconds(seconds as int),
            sum matches Some(later) ==> later.representable(),
    {
        if !self.is_representable() {
            return None;
        }
        match self.secs.checked_add(seconds) {
            Some(secs) => if FIRST_SECOND <= secs && secs <= LAST_SECOND {
                Some(Timestamp { secs, nanos: self.nanos })
            } else {
                None
            },
            None => None,
        }
    }
}

/// The expiry of a session issued at `now`.
pub open spec fn expiry_from(now: Timestamp) -> Option<Timestamp> {
    now.plus_seconds(SESSION_LIFETIME_SECONDS as int)
}

/// A bearer token with the instant at which it stops being honoured.
pub trait Session {
    /// The instant of expiry.
    spec fn expiry(&self) -> Timestamp;

    /// The bearer token.
    spec fn bearer(&self) -> Seq<char>;

    fn expires(&self) -> (expires: &Timestamp)
        ensures
            *expires == self.expiry(),
    ;

    fn token(&self) -> (token: &String)
        ensures
            token@ == self.bearer(),
    ;

    /// A session is valid at `now` exactly when it expires at `now` or later.
    fn is_valid(&self, now: &Timestamp) -> (valid: bool)
        ensures
            valid == self.expiry().at_or_after(*now),
    {
        self.expires().is_at_or_after(now)
    }
}

/// A session that was minted and is not persisted yet.
#[derive(Debug)]
pub struct NewSession {
    pub token: String,
    pub expires: Timestamp,
}

impl View for NewSession {
    type V = (Seq<char>, Timestamp);

    open spec fn view(&self) -> (Seq<char>, Timestamp) {
        (self.token@, self.expires)
    }
}

impl NewSession {
    /// What `new` returns at `now` when `token` is the token drawn.
    pub open spec fn minted(token: Seq<char>, now: Timestamp) -> Result<(Seq<char>, Timestamp), SessionCreationError> {
        match expiry_from(now) {
            Some(expires) => Ok((token, expires)),
            None => Err(SessionCreationError::Overflow),
        }
    }

    /// Binds `token` to the expiry of a session issued at `now`. An expiry
    /// that cannot be represented is `Overflow`, never a clamped instant.
    pub fn with_token(token: String, now: Timestamp) -> (minted: Result<NewSession, SessionCreationError>)
        ensures
            viewed_result(minted) == Self::minted(token@, now),
    {
        match now.checked_add_seconds(SESSION_LIFETIME_SECONDS) {
            Some(expires) => Ok(NewSession { token, expires }),
            None => Err(SessionCreationError::Overflow),
        }
    }

    /// Mints a session at `now`: a fresh token that expires 24 hours later.
    pub fn new(now: Timestamp) -> (minted: Result<NewSession, SessionCreationError>)
        ensures
            minted is Ok <==> expiry_from(now) is Some,
            minted matches Ok(session) ==> is_token(session.token@) && Some(session.expires)
                == expiry_from(now),
            minted matches Err(e) ==> e == SessionCreationError::Overflow,
    {
        let token = create_token();
        Self::with_token(token, now)
    }
}

impl Session for NewSession {
    open spec fn expiry(&self) -> Timestamp {
        self.expires
    }

    open spec fn bearer(&self) -> Seq<char> {
        self.token@
    }

    fn expires(&self) -> (expires: &Timestamp) {
        &self.expires
    }

    fn token(&self) -> (token: &String) {
        &self.token
    }
}

/// What the store keeps of a session, citizen or employee.
pub struct SessionView {
    pub id: u64,
    pub owner: u64,
    pub token: Seq<char>,
    pub expires: Timestamp,
}

impl SessionView {
    /// The session is honoured at `now`.
    pub open spec fn valid_at(self, now: Timestamp) -> bool {
        self.expires.at_or_after(now)
    }
}

/// A persisted session of a citizen account.
#[derive(Debug)]
pub struct UserSession {
    pub id: u64,
    pub user_id: u64,
    pub token: String,
    pub expires: Timestamp,
}

impl View for UserSession {
    type V = SessionView;

    open spec fn view(&self) -> SessionView {
        SessionView { id: self.id, owner: self.user_id, token: self.token@, expires: self.expires }
    }
}

impl Clone for UserSession {
    fn clone(&self) -> (copy: UserSession)
        ensures
            copy@ == self@,
    {
        UserSession { id: self.id, user_id: self.user_id, token: self.token.clone(), expires: self.expires }
    }
}

impl Session for UserSession {
    open spec fn expiry(&self) -> Timestamp {
        self.expires
    }

    open spec fn bearer(&self) -> Seq<char> {
        self.token@
    }

    fn expires(&self) -> (expires: &Timestamp) {
        &self.expires
    }

    fn token(&self) -> (token: &String) {
        &self.token
    }
}

/// A session that expires one second before `now` is not valid at `now`.
pub proof fn expired_a_second_ago_is_invalid(session: SessionView, now: Timestamp)
    requires
        session.expires.secs == now.secs - 1,
        session.expires.nanos == now.nanos,
    ensures
        !session.valid_at(now),
{
}

/// A session that expires one second after `now` is valid at `now`.
pub proof fn expiring_in_a_second_is_valid(session: SessionView, now: Timestamp)
    requires
        session.expires.secs == now.secs + 1,
        session.expires.nanos == now.nanos,
    ensures
        session.valid_at(now),
{
}

/// Validity is monotonic in time: a session valid at some instant was valid
/// at every earlier instant, and one invalid at some instant stays invalid
/// at every later one.
pub proof fn validity_is_monotonic(session: SessionView, earlier: Timestamp, later: Timestamp)
    requires
        later.at_or_after(earlier),
    ensures
        session.valid_at(later) ==> session.valid_at(earlier),
        !session.valid_at(earlier) ==> !session.valid_at(later),
{
}

/// A session issued at `now` is valid from `now` up to its expiry, and at no
/// instant after it.
pub proof fn fresh_session_is_valid(session: SessionView, now: Timestamp, at: Timestamp)
    requires
        Some(session.expires) == expiry_from(now),
    ensures
        session.valid_at(now),
        session.valid_at(at) <==> session.expires.at_or_after(at),
{
}

} // verus!
