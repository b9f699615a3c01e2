//! Users and their presence status.

use vstd::prelude::*;
use crate::trusted::unix_now;

verus! {

/// Presence and call state of a user.
#[derive(Debug, Clone, Copy, PartialEq, Eq, Structural)]
pub enum CallStatus {
    Idle,
    Calling,
    InCall,
    OnHold,
    Offline,
}

/// A user of whom nothing is known is offline.
impl Default for CallStatus {
    fn default() -> (status: Self)
        ensures
            status == CallStatus::Offline,
    {
        CallStatus::Offline
    }
}

/// A registered peer.
#[derive(Debug)]
pub struct User {
    pub id: String,
    pub username: String,
    pub ip_address: Option<String>,
    pub status: CallStatus,
    pub last_heartbeat: i64,
}

/// What a `User` holds, as mathematical values.
pub struct UserView {
    pub id: Seq<char>,
    pub username: Seq<char>,
    pub ip_address: Option<Seq<char>>,
    pub status: CallStatus,
    pub last_heartbeat: int,
}

impl UserView {
    /// The record of a user who has just registered at time `now`: idle, with
    /// no address known.
    pub open spec fn registered(id: Seq<char>, username: Seq<char>, now: int) -> UserView {
        UserView { id, username, ip_address: None, status: CallStatus::Idle, last_heartbeat: now }
    }

    /// The same user with another status.
    pub open spec fn with_status(self, status: CallStatus) -> UserView {
        UserView { status, ..self }
    }

    /// The same user with a known address.
    pub open spec fn with_address(self, ip: Seq<char>) -> UserView {
        UserView { ip_address: Some(ip), ..self }
    }

    /// The same user with a later sign of life.
    pub open spec fn with_heartbeat(self, now: int) -> UserView {
        UserView { last_heartbeat: now, ..self }
    }

    /// More than `timeout_secs` seconds lie between the last heartbeat and
    /// `now`.
    pub open spec fn inactive_at(self, now: int, timeout_secs: int) -> bool {
        now - self.last_heartbeat > timeout_secs
    }
}

impl View for User {
    type V = UserView;

    open spec fn view(&self) -> UserView {
        UserView {
            id: self.id@,
            username: self.username@,
            ip_address: match self.ip_address {
                Some(ip) => Some(ip@),
                None => None,
            },
            status: self.status,
            last_heartbeat: self.last_heartbeat as int,
        }
    }
}

impl Clone for User {
    fn clone(&self) -> (copy: Self)
        ensures
            copy == *self,
    {
        let ip_address = match &self.ip_address {
            Some(ip) => Some(ip.clone()),
            None => None,
        };
        User {
            id: self.id.clone(),
            username: self.username.clone(),
            ip_address,
            status: self.status,
            last_heartbeat: self.last_heartbeat,
        }
    }
}

impl User {
    /// A user registered at the time the clock shows now.
    pub fn new(id: String, username: String) -> (user: User)
        ensures
            user@ == UserView::registered(id@, username@, user.last_heartbeat as int),
            0 <= user.last_heartbeat,
    {
        User::registered_at(id, username, unix_now())
    }

    /// A user registered at time `now`.
    pub fn registered_at(id: String, username: String, now: i64) -> (user: User)
        ensures
            user@ == UserView::registered(id@, username@, now as int),
    {
        User { id, username, ip_address: None, status: CallStatus::Idle, last_heartbeat: now }
    }

    /// Records the address the user can be reached at.
    pub fn set_ip_address(&mut self, ip: String)
        ensures
            final(self)@ == old(self)@.with_address(ip@),
    {
        self.ip_address = Some(ip);
    }

    /// Sets the user's status, whatever it was.
    pub fn set_status(&mut self, status: CallStatus)
        ensures
            final(self)@ == old(self)@.with_status(status),
    {
        self.status = status;
    }

    /// Records a sign of life at the time the clock shows now.
    pub fn update_heartbeat(&mut self)
        ensures
            final(self)@ == old(self)@.with_heartbeat(final(self).last_heartbeat as int),
            0 <= final(self).last_heartbeat,
    {
        self.record_heartbeat(unix_now());
    }

    /// Records a sign of life at time `now`.
    pub fn record_heartbeat(&mut self, now: i64)
        ensures
            final(self)@ == old(self)@.with_heartbeat(now as int),
    {
        self.last_heartbeat = now;
    }

    /// Whether the user has been silent for more than `timeout_secs` seconds,
    /// by the clock's present reading.
    pub fn is_inactive(&self, timeout_secs: i64) -> (inactive: bool)
        ensures
            exists|now: int| 0 <= now && inactive == self@.inactive_at(now, timeout_secs as int),
    {
        let now = unix_now();
        let inactive = self.is_inactive_at(now, timeout_secs);
        assert(0 <= now as int && inactive == self@.inactive_at(now as int, timeout_secs as int));
        inactive
    }

    /// Whether more than `timeout_secs` seconds lie between the last
    /// heartbeat and `now`. The difference is taken exactly: it cannot
    /// overflow.
    pub fn is_inactive_at(&self, now: i64, timeout_secs: i64) -> (inactive: bool)
        ensures
            inactive == self@.inactive_at(now as int, timeout_secs as int),
    {
        (now as i128) - (self.last_heartbeat as i128) > (timeout_secs as i128)
    }
}

} // verus!
