//! Session state for the streaming transports: each session belongs to
//! exactly one transport binding, is created on first contact, and is
//! closed on disconnect or once it has sat idle past its timeout. The
//! bookkeeping and the expiry decision live here; the wire I/O that
//! drives them does not.

use vstd::prelude::*;

verus! {

/// Which wire transport a session belongs to; a session is never shared
/// across transports.
#[derive(Clone, Copy, Debug, PartialEq, Eq, Structural)]
pub enum TransportKind {
    EventStream,
    StreamingHttp,
}

/// One live client session: its identifier, its transport, when it was
/// created, when it was last active, and whether it is still open.
#[derive(Clone, Debug)]
pub struct Session {
    pub session_id: String,
    pub kind: TransportKind,
    pub created_at: u64,
    pub last_activity: u64,
    pub open: bool,
}

impl Session {
    /// A fresh, open session created now.
    pub fn new(session_id: String, kind: TransportKind, now: u64) -> (r: Session)
        ensures
            r.session_id@ == session_id@,
            r.kind == kind,
            r.created_at == now,
            r.last_activity == now,
            r.open,
    {
        Session { session_id, kind, created_at: now, last_activity: now, open: true }
    }

    /// Records activity: only the activity timestamp moves.
    pub fn touch(&mut self, now: u64)
        ensures
            final(self).last_activity == now,
            final(self).session_id == old(self).session_id,
            final(self).kind == old(self).kind,
            final(self).created_at == old(self).created_at,
            final(self).open == old(self).open,
    {
        self.last_activity = now;
    }

    /// Closes the session; everything else stays as it was.
    pub fn close(&mut self)
        ensures
            !final(self).open,
            final(self).session_id == old(self).session_id,
            final(self).kind == old(self).kind,
            final(self).created_at == old(self).created_at,
            final(self).last_activity == old(self).last_activity,
    {
        self.open = false;
    }

    /// Whether the session has sat idle strictly longer than
    /// `idle_timeout` seconds: the transport adapter destroys such a
    /// session. A closed session is never reported idle-expired; it is
    /// already gone.
    pub fn is_idle_expired(&self, now: u64, idle_timeout: u64) -> (r: bool)
        ensures
            r == (self.open && now > self.last_activity as int + idle_timeout as int),
    {
        if !self.open {
            return false;
        }
        if now <= self.last_activity {
            return false;
        }
        now - self.last_activity > idle_timeout
    }
}

} // verus!
