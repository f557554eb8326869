//! Session metadata records and their status lifecycle.

use vstd::prelude::*;

verus! {

/// Lifecycle state of a terminal session.
#[derive(Clone, Copy, Debug, PartialEq, Eq, Structural)]
pub enum SessionStatus {
    /// The session has been created but no connection has attached yet.
    Created,
    /// A connection is attached and the session is live.
    Active,
    /// The connection dropped but the session has not been terminated yet.
    Disconnected,
    /// The session is over; the record only lingers for late status reads.
    Terminated,
}

/// Transport over which a session is served.
#[derive(Clone, Copy, Debug, PartialEq, Eq, Structural)]
pub enum ConnectionType {
    WebSocket,
    WebTransport,
}

/// Whether the status lifecycle admits a step from `from` to `to`.
///
/// Forward steps are `Created -> Active -> Terminated`; `Disconnected` is
/// entered only from `Active` and leaves only back to `Active` or on to
/// `Terminated`. Re-asserting the current status is allowed and is a no-op
/// apart from the timestamp bump.
pub open spec fn status_can_step(from: SessionStatus, to: SessionStatus) -> bool {
    ||| from == to
    ||| (from == SessionStatus::Created && to == SessionStatus::Active)
    ||| (from == SessionStatus::Active && to == SessionStatus::Disconnected)
    ||| (from == SessionStatus::Active && to == SessionStatus::Terminated)
    ||| (from == SessionStatus::Disconnected && to == SessionStatus::Active)
    ||| (from == SessionStatus::Disconnected && to == SessionStatus::Terminated)
}

/// Position of a status in the forward lifecycle order.
pub open spec fn status_rank(s: SessionStatus) -> nat {
    match s {
        SessionStatus::Created => 0,
        SessionStatus::Active => 1,
        SessionStatus::Disconnected => 1,
        SessionStatus::Terminated => 2,
    }
}

/// Status steps only ever move forward through the lifecycle: the rank never
/// drops, `Disconnected` is reachable only from `Active` and leads only back
/// to `Active` or on to `Terminated`, and nothing leaves `Terminated`.
pub proof fn lemma_status_steps_forward(from: SessionStatus, to: SessionStatus)
    requires
        status_can_step(from, to),
        from != to,
    ensures
        status_rank(to) >= status_rank(from),
        to == SessionStatus::Disconnected ==> from == SessionStatus::Active,
        from == SessionStatus::Disconnected ==> to == SessionStatus::Active || to
            == SessionStatus::Terminated,
        from != SessionStatus::Terminated,
{
}

/// Metadata record of one terminal session.
pub struct Session {
    /// Unique identifier, fixed at creation.
    pub session_id: String,
    /// User the session belongs to.
    pub user_id: String,
    /// Optional display title.
    pub title: Option<String>,
    /// Current lifecycle state.
    pub status: SessionStatus,
    /// Terminal width in character cells.
    pub columns: u16,
    /// Terminal height in character cells.
    pub rows: u16,
    /// Optional working directory for the shell.
    pub working_directory: Option<String>,
    /// Key into the shell configuration.
    pub shell_type: String,
    /// Transport the session is served over.
    pub connection_type: ConnectionType,
    /// Creation time, in seconds since the epoch.
    pub created_at: u64,
    /// Time of the last mutation, in seconds since the epoch.
    pub updated_at: u64,
}

impl Session {
    /// A session is never marked updated before it was created.
    pub open spec fn wf(&self) -> bool {
        self.updated_at >= self.created_at
    }

    /// Create a new session record with status `Created`; `now` is the current
    /// time in seconds since the epoch.
    pub fn new(
        session_id: String,
        user_id: String,
        title: Option<String>,
        working_directory: Option<String>,
        shell_type: String,
        columns: u16,
        rows: u16,
        connection_type: ConnectionType,
        now: u64,
    ) -> (s: Session)
        ensures
            s.wf(),
            s.session_id == session_id,
            s.user_id == user_id,
            s.title == title,
            s.status == SessionStatus::Created,
            s.columns == columns,
            s.rows == rows,
            s.working_directory == working_directory,
            s.shell_type == shell_type,
            s.connection_type == connection_type,
            s.created_at == now,
            s.updated_at == now,
    {
        Session {
            session_id,
            user_id,
            title,
            status: SessionStatus::Created,
            columns,
            rows,
            working_directory,
            shell_type,
            connection_type,
            created_at: now,
            updated_at: now,
        }
    }

    /// Bump the update timestamp to `now`, clamped so that it never falls
    /// behind the creation time even if the clock stepped backwards.
    fn touch(&mut self, now: u64)
        ensures
            final(self).updated_at == (if now >= old(self).created_at {
                now
            } else {
                old(self).created_at
            }),
            final(self).updated_at >= old(self).created_at,
            *final(self) == (Session { updated_at: final(self).updated_at, ..*old(self) }),
    {
        if now >= self.created_at {
            self.updated_at = now;
        } else {
            self.updated_at = self.created_at;
        }
    }

    /// Update the terminal size and bump the update timestamp.
    pub fn resize(&mut self, columns: u16, rows: u16, now: u64)
        ensures
            final(self).wf(),
            final(self).columns == columns,
            final(self).rows == rows,
            final(self).updated_at == (if now >= old(self).created_at {
                now
            } else {
                old(self).created_at
            }),
            *final(self) == (Session {
                columns,
                rows,
                updated_at: final(self).updated_at,
                ..*old(self)
            }),
    {
        self.columns = columns;
        self.rows = rows;
        self.touch(now);
    }

    /// Move the session to `status` if the lifecycle admits the step, bumping
    /// the update timestamp; an inadmissible step leaves the record untouched.
    /// Returns whether the step was applied.
    pub fn set_status(&mut self, status: SessionStatus, now: u64) -> (applied: bool)
        ensures
            applied == status_can_step(old(self).status, status),
            applied ==> *final(self) == (Session {
                status,
                updated_at: final(self).updated_at,
                ..*old(self)
            }),
            applied ==> final(self).updated_at == (if now >= old(self).created_at {
                now
            } else {
                old(self).created_at
            }),
            applied ==> final(self).wf(),
            !applied ==> *final(self) == *old(self),
    {
        let can_step = match (self.status, status) {
            (SessionStatus::Created, SessionStatus::Created) => true,
            (SessionStatus::Active, SessionStatus::Active) => true,
            (SessionStatus::Disconnected, SessionStatus::Disconnected) => true,
            (SessionStatus::Terminated, SessionStatus::Terminated) => true,
            (SessionStatus::Created, SessionStatus::Active) => true,
            (SessionStatus::Active, SessionStatus::Disconnected) => true,
            (SessionStatus::Active, SessionStatus::Terminated) => true,
            (SessionStatus::Disconnected, SessionStatus::Active) => true,
            (SessionStatus::Disconnected, SessionStatus::Terminated) => true,
            _ => false,
        };
        if can_step {
            self.status = status;
            self.touch(now);
            true
        } else {
            false
        }
    }
}

impl Clone for Session {
    /// Cloning copies every field unchanged.
    fn clone(&self) -> (s: Session)
        ensures
            s == *self,
    {
        Session {
            session_id: self.session_id.clone(),
            user_id: self.user_id.clone(),
            title: match &self.title {
                Some(t) => Some(t.clone()),
                None => None,
            },
            status: self.status,
            columns: self.columns,
            rows: self.rows,
            working_directory: match &self.working_directory {
                Some(w) => Some(w.clone()),
                None => None,
            },
            shell_type: self.shell_type.clone(),
            connection_type: self.connection_type,
            created_at: self.created_at,
            updated_at: self.updated_at,
        }
    }
}

} // verus!
