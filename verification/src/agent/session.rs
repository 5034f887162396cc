//! Interactive shell sessions: their states and the per-node session table.
//!
//! Sessions run restricted bash with a session-specific PATH; this module
//! keeps the bookkeeping (identifiers, states, limits, environment).

use vstd::prelude::*;

use crate::common::types::Identity;
use crate::keyed::{has_key, index_map, keys_unique, lemma_index_map_at, lemma_index_map_push, lemma_index_map_update};
use crate::text::{chars_of, push_chars, push_str, push_u64, string_eq_str, string_from, string_of};

verus! {

broadcast use vstd::string::group_string_axioms;

/// Session state.
#[derive(Debug, Clone, Copy, PartialEq, Eq, Structural)]
pub enum SessionState {
    /// Session is being set up (PTY allocation, environment).
    Initializing,
    /// Session is active: the user is connected.
    Active,
    /// Session is being torn down.
    Closing,
    /// Session is closed.
    Closed,
}

/// Session errors.
#[derive(Debug)]
pub enum SessionError {
    MaxSessionsExceeded(usize),
    NotFound(String),
    PtyFailed(String),
    SetupFailed(String),
}

/// The text of a session error.
pub open spec fn session_error_text(e: SessionError) -> Seq<char> {
    match e {
        SessionError::MaxSessionsExceeded(n) => "maximum concurrent sessions ("@
            + crate::text::dec(n as nat) + ") exceeded"@,
        SessionError::NotFound(id) => "session not found: "@ + id@,
        SessionError::PtyFailed(d) => "PTY allocation failed: "@ + d@,
        SessionError::SetupFailed(d) => "session setup failed: "@ + d@,
    }
}

impl SessionError {
    /// The error's message.
    pub fn message(&self) -> (m: String)
        ensures
            m@ == session_error_text(*self),
    {
        let mut out: Vec<char> = Vec::new();
        match self {
            SessionError::MaxSessionsExceeded(n) => {
                push_str(&mut out, "maximum concurrent sessions (");
                push_u64(&mut out, *n as u64);
                push_str(&mut out, ") exceeded");
            },
            SessionError::NotFound(id) => {
                push_str(&mut out, "session not found: ");
                push_chars(&mut out, &chars_of(id.as_str()));
            },
            SessionError::PtyFailed(d) => {
                push_str(&mut out, "PTY allocation failed: ");
                push_chars(&mut out, &chars_of(d.as_str()));
            },
            SessionError::SetupFailed(d) => {
                push_str(&mut out, "session setup failed: ");
                push_chars(&mut out, &chars_of(d.as_str()));
            },
        }
        string_of(&out)
    }
}

/// Bound on the magnitude of session timestamps (the years a
/// `chrono::DateTime<Utc>` can hold).
pub const SESSION_TIME_BOUND: i64 = 10_000_000_000_000;

/// A fresh session identifier (`uuid::Uuid::new_v4`, hyphenated).  It is
/// random; only its length, 36 characters, is promised.
#[verifier::external_body]
fn new_session_id() -> (r: String)
    ensures
        r@.len() == 36,
{
    uuid::Uuid::new_v4().to_string()
}

/// The current time in seconds since the Unix epoch (`chrono::Utc::now`
/// then `timestamp`).  Only its range is promised.
#[verifier::external_body]
fn now_seconds() -> (t: i64)
    ensures
        -SESSION_TIME_BOUND < t < SESSION_TIME_BOUND,
{
    chrono::Utc::now().timestamp()
}

/// Metadata of a shell session.
#[derive(Debug, Clone)]
pub struct ShellSession {
    /// Unique session identifier.
    pub session_id: String,
    /// Authenticated user identity.
    pub user: Identity,
    /// Node this session is on.
    pub node_id: String,
    /// vCluster context.
    pub vcluster_id: String,
    /// When the session started (seconds since the Unix epoch).
    pub started_at: i64,
    /// Current state.
    pub state: SessionState,
    /// Number of commands executed (from the audit hook).
    pub commands_executed: u32,
    /// Terminal dimensions.
    pub rows: u16,
    pub cols: u16,
    /// TERM environment variable.
    pub term: String,
}

/// The session's bin directory: `/run/pact/shell/{id}/bin`.
pub open spec fn bin_dir_of(id: Seq<char>) -> Seq<char> {
    "/run/pact/shell/"@ + id + "/bin"@
}

/// The audit hook run before each prompt.
pub open spec fn prompt_command_of(id: Seq<char>, user: Seq<char>) -> Seq<char> {
    "echo \"PACT_AUDIT session="@ + id + " user="@ + user + " cmd=$(history 1)\" >> /run/pact/shell/"@ + id
        + "/audit.log"@
}

/// The environment of a restricted shell: PATH limited to the session's
/// bin directory, a throwaway HOME, rbash, the audit hook, and no startup
/// files.
pub open spec fn session_env(s: ShellSession) -> Seq<(Seq<char>, Seq<char>)> {
    seq![
        ("PATH"@, bin_dir_of(s.session_id@)),
        ("HOME"@, "/tmp"@),
        ("TERM"@, s.term@),
        ("LANG"@, "C.UTF-8"@),
        ("SHELL"@, "/bin/rbash"@),
        ("PROMPT_COMMAND"@, prompt_command_of(s.session_id@, s.user.principal@)),
        ("BASH_ENV"@, Seq::<char>::empty()),
        ("ENV"@, Seq::<char>::empty()),
    ]
}

/// The views of a list of environment variables.
pub open spec fn env_views(v: Seq<(String, String)>) -> Seq<(Seq<char>, Seq<char>)> {
    v.map_values(|p: (String, String)| (p.0@, p.1@))
}

impl ShellSession {
    /// A new session, initializing, with a fresh identifier and the
    /// current time.
    pub fn new(user: Identity, node_id: String, vcluster_id: String, rows: u16, cols: u16, term: String) -> (r: Self)
        ensures
            r.session_id@.len() == 36,
            r.user == user,
            r.node_id == node_id,
            r.vcluster_id == vcluster_id,
            -SESSION_TIME_BOUND < r.started_at < SESSION_TIME_BOUND,
            r.state == SessionState::Initializing,
            r.commands_executed == 0,
            r.rows == rows,
            r.cols == cols,
            r.term == term,
    {
        ShellSession {
            session_id: new_session_id(),
            user,
            node_id,
            vcluster_id,
            started_at: now_seconds(),
            state: SessionState::Initializing,
            commands_executed: 0,
            rows,
            cols,
            term,
        }
    }

    /// Marks the session active.
    pub fn activate(&mut self)
        ensures
            *final(self) == (ShellSession { state: SessionState::Active, ..*old(self) }),
    {
        self.state = SessionState::Active;
    }

    /// Marks the session closing.
    pub fn close(&mut self)
        ensures
            *final(self) == (ShellSession { state: SessionState::Closing, ..*old(self) }),
    {
        self.state = SessionState::Closing;
    }

    /// Marks the session closed.
    pub fn finalize(&mut self)
        ensures
            *final(self) == (ShellSession { state: SessionState::Closed, ..*old(self) }),
    {
        self.state = SessionState::Closed;
    }

    /// Counts a command executed in the session.
    pub fn record_command(&mut self)
        requires
            old(self).commands_executed < u32::MAX,
        ensures
            *final(self) == (ShellSession { commands_executed: (old(self).commands_executed + 1) as u32, ..*old(self) }),
    {
        self.commands_executed = self.commands_executed + 1;
    }

    /// The session's age at time `now`.
    pub fn duration_at(&self, now: i64) -> (r: i64)
        requires
            -SESSION_TIME_BOUND < now < SESSION_TIME_BOUND,
            -SESSION_TIME_BOUND < self.started_at < SESSION_TIME_BOUND,
        ensures
            r == now - self.started_at,
    {
        now - self.started_at
    }

    /// The session's age now.
    pub fn duration_seconds(&self) -> (r: i64)
        requires
            -SESSION_TIME_BOUND < self.started_at < SESSION_TIME_BOUND,
        ensures
            exists|now: i64| -SESSION_TIME_BOUND < now < SESSION_TIME_BOUND && #[trigger] (now - self.started_at) == r,
    {
        let now = now_seconds();
        self.duration_at(now)
    }

    /// The session's bin directory (the only PATH entry).
    pub fn bin_dir(&self) -> (r: String)
        ensures
            r@ == bin_dir_of(self.session_id@),
    {
        let mut out: Vec<char> = Vec::new();
        push_str(&mut out, "/run/pact/shell/");
        push_chars(&mut out, &chars_of(self.session_id.as_str()));
        push_str(&mut out, "/bin");
        string_of(&out)
    }

    /// The restricted shell's environment variables.
    pub fn env_vars(&self) -> (r: Vec<(String, String)>)
        ensures
            env_views(r@) == session_env(*self),
    {
        let mut prompt: Vec<char> = Vec::new();
        let id = chars_of(self.session_id.as_str());
        push_str(&mut prompt, "echo \"PACT_AUDIT session=");
        push_chars(&mut prompt, &id);
        push_str(&mut prompt, " user=");
        push_chars(&mut prompt, &chars_of(self.user.principal.as_str()));
        push_str(&mut prompt, " cmd=$(history 1)\" >> /run/pact/shell/");
        push_chars(&mut prompt, &id);
        push_str(&mut prompt, "/audit.log");
        let mut r: Vec<(String, String)> = Vec::new();
        r.push((string_from("PATH"), self.bin_dir()));
        r.push((string_from("HOME"), string_from("/tmp")));
        r.push((string_from("TERM"), self.term.clone()));
        r.push((string_from("LANG"), string_from("C.UTF-8")));
        r.push((string_from("SHELL"), string_from("/bin/rbash")));
        r.push((string_from("PROMPT_COMMAND"), string_of(&prompt)));
        r.push((string_from("BASH_ENV"), String::new()));
        r.push((string_from("ENV"), String::new()));
        proof {
            assert(env_views(r@) =~= session_env(*self));
        }
        r
    }
}

/// Key of a session in the table: its identifier.
pub open spec fn session_key() -> spec_fn(ShellSession) -> Seq<char> {
    |s: ShellSession| s.session_id@
}

/// Value of a session in the table: the session itself.
pub open spec fn session_val() -> spec_fn(ShellSession) -> ShellSession {
    |s: ShellSession| s
}

/// The active shell sessions of a node.
pub struct SessionManager {
    /// Sessions, one per identifier.
    sessions: Vec<ShellSession>,
    /// Maximum concurrent sessions per node.
    max_sessions: usize,
}

/// The sessions of `s` in state `state`, in order.
pub open spec fn in_state(s: Seq<ShellSession>, state: SessionState) -> Seq<ShellSession> {
    s.filter(|x: ShellSession| x.state == state)
}

/// The sessions that are not stale at `now`, in order.
pub open spec fn kept_sessions(s: Seq<ShellSession>, now: i64, max_age: i64) -> Seq<ShellSession> {
    s.filter(|x: ShellSession| !is_stale(x, now, max_age))
}

/// The identifiers of the sessions that are stale at `now`, in order.
pub open spec fn stale_ids(s: Seq<ShellSession>, now: i64, max_age: i64) -> Seq<Seq<char>> {
    s.filter(|x: ShellSession| is_stale(x, now, max_age)).map_values(|x: ShellSession| x.session_id@)
}

/// Whether a session has been closing for longer than `max_age` at `now`.
pub open spec fn is_stale(s: ShellSession, now: i64, max_age: i64) -> bool {
    s.state == SessionState::Closing && now - s.started_at > max_age
}

impl SessionManager {
    /// The sessions, in table order.
    pub closed spec fn sessions_seq(self) -> Seq<ShellSession> {
        self.sessions@
    }

    /// The sessions by identifier.
    pub closed spec fn session_map(self) -> Map<Seq<char>, ShellSession> {
        index_map(self.sessions@, session_key(), session_val())
    }

    /// The session limit.
    pub closed spec fn limit(self) -> usize {
        self.max_sessions
    }

    /// One session per identifier, each with a time in range.
    pub closed spec fn wf(self) -> bool {
        &&& keys_unique(self.sessions@, session_key())
        &&& forall|i: int| 0 <= i < self.sessions@.len() ==> -SESSION_TIME_BOUND < #[trigger] self.sessions@[i].started_at < SESSION_TIME_BOUND
    }

    /// An empty table with a session limit.
    pub fn new(max_sessions: usize) -> (r: Self)
        ensures
            r.wf(),
            r.sessions_seq().len() == 0,
            r.session_map() == Map::<Seq<char>, ShellSession>::empty(),
            r.limit() == max_sessions,
    {
        let r = SessionManager { sessions: Vec::new(), max_sessions };
        proof {
            crate::keyed::lemma_index_map_empty(r.sessions@, session_key(), session_val());
        }
        r
    }

    /// Position of a session, if any.
    fn find(&self, session_id: &str) -> (r: Option<usize>)
        ensures
            r matches Some(i) ==> i < self.sessions@.len() && self.sessions@[i as int].session_id@ == session_id@,
            r is None ==> !has_key(self.sessions@, session_key(), session_id@),
    {
        let mut i: usize = 0;
        while i < self.sessions.len()
            invariant
                i <= self.sessions@.len(),
                forall|k: int| 0 <= k < i ==> self.sessions@[k].session_id@ != session_id@,
            decreases self.sessions.len() - i,
        {
            if string_eq_str(&self.sessions[i].session_id, session_id) {
                return Some(i);
            }
            i = i + 1;
        }
        proof {
            if has_key(self.sessions@, session_key(), session_id@) {
                let k = choose|k: int| 0 <= k < self.sessions@.len() && session_key()(self.sessions@[k]) == session_id@;
                assert(self.sessions@[k].session_id@ != session_id@);
            }
        }
        None
    }

    /// Number of sessions.
    pub fn count(&self) -> (r: usize)
        requires
            self.wf(),
        ensures
            r == self.sessions_seq().len(),
            r == self.session_map().len(),
    {
        proof {
            lemma_table_len(self.sessions@);
        }
        self.sessions.len()
    }

    /// Creates a session, unless the limit is reached.
    pub fn create_session(
        &mut self,
        user: Identity,
        node_id: String,
        vcluster_id: String,
        rows: u16,
        cols: u16,
        term: String,
    ) -> (r: Result<&ShellSession, SessionError>)
        requires
            old(self).wf(),
        ensures
            final(self).wf(),
            final(self).limit() == old(self).limit(),
            old(self).sessions_seq().len() >= old(self).limit() ==> {
                &&& r matches Err(SessionError::MaxSessionsExceeded(n)) && n == old(self).limit()
                &&& final(self).sessions_seq() == old(self).sessions_seq()
            },
            old(self).sessions_seq().len() < old(self).limit() ==> (r matches Ok(s) && {
                &&& s.user == user && s.node_id == node_id && s.vcluster_id == vcluster_id
                &&& s.rows == rows && s.cols == cols && s.term == term
                &&& s.state == SessionState::Initializing && s.commands_executed == 0
                &&& final(self).session_map() == old(self).session_map().insert(s.session_id@, *s)
                &&& final(self).sessions_seq().len() == old(self).sessions_seq().len() + if old(
                    self,
                ).session_map().contains_key(s.session_id@) {
                    0int
                } else {
                    1int
                }
            }),
    {
        if self.sessions.len() >= self.max_sessions {
            return Err(SessionError::MaxSessionsExceeded(self.max_sessions));
        }
        let session = ShellSession::new(user, node_id, vcluster_id, rows, cols, term);
        let idx: usize;
        match self.find(session.session_id.as_str()) {
            Some(i) => {
                proof {
                    lemma_index_map_update(self.sessions@, session_key(), session_val(), i as int, session);
                    assert(session_key()(self.sessions@[i as int]) == session.session_id@);
                    assert(has_key(self.sessions@, session_key(), session.session_id@));
                }
                self.sessions.set(i, session);
                idx = i;
            },
            None => {
                proof {
                    lemma_index_map_push(self.sessions@, session_key(), session_val(), session);
                }
                self.sessions.push(session);
                idx = self.sessions.len() - 1;
            },
        }
        Ok(&self.sessions[idx])
    }

    /// The session with an identifier, if any.
    pub fn get(&self, session_id: &str) -> (r: Option<&ShellSession>)
        requires
            self.wf(),
        ensures
            match r {
                Some(s) => self.session_map().contains_key(session_id@) && self.session_map()[session_id@] == *s,
                None => !self.session_map().contains_key(session_id@),
            },
    {
        match self.find(session_id) {
            Some(i) => {
                proof {
                    lemma_index_map_at(self.sessions@, session_key(), session_val(), i as int);
                }
                Some(&self.sessions[i])
            },
            None => None,
        }
    }

    /// The session with an identifier, for changes, if any.
    pub fn get_mut(&mut self, session_id: &str) -> (r: Option<&mut ShellSession>)
        requires
            old(self).wf(),
        ensures
            match r {
                Some(s) => has_key(old(self).sessions_seq(), session_key(), session_id@)
                    && *s == old(self).sessions_seq()[crate::keyed::key_pos(old(self).sessions_seq(), session_key(), session_id@)]
                    && final(self).sessions_seq() == old(self).sessions_seq().update(
                        crate::keyed::key_pos(old(self).sessions_seq(), session_key(), session_id@), *final(s)),
                None => !has_key(old(self).sessions_seq(), session_key(), session_id@)
                    && final(self).sessions_seq() == old(self).sessions_seq(),
            },
            final(self).limit() == old(self).limit(),
    {
        match self.find(session_id) {
            Some(i) => {
                proof {
                    crate::keyed::lemma_key_pos(self.sessions@, session_key(), i as int);
                }
                Some(&mut self.sessions[i])
            },
            None => None,
        }
    }

    /// Removes a session, returning it.
    pub fn remove(&mut self, session_id: &str) -> (r: Option<ShellSession>)
        requires
            old(self).wf(),
        ensures
            final(self).wf(),
            final(self).limit() == old(self).limit(),
            final(self).session_map() == old(self).session_map().remove(session_id@),
            match r {
                Some(s) => old(self).session_map().contains_key(session_id@) && old(self).session_map()[session_id@] == s,
                None => !old(self).session_map().contains_key(session_id@),
            },
    {
        match self.find(session_id) {
            Some(i) => {
                let ghost before = self.sessions@;
                proof {
                    lemma_index_map_at(before, session_key(), session_val(), i as int);
                    lemma_remove_at(before, i as int);
                }
                let s = self.sessions.remove(i);
                Some(s)
            },
            None => {
                proof {
                    assert(self.session_map().remove(session_id@) =~= self.session_map());
                }
                None
            },
        }
    }

    /// The active sessions, in table order.
    pub fn active_sessions(&self) -> (r: Vec<&ShellSession>)
        ensures
            r@.map_values(|s: &ShellSession| *s) == in_state(self.sessions_seq(), SessionState::Active),
    {
        let mut r: Vec<&ShellSession> = Vec::new();
        let mut i: usize = 0;
        while i < self.sessions.len()
            invariant
                i <= self.sessions@.len(),
                r@.map_values(|s: &ShellSession| *s) == in_state(self.sessions@.take(i as int), SessionState::Active),
            decreases self.sessions.len() - i,
        {
            let ghost before = r@;
            proof {
                let t = self.sessions@.take(i + 1);
                assert(t.drop_last() =~= self.sessions@.take(i as int));
                assert(t.last() == self.sessions@[i as int]);
                reveal(Seq::filter);
            }
            if self.sessions[i].state == SessionState::Active {
                r.push(&self.sessions[i]);
                proof {
                    assert(r@.map_values(|s: &ShellSession| *s) =~= before.map_values(|s: &ShellSession| *s).push(self.sessions@[i as int]));
                }
            }
            i = i + 1;
        }
        proof {
            assert(self.sessions@.take(self.sessions@.len() as int) =~= self.sessions@);
        }
        r
    }

    /// Removes the sessions that have been closing for longer than
    /// `max_age_seconds` at time `now`; returns their identifiers in table
    /// order.
    pub fn cleanup_stale_at(&mut self, max_age_seconds: i64, now: i64) -> (r: Vec<String>)
        requires
            old(self).wf(),
            -SESSION_TIME_BOUND < now < SESSION_TIME_BOUND,
        ensures
            final(self).wf(),
            final(self).limit() == old(self).limit(),
            final(self).sessions_seq() == kept_sessions(old(self).sessions_seq(), now, max_age_seconds),
            r@.map_values(|id: String| id@) == stale_ids(old(self).sessions_seq(), now, max_age_seconds),
    {
        let ghost old_seq = self.sessions@;
        let mut kept: Vec<ShellSession> = Vec::new();
        let mut stale: Vec<String> = Vec::new();
        let mut i: usize = 0;
        while i < self.sessions.len()
            invariant
                i <= self.sessions@.len(),
                self.sessions@ == old_seq,
                -SESSION_TIME_BOUND < now < SESSION_TIME_BOUND,
                forall|k: int| 0 <= k < old_seq.len() ==> -SESSION_TIME_BOUND < #[trigger] old_seq[k].started_at < SESSION_TIME_BOUND,
                kept@ == old_seq.take(i as int).filter(|s: ShellSession| !is_stale(s, now, max_age_seconds)),
                stale@.map_values(|id: String| id@) == old_seq.take(i as int).filter(|s: ShellSession| is_stale(s, now, max_age_seconds))
                    .map_values(|s: ShellSession| s.session_id@),
            decreases self.sessions.len() - i,
        {
            let s = &self.sessions[i];
            proof {
                let t = old_seq.take(i + 1);
                assert(t.drop_last() =~= old_seq.take(i as int));
                assert(t.last() == old_seq[i as int]);
                reveal(Seq::filter);
            }
            let ghost st_before = stale@;
            if s.state == SessionState::Closing && now - s.started_at > max_age_seconds {
                stale.push(s.session_id.clone());
                proof {
                    assert(stale@.map_values(|id: String| id@) =~= st_before.map_values(|id: String| id@).push(s.session_id@));
                }
            } else {
                kept.push(s.clone_session());
            }
            i = i + 1;
        }
        proof {
            assert(old_seq.take(old_seq.len() as int) =~= old_seq);
            lemma_filter_keeps_unique(old_seq, now, max_age_seconds);
            assert forall|k: int| 0 <= k < kept@.len() implies -SESSION_TIME_BOUND < #[trigger] kept@[k].started_at < SESSION_TIME_BOUND by {
                lemma_filter_member(old_seq, |s: ShellSession| !is_stale(s, now, max_age_seconds), k);
            }
        }
        self.sessions = kept;
        stale
    }

    /// Removes the sessions that have been closing for longer than
    /// `max_age_seconds` now; returns their identifiers.
    pub fn cleanup_stale(&mut self, max_age_seconds: i64) -> (r: Vec<String>)
        requires
            old(self).wf(),
        ensures
            final(self).wf(),
            final(self).limit() == old(self).limit(),
            exists|now: i64| -SESSION_TIME_BOUND < now < SESSION_TIME_BOUND
                && #[trigger] kept_sessions(old(self).sessions_seq(), now, max_age_seconds) == final(self).sessions_seq()
                && r@.map_values(|id: String| id@) == stale_ids(old(self).sessions_seq(), now, max_age_seconds),
    {
        let now = now_seconds();
        self.cleanup_stale_at(max_age_seconds, now)
    }
}

impl ShellSession {
    /// A copy of the session.
    pub fn clone_session(&self) -> (r: Self)
        ensures
            r == *self,
    {
        ShellSession {
            session_id: self.session_id.clone(),
            user: self.user.clone(),
            node_id: self.node_id.clone(),
            vcluster_id: self.vcluster_id.clone(),
            started_at: self.started_at,
            state: self.state,
            commands_executed: self.commands_executed,
            rows: self.rows,
            cols: self.cols,
            term: self.term.clone(),
        }
    }
}

/// With unique keys, the table has one entry per element.
proof fn lemma_table_len(s: Seq<ShellSession>)
    requires
        keys_unique(s, session_key()),
    ensures
        index_map(s, session_key(), session_val()).len() == s.len(),
    decreases s.len(),
{
    if s.len() == 0 {
        crate::keyed::lemma_index_map_empty(s, session_key(), session_val());
    } else {
        let pre = s.drop_last();
        assert(keys_unique(pre, session_key())) by {
            assert forall|i: int, j: int| 0 <= i < pre.len() && 0 <= j < pre.len() && i != j
                implies session_key()(pre[i]) != session_key()(pre[j]) by {
                assert(pre[i] == s[i] && pre[j] == s[j]);
            }
        }
        lemma_table_len(pre);
        assert(!has_key(pre, session_key(), s.last().session_id@)) by {
            if has_key(pre, session_key(), s.last().session_id@) {
                let k = choose|k: int| 0 <= k < pre.len() && session_key()(pre[k]) == s.last().session_id@;
                assert(pre[k] == s[k]);
            }
        }
        lemma_index_map_push(pre, session_key(), session_val(), s.last());
        assert(pre.push(s.last()) =~= s);
        let m = index_map(pre, session_key(), session_val());
        assert(!m.contains_key(s.last().session_id@));
        assert(m.dom().finite()) by {
            lemma_index_map_finite(pre);
        }
    }
}

proof fn lemma_index_map_finite(s: Seq<ShellSession>)
    ensures
        index_map(s, session_key(), session_val()).dom().finite(),
{
    let m = index_map(s, session_key(), session_val());
    let ks = s.map_values(|x: ShellSession| x.session_id@).to_set();
    assert(m.dom().subset_of(ks)) by {
        assert forall|k: Seq<char>| m.dom().contains(k) implies ks.contains(k) by {
            let i = choose|i: int| 0 <= i < s.len() && session_key()(s[i]) == k;
            assert(s.map_values(|x: ShellSession| x.session_id@)[i] == k);
        }
    }
    vstd::set_lib::lemma_set_subset_finite(ks, m.dom());
}

/// Removing the element at `i` removes its key from the table.
proof fn lemma_remove_at(s: Seq<ShellSession>, i: int)
    requires
        keys_unique(s, session_key()),
        0 <= i < s.len(),
    ensures
        keys_unique(s.remove(i), session_key()),
        index_map(s.remove(i), session_key(), session_val()) == index_map(s, session_key(), session_val()).remove(s[i].session_id@),
        forall|k: int| 0 <= k < s.remove(i).len() ==> exists|j: int| 0 <= j < s.len() && #[trigger] s.remove(i)[k] == s[j],
{
    let t = s.remove(i);
    assert forall|a: int, b: int| 0 <= a < t.len() && 0 <= b < t.len() && a != b
        implies session_key()(t[a]) != session_key()(t[b]) by {
        let ia = if a < i { a } else { a + 1 };
        let ib = if b < i { b } else { b + 1 };
        assert(t[a] == s[ia] && t[b] == s[ib]);
    }
    let m1 = index_map(t, session_key(), session_val());
    let m2 = index_map(s, session_key(), session_val()).remove(s[i].session_id@);
    assert forall|k: Seq<char>| m1.contains_key(k) <==> m2.contains_key(k) by {
        if has_key(t, session_key(), k) {
            let a = choose|a: int| 0 <= a < t.len() && session_key()(t[a]) == k;
            let ia = if a < i { a } else { a + 1 };
            assert(t[a] == s[ia]);
        }
        if has_key(s, session_key(), k) && k != s[i].session_id@ {
            let a = choose|a: int| 0 <= a < s.len() && session_key()(s[a]) == k;
            if a < i {
                assert(t[a] == s[a]);
            } else {
                assert(t[a - 1] == s[a]);
            }
        }
    }
    assert forall|k: Seq<char>| m1.contains_key(k) implies m1[k] == m2[k] by {
        let a = choose|a: int| 0 <= a < t.len() && session_key()(t[a]) == k;
        crate::keyed::lemma_key_pos(t, session_key(), a);
        let ia = if a < i { a } else { a + 1 };
        assert(t[a] == s[ia]);
        crate::keyed::lemma_key_pos(s, session_key(), ia);
    }
    assert(m1 =~= m2);
    assert forall|k: int| 0 <= k < t.len() implies exists|j: int| 0 <= j < s.len() && #[trigger] t[k] == s[j] by {
        let ik = if k < i { k } else { k + 1 };
        assert(t[k] == s[ik]);
    }
}

/// A member of a filtered sequence is a member of the sequence.
proof fn lemma_filter_member(s: Seq<ShellSession>, p: spec_fn(ShellSession) -> bool, k: int)
    requires
        0 <= k < s.filter(p).len(),
    ensures
        s.contains(s.filter(p)[k]),
        p(s.filter(p)[k]),
{
    assert(s.filter(p).contains(s.filter(p)[k]));
    s.lemma_filter_contains_rev(p, s.filter(p)[k]);
    s.lemma_filter_pred(p, k);
}

/// Filtering keeps keys unique.
proof fn lemma_filter_keeps_unique(s: Seq<ShellSession>, now: i64, max_age: i64)
    requires
        keys_unique(s, session_key()),
    ensures
        keys_unique(s.filter(|x: ShellSession| !is_stale(x, now, max_age)), session_key()),
    decreases s.len(),
{
    let p = |x: ShellSession| !is_stale(x, now, max_age);
    reveal(Seq::filter);
    if s.len() > 0 {
        let pre = s.drop_last();
        assert(keys_unique(pre, session_key())) by {
            assert forall|i: int, j: int| 0 <= i < pre.len() && 0 <= j < pre.len() && i != j
                implies session_key()(pre[i]) != session_key()(pre[j]) by {
                assert(pre[i] == s[i] && pre[j] == s[j]);
            }
        }
        lemma_filter_keeps_unique(pre, now, max_age);
        let f = pre.filter(p);
        if p(s.last()) {
            let g = f.push(s.last());
            assert(s.filter(p) == g);
            assert forall|i: int, j: int| 0 <= i < g.len() && 0 <= j < g.len() && i != j
                implies session_key()(g[i]) != session_key()(g[j]) by {
                if i < f.len() && j < f.len() {
                } else if i < f.len() {
                    lemma_filter_member(pre, p, i);
                    let a = choose|a: int| 0 <= a < pre.len() && pre[a] == f[i];
                    assert(pre[a] == s[a]);
                    assert(g[j] == s[s.len() - 1]);
                } else {
                    lemma_filter_member(pre, p, j);
                    let a = choose|a: int| 0 <= a < pre.len() && pre[a] == f[j];
                    assert(pre[a] == s[a]);
                    assert(g[i] == s[s.len() - 1]);
                }
            }
        }
    }
}

} // verus!
