//! The registry of sessions.
//!
//! A [`SessionManager`] owns every session, hands out their ids, looks
//! sessions up by id, polls them all at once and reports which of them have
//! just ended, and reclaims ended sessions according to the cleanup policy:
//! clean exits may go at once, failures stay until the operator has seen
//! them.

use vstd::prelude::*;
use vstd::string::*;
use crate::daemon::buffer::keep_last;
use crate::daemon::session::{
    display_text, drained_bytes, generate_session_id_after, pty_result, session_id_text,
    PtySession, ReadOutcome, SessionId, SessionStatus, WaitOutcome, KILLED_EXIT_CODE,
    MAX_CLOCK_MILLIS,
};
use crate::error::RembrandtError;
use crate::text::{clone_opt_text, same_text};
use crate::timestamp::Timestamp;

verus! {

/// Bytes of output history kept for each session unless the manager is
/// created with another capacity.
pub const DEFAULT_BUFFER_CAPACITY: usize = 256 * 1024;

/// Summary of a session for listing.
#[derive(Debug)]
pub struct SessionInfo {
    pub id: SessionId,
    pub agent_id: String,
    pub command: String,
    pub workdir: String,
    pub status: SessionStatus,
    pub created_at: Timestamp,
    /// The git branch the agent works on, where it has one of its own.
    pub branch: Option<String>,
    /// Whether the session runs in a worktree of its own.
    pub isolated: bool,
    /// The task assigned to the session.
    pub task_id: Option<String>,
    /// The title of that task.
    pub task_title: Option<String>,
}

impl SessionInfo {
    /// The summary of `session`.
    pub open spec fn of(session: PtySession) -> SessionInfo {
        SessionInfo {
            id: session.id,
            agent_id: session.agent_id,
            command: session.command,
            workdir: session.workdir,
            status: session.status,
            created_at: session.created_at,
            branch: session.branch,
            isolated: session.isolated,
            task_id: session.task_id,
            task_title: session.task_title,
        }
    }

}

impl From<&PtySession> for SessionInfo {
    /// The summary of `session`.
    fn from(session: &PtySession) -> (info: SessionInfo) {
        SessionInfo {
            id: session.id.clone(),
            agent_id: session.agent_id.clone(),
            command: session.command.clone(),
            workdir: session.workdir.clone(),
            status: session.status.clone(),
            created_at: session.created_at,
            branch: clone_opt_text(&session.branch),
            isolated: session.isolated,
            task_id: clone_opt_text(&session.task_id),
            task_title: clone_opt_text(&session.task_title),
        }
    }
}

impl vstd::std_specs::convert::FromSpecImpl<&PtySession> for SessionInfo {
    open spec fn obeys_from_spec() -> bool {
        true
    }

    open spec fn from_spec(session: &PtySession) -> SessionInfo {
        SessionInfo::of(*session)
    }
}

/// A session that has just ended: the edge that `poll_all` reports once.
#[derive(Debug)]
pub struct ExitedSession {
    pub session_id: SessionId,
    pub agent_id: String,
    pub task_id: Option<String>,
    pub exit_code: i32,
}

impl ExitedSession {
    /// The edge record of a session that has ended.
    pub open spec fn of(session: PtySession) -> ExitedSession {
        ExitedSession {
            session_id: session.id,
            agent_id: session.agent_id,
            task_id: session.task_id,
            exit_code: session.status.spec_reported_code(),
        }
    }
}

/// A condition on a session's status by which sessions are selected.
#[derive(Debug, Clone, Copy, PartialEq, Eq, Structural)]
pub enum SessionFilter {
    /// Still running.
    Running,
    /// Ended, however.
    Terminal,
    /// Exited with code 0.
    CleanExit,
    /// Exited with another code, or failed.
    Failed,
}

impl SessionFilter {
    pub open spec fn spec_accepts(&self, status: &SessionStatus) -> bool {
        match self {
            SessionFilter::Running => status.spec_is_running(),
            SessionFilter::Terminal => status.is_terminal(),
            SessionFilter::CleanExit => status.spec_is_clean_exit(),
            SessionFilter::Failed => status.spec_is_failure(),
        }
    }

    /// Whether a session with this status is selected.
    #[verifier::when_used_as_spec(spec_accepts)]
    pub fn accepts(&self, status: &SessionStatus) -> (accepted: bool)
        ensures
            accepted == self.spec_accepts(status),
    {
        match self {
            SessionFilter::Running => status.is_running(),
            SessionFilter::Terminal => !status.is_running(),
            SessionFilter::CleanExit => status.is_clean_exit(),
            SessionFilter::Failed => status.is_failure(),
        }
    }
}

/// Whether some session of `sessions` has the id `id`.
pub open spec fn has_id(sessions: Seq<PtySession>, id: Seq<char>) -> bool {
    exists|i: int| 0 <= i < sessions.len() && (#[trigger] sessions[i]).id@ == id
}

/// The position of the session with the id `id`.
pub open spec fn position_of(sessions: Seq<PtySession>, id: Seq<char>) -> int {
    choose|i: int| 0 <= i < sessions.len() && (#[trigger] sessions[i]).id@ == id
}

/// No two sessions share an id.
pub open spec fn unique_ids(sessions: Seq<PtySession>) -> bool {
    forall|i: int, j: int|
        0 <= i < j < sessions.len() ==> (#[trigger] sessions[i]).id@ != (#[trigger] sessions[j]).id@
}

/// Every session is well formed.
pub open spec fn all_wf(sessions: Seq<PtySession>) -> bool {
    forall|i: int| 0 <= i < sessions.len() ==> (#[trigger] sessions[i]).wf()
}

/// The sessions whose status `filter` accepts (`wanted`) or rejects
/// (`!wanted`), in registry order.
pub open spec fn select(sessions: Seq<PtySession>, filter: SessionFilter, wanted: bool) -> Seq<
    PtySession,
>
    decreases sessions.len(),
{
    if sessions.len() == 0 {
        Seq::empty()
    } else {
        let rest = select(sessions.drop_last(), filter, wanted);
        if filter.spec_accepts(&sessions.last().status) == wanted {
            rest.push(sessions.last())
        } else {
            rest
        }
    }
}

/// The sessions that belong to the agent `agent_id`, in registry order.
pub open spec fn of_agent(sessions: Seq<PtySession>, agent_id: Seq<char>) -> Seq<PtySession>
    decreases sessions.len(),
{
    if sessions.len() == 0 {
        Seq::empty()
    } else {
        let rest = of_agent(sessions.drop_last(), agent_id);
        if sessions.last().agent_id@ == agent_id {
            rest.push(sessions.last())
        } else {
            rest
        }
    }
}

/// The ids of `sessions`, in order.
pub open spec fn ids(sessions: Seq<PtySession>) -> Seq<SessionId> {
    Seq::new(sessions.len(), |i: int| sessions[i].id)
}

/// The summaries of `sessions`, in order.
pub open spec fn infos(sessions: Seq<PtySession>) -> Seq<SessionInfo> {
    Seq::new(sessions.len(), |i: int| SessionInfo::of(sessions[i]))
}

/// The wait outcome that belongs to the session at position `i`: a
/// session for which none was given counts as still running.
pub open spec fn wait_at(waits: Seq<WaitOutcome>, i: int) -> WaitOutcome {
    if 0 <= i < waits.len() {
        waits[i]
    } else {
        WaitOutcome::StillRunning
    }
}

/// The reads that belong to the session at position `i`: none for a session
/// for which none were given.
pub open spec fn reads_at(reads: Seq<Vec<ReadOutcome>>, i: int) -> Seq<ReadOutcome> {
    if 0 <= i < reads.len() {
        reads[i]@
    } else {
        Seq::empty()
    }
}

/// The registry after every session has been polled with its wait outcome.
pub open spec fn polled(sessions: Seq<PtySession>, waits: Seq<WaitOutcome>) -> Seq<PtySession> {
    Seq::new(sessions.len(), |i: int| sessions[i].after_wait(wait_at(waits, i)))
}

/// The exit edges between two states of the registry: one record, in
/// registry order, for every session that was running before and is not
/// running after.
pub open spec fn exit_edges(before: Seq<PtySession>, after: Seq<PtySession>) -> Seq<ExitedSession>
    decreases before.len(),
{
    if before.len() == 0 || after.len() != before.len() {
        Seq::empty()
    } else {
        let rest = exit_edges(before.drop_last(), after.drop_last());
        if before.last().status.spec_is_running() && after.last().status.is_terminal() {
            rest.push(ExitedSession::of(after.last()))
        } else {
            rest
        }
    }
}

/// Whether `id` is the id of some instant before `bound`.
pub open spec fn issued_before(id: Seq<char>, bound: nat) -> bool {
    exists|millis: nat| millis < bound && id == #[trigger] session_id_text(millis)
}

/// Whether `error` says that no session has the id `id`.
pub open spec fn is_not_found(error: RembrandtError, id: Seq<char>) -> bool {
    error matches RembrandtError::SessionNotFound(missing) && missing@ == id
}

/// Whether `result` is the failure that says that no session has the id
/// `id`.
pub open spec fn not_found<T>(result: Result<T, RembrandtError>, id: Seq<char>) -> bool {
    result matches Err(e) && is_not_found(e, id)
}

/// Manages all sessions.
#[derive(Debug)]
pub struct SessionManager {
    /// The sessions, in the order in which they were spawned.
    sessions: Vec<PtySession>,
    /// Output history capacity for new sessions.
    buffer_capacity: usize,
    /// Every id handed out so far belongs to an instant before this one.
    next_stamp: u128,
}

impl View for SessionManager {
    type V = Seq<PtySession>;

    /// The registered sessions, in the order in which they were spawned.
    closed spec fn view(&self) -> Seq<PtySession> {
        self.sessions@
    }
}

impl SessionManager {
    pub closed spec fn spec_buffer_capacity(&self) -> usize {
        self.buffer_capacity
    }

    /// Every registered id was handed out by this manager.
    pub closed spec fn ids_issued(&self) -> bool {
        forall|i: int|
            0 <= i < self.sessions@.len() ==> issued_before(
                (#[trigger] self.sessions@[i]).id@,
                self.next_stamp as nat,
            )
    }

    /// The floor of the next id: one more than the largest stamp of an id
    /// handed out so far, and 0 if none was. Only a spawn moves it.
    pub closed spec fn spec_next_stamp(&self) -> u128 {
        self.next_stamp
    }

    /// Whether the manager has run out of ids. This takes more spawns than
    /// any process lives to make.
    pub open spec fn ids_exhausted(&self) -> bool {
        self.spec_next_stamp() == u128::MAX
    }

    /// The representation invariant: the history capacity is positive, every
    /// session is well formed and no two sessions share an id.
    pub open spec fn wf(&self) -> bool {
        &&& self.spec_buffer_capacity() > 0
        &&& all_wf(self@)
        &&& unique_ids(self@)
        &&& self.ids_issued()
    }

    /// Whether a session with the id `id` is registered.
    pub open spec fn contains(&self, id: Seq<char>) -> bool {
        has_id(self@, id)
    }

    /// The registered session with the id `id`.
    pub open spec fn session(&self, id: Seq<char>) -> PtySession {
        self@[position_of(self@, id)]
    }

    /// Create a manager without sessions that keeps 256 KiB of output per
    /// session.
    pub fn new() -> (manager: Self)
        ensures
            manager.wf(),
            manager@ == Seq::<PtySession>::empty(),
            manager.spec_buffer_capacity() == DEFAULT_BUFFER_CAPACITY,
            manager.spec_next_stamp() == 0,
    {
        SessionManager { sessions: Vec::new(), buffer_capacity: DEFAULT_BUFFER_CAPACITY, next_stamp: 0 }
    }

    /// Create a manager without sessions that keeps `capacity` bytes of
    /// output per session.
    pub fn with_buffer_capacity(capacity: usize) -> (manager: Self)
        requires
            capacity > 0,
        ensures
            manager.wf(),
            manager@ == Seq::<PtySession>::empty(),
            manager.spec_buffer_capacity() == capacity,
            manager.spec_next_stamp() == 0,
    {
        SessionManager { sessions: Vec::new(), buffer_capacity: capacity, next_stamp: 0 }
    }

    /// Output history capacity for new sessions.
    #[verifier::when_used_as_spec(spec_buffer_capacity)]
    pub fn buffer_capacity(&self) -> (capacity: usize)
        ensures
            capacity == self.spec_buffer_capacity(),
    {
        self.buffer_capacity
    }

    /// The position of the session with the id `id`, if there is one.
    fn find(&self, id: &str) -> (found: Option<usize>)
        requires
            unique_ids(self@),
        ensures
            found is None <==> !self.contains(id@),
            found matches Some(i) ==> i < self@.len() && self@[i as int].id@ == id@ && i
                == position_of(self@, id@),
    {
        let mut i: usize = 0;
        while i < self.sessions.len()
            invariant
                i <= self.sessions@.len(),
                unique_ids(self@),
                forall|k: int| 0 <= k < i ==> (#[trigger] self.sessions@[k]).id@ != id@,
            decreases self.sessions.len() - i,
        {
            if same_text(self.sessions[i].id.as_str(), id) {
                proof {
                    let at = i as int;
                    assert(self@[at].id@ == id@);
                    let chosen = position_of(self@, id@);
                    assert(0 <= chosen < self@.len() && self@[chosen].id@ == id@);
                    if chosen < at {
                        assert(self@[chosen].id@ != self@[at].id@);
                    } else if at < chosen {
                        assert(self@[at].id@ != self@[chosen].id@);
                    }
                }
                return Some(i);
            }
            i = i + 1;
        }
        None
    }

    /// Register a session whose process the caller has just tried to start
    /// under a new terminal, and return its id.
    ///
    /// `opened` is what opening the terminal and starting the process came
    /// to. On failure nothing is registered. Otherwise the new session gets
    /// an id that no session of this manager ever had, an empty history of
    /// the manager's capacity, and is running. Each spawn moves the floor of
    /// the next id past the id it hands out; the manager runs out of ids
    /// only when the floor has reached the end of its range.
    pub fn spawn(
        &mut self,
        agent_id: String,
        command: &str,
        workdir: &str,
        branch: Option<String>,
        isolated: bool,
        task_id: Option<String>,
        task_title: Option<String>,
        opened: Result<(), String>,
    ) -> (spawned: Result<SessionId, RembrandtError>)
        requires
            old(self).wf(),
        ensures
            final(self).wf(),
            final(self).spec_buffer_capacity() == old(self).spec_buffer_capacity(),
            opened matches Err(reason) ==> spawned == Err::<SessionId, RembrandtError>(
                RembrandtError::Pty(reason),
            ) && final(self)@ == old(self)@ && final(self).spec_next_stamp() == old(
                self,
            ).spec_next_stamp(),
            opened is Ok && old(self).ids_exhausted() ==> (spawned matches Err(
                RembrandtError::Daemon(_),
            )) && final(self)@ == old(self)@ && final(self).ids_exhausted(),
            opened is Ok && !old(self).ids_exhausted() ==> (spawned matches Ok(id) && {
                let session = final(self)@.last();
                &&& !old(self).contains(id@)
                &&& final(self)@ == old(self)@.push(session)
                &&& old(self).spec_next_stamp() < final(self).spec_next_stamp()
                &&& final(self).spec_next_stamp() <= old(self).spec_next_stamp() + 1
                    || final(self).spec_next_stamp() <= MAX_CLOCK_MILLIS + 1
                &&& session.id == id
                &&& exists|millis: nat| id@ == session_id_text(millis)
                &&& session.agent_id == agent_id
                &&& session.status == SessionStatus::Running
                &&& session.created_at.secs >= 0
                &&& session.created_at.nanos < 1_000_000_000
                &&& session.command@ == command@
                &&& session.workdir@ == workdir@
                &&& session.branch == branch
                &&& session.isolated == isolated
                &&& session.task_id == task_id
                &&& session.task_title == task_title
                &&& session.reader_attached
                &&& session.output_buffer@ == Seq::<u8>::empty()
                &&& session.output_buffer.spec_capacity() == old(self).spec_buffer_capacity()
            }),
    {
        match opened {
            Err(reason) => Err(RembrandtError::Pty(reason)),
            Ok(()) => {
                if self.next_stamp == u128::MAX {
                    return Err(RembrandtError::Daemon(String::from_str("session ids are exhausted")));
                }
                let (id, stamp) = generate_session_id_after(self.next_stamp);
                let spawned = PtySession::spawn(
                    id.clone(),
                    agent_id,
                    command,
                    workdir,
                    self.buffer_capacity,
                    branch,
                    isolated,
                    task_id,
                    task_title,
                    Ok(()),
                );
                match spawned {
                    Err(e) => Err(e),
                    Ok(session) => {
                        proof {
                            assert forall|i: int| 0 <= i < self.sessions@.len() implies (
                            #[trigger] self.sessions@[i]).id@ != id@ by {
                                let known = self.sessions@[i].id@;
                                let millis = choose|millis: nat|
                                    millis < self.next_stamp as nat && known
                                        == #[trigger] session_id_text(millis);
                                assert(id@ != session_id_text(millis));
                            }
                        }
                        let ghost before = self.sessions@;
                        self.sessions.push(session);
                        self.next_stamp = stamp + 1;
                        proof {
                            assert forall|i: int| 0 <= i < self.sessions@.len() implies issued_before(
                                (#[trigger] self.sessions@[i]).id@,
                                self.next_stamp as nat,
                            ) by {
                                if i < before.len() {
                                    let known = before[i].id@;
                                    assert(self.sessions@[i] == before[i]);
                                    let millis = choose|millis: nat|
                                        millis < old(self).next_stamp as nat && known
                                            == #[trigger] session_id_text(millis);
                                    assert(millis < self.next_stamp as nat && known
                                        == session_id_text(millis));
                                } else {
                                    assert(self.sessions@[i].id@ == session_id_text(stamp as nat));
                                }
                            }
                            assert(has_id(before, id@) ==> false);
                        }
                        Ok(id)
                    },
                }
            },
        }
    }

    /// The session with the id `id`.
    pub fn get(&self, id: &str) -> (found: Option<&PtySession>)
        requires
            self.wf(),
        ensures
            found is None <==> !self.contains(id@),
            found matches Some(session) ==> *session == self.session(id@) && session.id@ == id@,
    {
        match self.find(id) {
            Some(i) => Some(&self.sessions[i]),
            None => None,
        }
    }

    /// The output history of the session `id` as text for display.
    pub fn read_output(&self, id: &str) -> (text: Option<String>)
        requires
            self.wf(),
        ensures
            text is None <==> !self.contains(id@),
            text matches Some(t) ==> t@ == display_text(self.session(id@).output_buffer@),
    {
        match self.find(id) {
            Some(i) => Some(self.sessions[i].read_output()),
            None => None,
        }
    }

    /// The result of nudging the session `id`, given what writing the nudge
    /// to its terminal came to. `written` is ignored when no session has
    /// this id.
    pub fn nudge(&self, id: &str, written: Result<(), String>) -> (result: Result<
        (),
        RembrandtError,
    >)
        requires
            self.wf(),
        ensures
            !self.contains(id@) ==> not_found(result, id@),
            self.contains(id@) ==> result == pty_result(written),
    {
        match self.find(id) {
            Some(i) => self.sessions[i].nudge(written),
            None => Err(RembrandtError::SessionNotFound(String::from_str(id))),
        }
    }

    /// The result of writing input to the session `id`, given what the
    /// write to its terminal came to. `written` is ignored when no session
    /// has this id.
    pub fn write(&self, id: &str, written: Result<(), String>) -> (result: Result<
        (),
        RembrandtError,
    >)
        requires
            self.wf(),
        ensures
            !self.contains(id@) ==> not_found(result, id@),
            self.contains(id@) ==> result == pty_result(written),
    {
        match self.find(id) {
            Some(i) => self.sessions[i].write(written),
            None => Err(RembrandtError::SessionNotFound(String::from_str(id))),
        }
    }

    /// The result of resizing the terminal of the session `id`, given what
    /// forwarding the new size came to. `resized` is ignored when no session
    /// has this id.
    pub fn resize(&self, id: &str, resized: Result<(), String>) -> (result: Result<
        (),
        RembrandtError,
    >)
        requires
            self.wf(),
        ensures
            !self.contains(id@) ==> not_found(result, id@),
            self.contains(id@) ==> result == pty_result(resized),
    {
        match self.find(id) {
            Some(i) => self.sessions[i].resize(resized),
            None => Err(RembrandtError::SessionNotFound(String::from_str(id))),
        }
    }

    /// Record a kill of the session `id`, given what sending the terminate
    /// signal came to. `signalled` is ignored when no session has this id.
    ///
    /// After the kill the session is `Exited(-1)`, whether or not the signal
    /// could be sent; a failure to send it is returned. No other session
    /// changes.
    pub fn kill(&mut self, id: &str, signalled: Result<(), String>) -> (result: Result<
        (),
        RembrandtError,
    >)
        requires
            old(self).wf(),
        ensures
            final(self).wf(),
            final(self).spec_buffer_capacity() == old(self).spec_buffer_capacity(),
            final(self).spec_next_stamp() == old(self).spec_next_stamp(),
            !old(self).contains(id@) ==> not_found(result, id@) && *final(self) == *old(self),
            old(self).contains(id@) ==> result == pty_result(signalled) && final(self)@ == old(
                self,
            )@.update(
                position_of(old(self)@, id@),
                old(self).session(id@).with_status(SessionStatus::Exited(KILLED_EXIT_CODE)),
            ),
    {
        match self.find(id) {
            Some(i) => {
                let result = self.sessions[i].kill(signalled);
                proof {
                    assert(self.sessions@ =~= old(self).sessions@.update(
                        i as int,
                        old(self).sessions@[i as int].with_status(
                            SessionStatus::Exited(KILLED_EXIT_CODE),
                        ),
                    ));
                    self.lemma_same_ids_keep_wf(*old(self));
                }
                result
            },
            None => Err(RembrandtError::SessionNotFound(String::from_str(id))),
        }
    }

    /// A registry whose sessions have the ids and histories of a well-formed
    /// registry, position by position, is well formed.
    proof fn lemma_same_ids_keep_wf(&self, before: SessionManager)
        requires
            before.wf(),
            self.buffer_capacity == before.buffer_capacity,
            self.next_stamp == before.next_stamp,
            self.sessions@.len() == before.sessions@.len(),
            forall|i: int|
                0 <= i < self.sessions@.len() ==> (#[trigger] self.sessions@[i]).id
                    == before.sessions@[i].id && self.sessions@[i].wf(),
        ensures
            self.wf(),
    {
        assert forall|i: int| 0 <= i < self.sessions@.len() implies issued_before(
            (#[trigger] self.sessions@[i]).id@,
            self.next_stamp as nat,
        ) by {
            assert(issued_before(before.sessions@[i].id@, before.next_stamp as nat));
        }
        assert forall|i: int, j: int| 0 <= i < j < self.sessions@.len() implies (
        #[trigger] self.sessions@[i]).id@ != (#[trigger] self.sessions@[j]).id@ by {
            assert(before.sessions@[i].id@ != before.sessions@[j].id@);
        }
    }

    /// Whether the session `id`, if there is one, can count the bytes of
    /// `reads` (see [`PtySession::has_room_for`]).
    pub open spec fn spec_has_room_for(&self, id: Seq<char>, reads: Seq<ReadOutcome>) -> bool {
        self.contains(id) ==> self.session(id).spec_has_room_for(reads)
    }

    /// Whether every session can count the bytes of the reads that belong
    /// to it.
    pub open spec fn spec_has_room_for_all(&self, reads: Seq<Vec<ReadOutcome>>) -> bool {
        forall|i: int|
            0 <= i < self@.len() ==> (#[trigger] self@[i]).spec_has_room_for(reads_at(reads, i))
    }

    /// Whether the session `id`, if there is one, can count the bytes of
    /// `reads`; where it can, [`Self::get_history`] may take them in.
    pub fn has_room_for(&self, id: &str, reads: &Vec<ReadOutcome>) -> (room: bool)
        requires
            self.wf(),
        ensures
            room == self.spec_has_room_for(id@, reads@),
    {
        match self.find(id) {
            Some(i) => self.sessions[i].has_room_for(reads),
            None => true,
        }
    }

    /// Whether every session can count the bytes of the reads that belong
    /// to it; where they can, [`Self::read_all_available`] may take them in.
    pub fn has_room_for_all(&self, reads: &Vec<Vec<ReadOutcome>>) -> (room: bool)
        ensures
            room == self.spec_has_room_for_all(reads@),
    {
        let none: Vec<ReadOutcome> = Vec::new();
        let mut i: usize = 0;
        while i < self.sessions.len()
            invariant
                i <= self.sessions@.len(),
                none@.len() == 0,
                forall|k: int|
                    0 <= k < i ==> (#[trigger] self@[k]).spec_has_room_for(reads_at(reads@, k)),
            decreases self.sessions.len() - i,
        {
            let room = if i < reads.len() {
                assert(reads_at(reads@, i as int) == reads@[i as int]@);
                self.sessions[i].has_room_for(&reads[i])
            } else {
                assert(reads_at(reads@, i as int) =~= none@);
                self.sessions[i].has_room_for(&none)
            };
            if !room {
                assert(!self@[i as int].spec_has_room_for(reads_at(reads@, i as int)));
                return false;
            }
            i = i + 1;
        }
        true
    }

    /// The output history of the session `id`, after taking in what a drain
    /// of its terminal produced (see [`PtySession::read_available`]).
    /// `reads` is ignored when no session has this id.
    pub fn get_history(&mut self, id: &str, reads: &Vec<ReadOutcome>) -> (result: Result<
        Vec<u8>,
        RembrandtError,
    >)
        requires
            old(self).wf(),
            old(self).spec_has_room_for(id@, reads@),
        ensures
            final(self).wf(),
            final(self).spec_buffer_capacity() == old(self).spec_buffer_capacity(),
            final(self).spec_next_stamp() == old(self).spec_next_stamp(),
            !old(self).contains(id@) ==> not_found(result, id@) && *final(self) == *old(self),
            old(self).contains(id@) ==> ({
                let at = position_of(old(self)@, id@);
                let before = old(self)@[at];
                let after = final(self)@[at];
                &&& result matches Ok(history) && history@ == after.output_buffer@
                &&& final(self)@ == old(self)@.update(at, after)
                &&& before.same_but_output(&after)
                &&& after.output_buffer@ == if before.reader_attached {
                    keep_last(
                        before.output_buffer@ + drained_bytes(reads@),
                        before.output_buffer.spec_capacity() as nat,
                    )
                } else {
                    before.output_buffer@
                }
            }),
    {
        match self.find(id) {
            Some(i) => {
                self.sessions[i].read_available(reads);
                proof {
                    assert(self.sessions@ =~= old(self).sessions@.update(
                        i as int,
                        self.sessions@[i as int],
                    ));
                    self.lemma_same_ids_keep_wf(*old(self));
                }
                Ok(self.sessions[i].read_output_raw())
            },
            None => Err(RembrandtError::SessionNotFound(String::from_str(id))),
        }
    }

    /// Loan the reader of the session `id` to an attach consumer.
    ///
    /// Fails with `SessionNotFound` for an unknown id and with a terminal
    /// error if the reader is on loan already; the registry is unchanged
    /// then. Otherwise the reader is on loan from now on, and until it is
    /// returned no output reaches the history of the session.
    pub fn take_reader(&mut self, id: &str) -> (result: Result<(), RembrandtError>)
        requires
            old(self).wf(),
        ensures
            final(self).wf(),
            final(self).spec_buffer_capacity() == old(self).spec_buffer_capacity(),
            final(self).spec_next_stamp() == old(self).spec_next_stamp(),
            !old(self).contains(id@) ==> not_found(result, id@) && *final(self) == *old(self),
            old(self).contains(id@) && !old(self).session(id@).reader_attached ==> (
            result matches Err(RembrandtError::Pty(reason)) && reason@
                == "PTY reader not available (already attached?)"@) && *final(self) == *old(self),
            old(self).contains(id@) && old(self).session(id@).reader_attached ==> result is Ok
                && final(self)@ == old(self)@.update(
                position_of(old(self)@, id@),
                PtySession { reader_attached: false, ..old(self).session(id@) },
            ),
    {
        match self.find(id) {
            Some(i) => {
                if !self.sessions[i].reader_attached {
                    return Err(
                        RembrandtError::Pty(
                            String::from_str("PTY reader not available (already attached?)"),
                        ),
                    );
                }
                self.sessions[i].take_reader();
                proof {
                    assert(self.sessions@ =~= old(self).sessions@.update(
                        i as int,
                        PtySession { reader_attached: false, ..old(self).sessions@[i as int] },
                    ));
                    self.lemma_same_ids_keep_wf(*old(self));
                }
                Ok(())
            },
            None => Err(RembrandtError::SessionNotFound(String::from_str(id))),
        }
    }

    /// Take the reader of the session `id` back from an attach consumer.
    ///
    /// Returns whether the session is still registered. If it is not, the
    /// reader has no session to go back to and may be dropped; nothing
    /// changes then.
    pub fn return_reader(&mut self, id: &str) -> (accepted: bool)
        requires
            old(self).wf(),
        ensures
            final(self).wf(),
            final(self).spec_buffer_capacity() == old(self).spec_buffer_capacity(),
            final(self).spec_next_stamp() == old(self).spec_next_stamp(),
            accepted == old(self).contains(id@),
            !old(self).contains(id@) ==> *final(self) == *old(self),
            old(self).contains(id@) ==> final(self)@ == old(self)@.update(
                position_of(old(self)@, id@),
                PtySession { reader_attached: true, ..old(self).session(id@) },
            ),
    {
        match self.find(id) {
            Some(i) => {
                self.sessions[i].return_reader();
                proof {
                    assert(self.sessions@ =~= old(self).sessions@.update(
                        i as int,
                        PtySession { reader_attached: true, ..old(self).sessions@[i as int] },
                    ));
                    self.lemma_same_ids_keep_wf(*old(self));
                }
                true
            },
            None => false,
        }
    }

    /// Take the session `id` out of the registry.
    pub fn remove(&mut self, id: &str) -> (removed: Option<PtySession>)
        requires
            old(self).wf(),
        ensures
            final(self).wf(),
            final(self).spec_buffer_capacity() == old(self).spec_buffer_capacity(),
            final(self).spec_next_stamp() == old(self).spec_next_stamp(),
            !old(self).contains(id@) ==> removed is None && *final(self) == *old(self),
            old(self).contains(id@) ==> removed == Some(old(self).session(id@)) && final(self)@
                == old(self)@.remove(position_of(old(self)@, id@)) && !final(self).contains(id@),
    {
        match self.find(id) {
            Some(i) => {
                let session = self.sessions.remove(i);
                proof {
                    self.lemma_removal_keeps_wf(*old(self), i as int);
                    if has_id(self@, id@) {
                        let k = choose|k: int| 0 <= k < self@.len() && (#[trigger] self@[k]).id@ == id@;
                        if k < i {
                            assert(old(self)@[k].id@ != old(self)@[i as int].id@);
                        } else {
                            assert(old(self)@[i as int].id@ != old(self)@[k + 1].id@);
                        }
                    }
                }
                Some(session)
            },
            None => None,
        }
    }

    /// A well-formed registry stays well formed when a session leaves it.
    proof fn lemma_removal_keeps_wf(&self, before: SessionManager, at: int)
        requires
            before.wf(),
            0 <= at < before.sessions@.len(),
            self.buffer_capacity == before.buffer_capacity,
            self.next_stamp == before.next_stamp,
            self.sessions@ == before.sessions@.remove(at),
        ensures
            self.wf(),
    {
        assert forall|i: int| 0 <= i < self.sessions@.len() implies (#[trigger] self.sessions@[i]).wf()
            && issued_before(self.sessions@[i].id@, self.next_stamp as nat) by {
            if i < at {
                assert(self.sessions@[i] == before.sessions@[i]);
            } else {
                assert(self.sessions@[i] == before.sessions@[i + 1]);
            }
        }
        assert forall|i: int, j: int| 0 <= i < j < self.sessions@.len() implies (
        #[trigger] self.sessions@[i]).id@ != (#[trigger] self.sessions@[j]).id@ by {
            let bi = if i < at {
                i
            } else {
                i + 1
            };
            let bj = if j < at {
                j
            } else {
                j + 1
            };
            assert(self.sessions@[i] == before.sessions@[bi]);
            assert(self.sessions@[j] == before.sessions@[bj]);
            assert(before.sessions@[bi].id@ != before.sessions@[bj].id@);
        }
    }

    /// A summary of every session, in the order in which they were spawned.
    pub fn list(&self) -> (listing: Vec<SessionInfo>)
        ensures
            listing@ == infos(self@),
    {
        let mut listing: Vec<SessionInfo> = Vec::new();
        let mut i: usize = 0;
        while i < self.sessions.len()
            invariant
                i <= self.sessions@.len(),
                listing@ == infos(self.sessions@.take(i as int)),
            decreases self.sessions.len() - i,
        {
            listing.push(SessionInfo::from(&self.sessions[i]));
            i = i + 1;
            assert(listing@ =~= infos(self.sessions@.take(i as int)));
        }
        assert(self.sessions@.take(i as int) =~= self.sessions@);
        listing
    }

    /// A summary of every session of the agent `agent_id`, in the order in
    /// which they were spawned.
    pub fn list_by_agent(&self, agent_id: &str) -> (listing: Vec<SessionInfo>)
        ensures
            listing@ == infos(of_agent(self@, agent_id@)),
    {
        let mut listing: Vec<SessionInfo> = Vec::new();
        let mut i: usize = 0;
        while i < self.sessions.len()
            invariant
                i <= self.sessions@.len(),
                listing@ == infos(of_agent(self.sessions@.take(i as int), agent_id@)),
            decreases self.sessions.len() - i,
        {
            let ghost prefix = self.sessions@.take(i as int);
            let ghost next = self.sessions@.take(i + 1);
            assert(next.drop_last() =~= prefix);
            assert(next.last() == self.sessions@[i as int]);
            if same_text(self.sessions[i].agent_id.as_str(), agent_id) {
                listing.push(SessionInfo::from(&self.sessions[i]));
            }
            i = i + 1;
            assert(listing@ =~= infos(of_agent(self.sessions@.take(i as int), agent_id@)));
        }
        assert(self.sessions@.take(i as int) =~= self.sessions@);
        listing
    }

    /// Poll every session and report the sessions that have just ended.
    ///
    /// `waits` holds, for each session in registry order, what a
    /// non-blocking wait on its child reported; a session for which none is
    /// given counts as still running. Each session is polled once (see
    /// [`PtySession::poll`]). The result has one record for every session
    /// that was running before this call and is not running after it.
    pub fn poll_all(&mut self, waits: &Vec<WaitOutcome>) -> (edges: Vec<ExitedSession>)
        requires
            old(self).wf(),
        ensures
            final(self).wf(),
            final(self).spec_buffer_capacity() == old(self).spec_buffer_capacity(),
            final(self).spec_next_stamp() == old(self).spec_next_stamp(),
            final(self)@ == polled(old(self)@, waits@),
            edges@ == exit_edges(old(self)@, final(self)@),
    {
        let mut edges: Vec<ExitedSession> = Vec::new();
        let mut i: usize = 0;
        let n = self.sessions.len();
        assert(exit_edges(old(self)@.take(0), polled(old(self)@, waits@).take(0)) =~= Seq::<
            ExitedSession,
        >::empty());
        while i < n
            invariant
                i <= n,
                n == self.sessions@.len(),
                n == old(self).sessions@.len(),
                self.buffer_capacity == old(self).buffer_capacity,
                self.next_stamp == old(self).next_stamp,
                old(self).wf(),
                forall|k: int|
                    0 <= k < i ==> (#[trigger] self.sessions@[k]) == old(self).sessions@[k].after_wait(
                        wait_at(waits@, k),
                    ),
                forall|k: int| i <= k < n ==> (#[trigger] self.sessions@[k]) == old(self).sessions@[k],
                edges@ == exit_edges(
                    old(self).sessions@.take(i as int),
                    polled(old(self).sessions@, waits@).take(i as int),
                ),
            decreases n - i,
        {
            let was_running = self.sessions[i].is_running();
            let outcome = if i < waits.len() {
                waits[i].clone()
            } else {
                WaitOutcome::StillRunning
            };
            let status = self.sessions[i].poll(outcome);
            if was_running && !status.is_running() {
                edges.push(
                    ExitedSession {
                        session_id: self.sessions[i].id.clone(),
                        agent_id: self.sessions[i].agent_id.clone(),
                        task_id: clone_opt_text(&self.sessions[i].task_id),
                        exit_code: status.reported_code(),
                    },
                );
            }
            proof {
                let before = old(self).sessions@;
                let after = polled(before, waits@);
                assert(before.take(i + 1).drop_last() =~= before.take(i as int));
                assert(after.take(i + 1).drop_last() =~= after.take(i as int));
                assert(before.take(i + 1).last() == before[i as int]);
                assert(after.take(i + 1).last() == after[i as int]);
                assert(self.sessions@[i as int] == after[i as int]);
            }
            i = i + 1;
        }
        proof {
            let before = old(self).sessions@;
            let after = polled(before, waits@);
            assert(before.take(n as int) =~= before);
            assert(after.take(n as int) =~= after);
            assert(self.sessions@ =~= after);
            self.lemma_same_ids_keep_wf(*old(self));
        }
        edges
    }

    /// Take in, for every session, what a drain of its terminal produced.
    ///
    /// `reads` holds, for each session in registry order, the outcomes of
    /// successive reads of its terminal (see [`PtySession::read_available`]);
    /// a session for which none are given receives nothing.
    pub fn read_all_available(&mut self, reads: &Vec<Vec<ReadOutcome>>)
        requires
            old(self).wf(),
            old(self).spec_has_room_for_all(reads@),
        ensures
            final(self).wf(),
            final(self).spec_buffer_capacity() == old(self).spec_buffer_capacity(),
            final(self).spec_next_stamp() == old(self).spec_next_stamp(),
            final(self)@.len() == old(self)@.len(),
            forall|i: int|
                0 <= i < old(self)@.len() ==> {
                    let before = #[trigger] old(self)@[i];
                    let after = final(self)@[i];
                    &&& before.same_but_output(&after)
                    &&& after.output_buffer@ == if before.reader_attached {
                        keep_last(
                            before.output_buffer@ + drained_bytes(reads_at(reads@, i)),
                            before.output_buffer.spec_capacity() as nat,
                        )
                    } else {
                        before.output_buffer@
                    }
                },
    {
        let n = self.sessions.len();
        let mut i: usize = 0;
        let none: Vec<ReadOutcome> = Vec::new();
        while i < n
            invariant
                i <= n,
                n == self.sessions@.len(),
                n == old(self).sessions@.len(),
                self.buffer_capacity == old(self).buffer_capacity,
                self.next_stamp == old(self).next_stamp,
                old(self).wf(),
                none@.len() == 0,
                old(self).spec_has_room_for_all(reads@),
                forall|k: int| i <= k < n ==> (#[trigger] self.sessions@[k]) == old(self).sessions@[k],
                forall|k: int|
                    0 <= k < i ==> {
                        let before = #[trigger] old(self).sessions@[k];
                        let after = self.sessions@[k];
                        &&& after.wf()
                        &&& before.same_but_output(&after)
                        &&& after.output_buffer@ == if before.reader_attached {
                            keep_last(
                                before.output_buffer@ + drained_bytes(reads_at(reads@, k)),
                                before.output_buffer.spec_capacity() as nat,
                            )
                        } else {
                            before.output_buffer@
                        }
                    },
            decreases n - i,
        {
            assert(self.sessions@[i as int] == old(self)@[i as int]);
            assert(old(self)@[i as int].wf());
            if i < reads.len() {
                assert(reads_at(reads@, i as int) == reads@[i as int]@);
                self.sessions[i].read_available(&reads[i]);
            } else {
                assert(reads_at(reads@, i as int) =~= none@);
                self.sessions[i].read_available(&none);
            }
            i = i + 1;
        }
        proof {
            assert forall|k: int| 0 <= k < self.sessions@.len() implies (#[trigger] self.sessions@[k]).id
                == old(self).sessions@[k].id && self.sessions@[k].wf() by {
                assert(old(self).sessions@[k].same_but_output(&self.sessions@[k]));
            }
            self.lemma_same_ids_keep_wf(*old(self));
        }
    }

    /// The ids of the sessions that `filter` accepts, in registry order.
    fn ids_where(&self, filter: SessionFilter) -> (found: Vec<SessionId>)
        ensures
            found@ == ids(select(self@, filter, true)),
    {
        let mut found: Vec<SessionId> = Vec::new();
        let mut i: usize = 0;
        while i < self.sessions.len()
            invariant
                i <= self.sessions@.len(),
                found@ == ids(select(self.sessions@.take(i as int), filter, true)),
            decreases self.sessions.len() - i,
        {
            let ghost prefix = self.sessions@.take(i as int);
            let ghost next = self.sessions@.take(i + 1);
            assert(next.drop_last() =~= prefix);
            assert(next.last() == self.sessions@[i as int]);
            if filter.accepts(&self.sessions[i].status) {
                found.push(self.sessions[i].id.clone());
            }
            i = i + 1;
            assert(found@ =~= ids(select(self.sessions@.take(i as int), filter, true)));
        }
        assert(self.sessions@.take(i as int) =~= self.sessions@);
        found
    }

    /// Take the sessions that `filter` accepts out of the registry and
    /// return their ids, in registry order.
    fn remove_where(&mut self, filter: SessionFilter) -> (removed: Vec<SessionId>)
        requires
            old(self).wf(),
        ensures
            final(self).wf(),
            final(self).spec_buffer_capacity() == old(self).spec_buffer_capacity(),
            final(self).spec_next_stamp() == old(self).spec_next_stamp(),
            removed@ == ids(select(old(self)@, filter, true)),
            final(self)@ == select(old(self)@, filter, false),
    {
        let mut removed: Vec<SessionId> = Vec::new();
        let mut kept: usize = 0;
        let ghost mut seen: int = 0;
        let ghost all = self.sessions@;
        assert(all.take(0) =~= Seq::<PtySession>::empty());
        assert(all.skip(0) =~= all);
        while kept < self.sessions.len()
            invariant
                all == old(self).sessions@,
                old(self).wf(),
                self.wf(),
                self.buffer_capacity == old(self).buffer_capacity,
                self.next_stamp == old(self).next_stamp,
                0 <= seen <= all.len(),
                kept <= self.sessions@.len(),
                kept == select(all.take(seen), filter, false).len(),
                self.sessions@ == select(all.take(seen), filter, false) + all.skip(seen),
                removed@ == ids(select(all.take(seen), filter, true)),
            decreases all.len() - seen,
        {
            let ghost prefix = all.take(seen);
            let ghost next = all.take(seen + 1);
            let ghost current = self.sessions@;
            assert(next.drop_last() =~= prefix);
            assert(next.last() == all[seen]);
            assert(current[kept as int] == all.skip(seen)[0]);
            assert(all.skip(seen).len() > 0);
            if filter.accepts(&self.sessions[kept].status) {
                let ghost snapshot = *self;
                let session = self.sessions.remove(kept);
                removed.push(session.id);
                proof {
                    self.lemma_removal_keeps_wf(snapshot, kept as int);
                    assert(self.sessions@ =~= select(next, filter, false) + all.skip(seen + 1));
                    assert(removed@ =~= ids(select(next, filter, true)));
                }
            } else {
                kept = kept + 1;
                proof {
                    assert(self.sessions@ =~= select(next, filter, false) + all.skip(seen + 1));
                    assert(removed@ =~= ids(select(next, filter, true)));
                }
            }
            proof {
                seen = seen + 1;
            }
        }
        proof {
            assert(all.skip(seen).len() == 0);
            assert(seen == all.len());
            assert(all.take(seen) =~= all);
            assert(self.sessions@ =~= select(all, filter, false));
        }
        removed
    }

    /// The ids of all sessions that have ended.
    pub fn exited_sessions(&self) -> (found: Vec<SessionId>)
        ensures
            found@ == ids(select(self@, SessionFilter::Terminal, true)),
    {
        self.ids_where(SessionFilter::Terminal)
    }

    /// The ids of the sessions that ended with a non-zero exit code or whose
    /// state could not be determined.
    pub fn failed_sessions(&self) -> (found: Vec<SessionId>)
        ensures
            found@ == ids(select(self@, SessionFilter::Failed, true)),
    {
        self.ids_where(SessionFilter::Failed)
    }

    /// Remove the sessions that exited with code 0 and return their ids.
    ///
    /// Failures are the signal the operator must see: sessions that ended
    /// with a non-zero code or in `Failed` stay, as do running sessions.
    pub fn cleanup(&mut self) -> (removed: Vec<SessionId>)
        requires
            old(self).wf(),
        ensures
            final(self).wf(),
            final(self).spec_buffer_capacity() == old(self).spec_buffer_capacity(),
            final(self).spec_next_stamp() == old(self).spec_next_stamp(),
            removed@ == ids(select(old(self)@, SessionFilter::CleanExit, true)),
            final(self)@ == select(old(self)@, SessionFilter::CleanExit, false),
            forall|i: int|
                0 <= i < final(self)@.len() ==> (#[trigger] final(self)@[i]).status.is_terminal()
                    ==> final(self)@[i].status.spec_is_failure(),
    {
        let removed = self.remove_where(SessionFilter::CleanExit);
        proof {
            lemma_select_members(old(self)@, SessionFilter::CleanExit, false);
        }
        removed
    }

    /// Remove every session that has ended, failures included, and return
    /// their ids. Only running sessions remain.
    pub fn cleanup_all(&mut self) -> (removed: Vec<SessionId>)
        requires
            old(self).wf(),
        ensures
            final(self).wf(),
            final(self).spec_buffer_capacity() == old(self).spec_buffer_capacity(),
            final(self).spec_next_stamp() == old(self).spec_next_stamp(),
            removed@ == ids(select(old(self)@, SessionFilter::Terminal, true)),
            final(self)@ == select(old(self)@, SessionFilter::Terminal, false),
            forall|i: int|
                0 <= i < final(self)@.len() ==> (#[trigger] final(self)@[i]).status.spec_is_running(),
    {
        let removed = self.remove_where(SessionFilter::Terminal);
        proof {
            lemma_select_members(old(self)@, SessionFilter::Terminal, false);
        }
        removed
    }

    /// The number of sessions that are running.
    pub fn active_count(&self) -> (count: usize)
        ensures
            count == select(self@, SessionFilter::Running, true).len(),
    {
        let mut count: usize = 0;
        let mut i: usize = 0;
        while i < self.sessions.len()
            invariant
                i <= self.sessions@.len(),
                count <= i,
                count == select(self.sessions@.take(i as int), SessionFilter::Running, true).len(),
            decreases self.sessions.len() - i,
        {
            let ghost prefix = self.sessions@.take(i as int);
            let ghost next = self.sessions@.take(i + 1);
            assert(next.drop_last() =~= prefix);
            assert(next.last() == self.sessions@[i as int]);
            if self.sessions[i].is_running() {
                count = count + 1;
            }
            i = i + 1;
        }
        assert(self.sessions@.take(i as int) =~= self.sessions@);
        count
    }

    /// The number of sessions, ended ones included.
    pub fn total_count(&self) -> (count: usize)
        ensures
            count == self@.len(),
    {
        self.sessions.len()
    }
}

/// Every selected session comes from the registry and has a status that
/// the filter treats as asked.
pub proof fn lemma_select_members(sessions: Seq<PtySession>, filter: SessionFilter, wanted: bool)
    ensures
        forall|i: int|
            0 <= i < select(sessions, filter, wanted).len() ==> filter.spec_accepts(
                &(#[trigger] select(sessions, filter, wanted)[i]).status,
            ) == wanted && sessions.contains(select(sessions, filter, wanted)[i]),
    decreases sessions.len(),
{
    if sessions.len() > 0 {
        lemma_select_members(sessions.drop_last(), filter, wanted);
        let rest = select(sessions.drop_last(), filter, wanted);
        let all = select(sessions, filter, wanted);
        assert forall|i: int| 0 <= i < all.len() implies filter.spec_accepts(
            &(#[trigger] all[i]).status,
        ) == wanted && sessions.contains(all[i]) by {
            if i < rest.len() {
                assert(all[i] == rest[i]);
                assert(sessions.drop_last().contains(rest[i]));
                let k = choose|k: int|
                    0 <= k < sessions.drop_last().len() && sessions.drop_last()[k] == rest[i];
                assert(sessions[k] == rest[i]);
            } else {
                assert(all[i] == sessions.last());
                assert(sessions[sessions.len() - 1] == sessions.last());
            }
        }
    }
}

/// The registry after the first `k` rounds of `rounds`, where each round
/// polls every session once.
pub open spec fn after_rounds(sessions: Seq<PtySession>, rounds: Seq<Seq<WaitOutcome>>, k: nat) -> Seq<
    PtySession,
>
    decreases k,
{
    if k == 0 {
        sessions
    } else {
        polled(after_rounds(sessions, rounds, (k - 1) as nat), rounds[k - 1])
    }
}

/// The exit edges that round `k` of `rounds` reports.
pub open spec fn edges_of_round(
    sessions: Seq<PtySession>,
    rounds: Seq<Seq<WaitOutcome>>,
    k: nat,
) -> Seq<ExitedSession> {
    exit_edges(after_rounds(sessions, rounds, k), after_rounds(sessions, rounds, k + 1))
}

/// Every exit edge stems from a session that was running before and is not
/// running after, and carries that session's id.
pub proof fn lemma_edge_source(before: Seq<PtySession>, after: Seq<PtySession>, e: int)
    requires
        before.len() == after.len(),
        0 <= e < exit_edges(before, after).len(),
    ensures
        exists|p: int|
            0 <= p < before.len() && (#[trigger] before[p]).status.spec_is_running()
                && after[p].status.is_terminal() && exit_edges(before, after)[e]
                == ExitedSession::of(after[p]),
    decreases before.len(),
{
    let edges = exit_edges(before, after);
    let rest = exit_edges(before.drop_last(), after.drop_last());
    if e < rest.len() {
        lemma_edge_source(before.drop_last(), after.drop_last(), e);
        let p = choose|p: int|
            0 <= p < before.drop_last().len() && (#[trigger] before.drop_last()[p]).status.spec_is_running()
                && after.drop_last()[p].status.is_terminal() && rest[e] == ExitedSession::of(
                after.drop_last()[p],
            );
        assert(before[p].status.spec_is_running() && after[p].status.is_terminal() && edges[e]
            == ExitedSession::of(after[p]));
    } else {
        let p = before.len() - 1;
        assert(before[p].status.spec_is_running() && after[p].status.is_terminal() && edges[e]
            == ExitedSession::of(after[p]));
    }
}

/// Within one call of `poll_all` no session is reported twice.
pub proof fn lemma_edges_distinct(before: Seq<PtySession>, after: Seq<PtySession>, i: int, j: int)
    requires
        before.len() == after.len(),
        unique_ids(after),
        0 <= i < j < exit_edges(before, after).len(),
    ensures
        exit_edges(before, after)[i].session_id@ != exit_edges(before, after)[j].session_id@,
    decreases before.len(),
{
    let edges = exit_edges(before, after);
    let rest = exit_edges(before.drop_last(), after.drop_last());
    assert forall|a: int, b: int| 0 <= a < b < after.drop_last().len() implies (
    #[trigger] after.drop_last()[a]).id@ != (#[trigger] after.drop_last()[b]).id@ by {
        assert(after[a].id@ != after[b].id@);
    }
    if j < rest.len() {
        lemma_edges_distinct(before.drop_last(), after.drop_last(), i, j);
    } else {
        lemma_edge_source(before.drop_last(), after.drop_last(), i);
        let p = choose|p: int|
            0 <= p < before.drop_last().len() && (#[trigger] before.drop_last()[p]).status.spec_is_running()
                && after.drop_last()[p].status.is_terminal() && rest[i] == ExitedSession::of(
                after.drop_last()[p],
            );
        assert(edges[i].session_id == after[p].id);
        assert(edges[j].session_id == after[after.len() - 1].id);
        assert(after[p].id@ != after[after.len() - 1].id@);
    }
}

/// Polling does not change the number of sessions.
pub proof fn lemma_rounds_keep_length(
    sessions: Seq<PtySession>,
    rounds: Seq<Seq<WaitOutcome>>,
    k: nat,
)
    ensures
        after_rounds(sessions, rounds, k).len() == sessions.len(),
    decreases k,
{
    if k > 0 {
        lemma_rounds_keep_length(sessions, rounds, (k - 1) as nat);
    }
}

/// Polling does not change the id of a session, and a session that has
/// ended stays ended in every later round.
pub proof fn lemma_rounds_preserve(
    sessions: Seq<PtySession>,
    rounds: Seq<Seq<WaitOutcome>>,
    from: nat,
    to: nat,
    p: int,
)
    requires
        from <= to,
        0 <= p < sessions.len(),
    ensures
        after_rounds(sessions, rounds, to).len() == sessions.len(),
        after_rounds(sessions, rounds, to)[p].id == sessions[p].id,
        after_rounds(sessions, rounds, from)[p].status.is_terminal() ==> after_rounds(
            sessions,
            rounds,
            to,
        )[p].status == after_rounds(sessions, rounds, from)[p].status,
    decreases to,
{
    if to > 0 {
        let earlier = (to - 1) as nat;
        if from <= earlier {
            lemma_rounds_preserve(sessions, rounds, from, earlier, p);
        } else {
            lemma_rounds_preserve(sessions, rounds, earlier, earlier, p);
        }
    }
}

/// Exit edges are unique: over any number of calls of `poll_all` with no
/// spawn in between, no session is reported twice, neither within one call
/// nor by two calls.
pub proof fn lemma_poll_edges_unique(
    sessions: Seq<PtySession>,
    rounds: Seq<Seq<WaitOutcome>>,
    a: nat,
    i: int,
    b: nat,
    j: int,
)
    requires
        unique_ids(sessions),
        a <= b,
        0 <= i < edges_of_round(sessions, rounds, a).len(),
        0 <= j < edges_of_round(sessions, rounds, b).len(),
        a != b || i != j,
    ensures
        edges_of_round(sessions, rounds, a)[i].session_id@ != edges_of_round(
            sessions,
            rounds,
            b,
        )[j].session_id@,
{
    let before_a = after_rounds(sessions, rounds, a);
    let after_a = after_rounds(sessions, rounds, a + 1);
    let before_b = after_rounds(sessions, rounds, b);
    let after_b = after_rounds(sessions, rounds, b + 1);
    lemma_rounds_keep_length(sessions, rounds, a);
    lemma_rounds_keep_length(sessions, rounds, a + 1);
    lemma_rounds_keep_length(sessions, rounds, b);
    lemma_rounds_keep_length(sessions, rounds, b + 1);
    if a == b {
        assert forall|x: int, y: int| 0 <= x < y < after_a.len() implies (#[trigger] after_a[x]).id@
            != (#[trigger] after_a[y]).id@ by {
            lemma_rounds_preserve(sessions, rounds, a, a + 1, x);
            lemma_rounds_preserve(sessions, rounds, a, a + 1, y);
            assert(sessions[x].id@ != sessions[y].id@);
        }
        if i < j {
            lemma_edges_distinct(before_a, after_a, i, j);
        } else {
            lemma_edges_distinct(before_a, after_a, j, i);
        }
    } else {
        lemma_edge_source(before_a, after_a, i);
        lemma_edge_source(before_b, after_b, j);
        let p = choose|p: int|
            0 <= p < before_a.len() && (#[trigger] before_a[p]).status.spec_is_running()
                && after_a[p].status.is_terminal() && exit_edges(before_a, after_a)[i]
                == ExitedSession::of(after_a[p]);
        let q = choose|q: int|
            0 <= q < before_b.len() && (#[trigger] before_b[q]).status.spec_is_running()
                && after_b[q].status.is_terminal() && exit_edges(before_b, after_b)[j]
                == ExitedSession::of(after_b[q]);
        lemma_rounds_preserve(sessions, rounds, a, a + 1, p);
        lemma_rounds_preserve(sessions, rounds, b, b + 1, q);
        if p == q {
            // Ended in round `a`, it cannot have been running before round `b`.
            lemma_rounds_preserve(sessions, rounds, a + 1, b, p);
        } else if p < q {
            assert(sessions[p].id@ != sessions[q].id@);
        } else {
            assert(sessions[q].id@ != sessions[p].id@);
        }
    }
}

/// The cleanup policy: what `cleanup` leaves behind is running or a
/// failure, and what `cleanup_all` leaves behind is running.
pub proof fn lemma_cleanup_policy(sessions: Seq<PtySession>, i: int, j: int)
    requires
        0 <= i < select(sessions, SessionFilter::CleanExit, false).len(),
        0 <= j < select(sessions, SessionFilter::Terminal, false).len(),
    ensures
        select(sessions, SessionFilter::CleanExit, false)[i].status.is_terminal() ==> select(
            sessions,
            SessionFilter::CleanExit,
            false,
        )[i].status.spec_is_failure(),
        select(sessions, SessionFilter::Terminal, false)[j].status.spec_is_running(),
{
    lemma_select_members(sessions, SessionFilter::CleanExit, false);
    lemma_select_members(sessions, SessionFilter::Terminal, false);
}

} // verus!
