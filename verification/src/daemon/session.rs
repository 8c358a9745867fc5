//! One supervised terminal session.
//!
//! A [`PtySession`] is the state of one agent process running under a
//! pseudo-terminal: who it belongs to, whether it still runs, and the recent
//! output it produced. The terminal itself is driven by the caller, who
//! reports what each operation on it returned; the session decides what that
//! means for its state.

use vstd::prelude::*;
use vstd::string::*;
use crate::daemon::buffer::{keep_last, lemma_keep_last_absorbs, RingBuffer};
use crate::error::RembrandtError;
use crate::text::same_text;
use crate::timestamp::Timestamp;

verus! {

/// Unique session identifier.
pub type SessionId = String;

/// Rows of a terminal whose size the caller left open.
pub const DEFAULT_ROWS: u16 = 24;

/// Columns of a terminal whose size the caller left open.
pub const DEFAULT_COLS: u16 = 80;

/// The exit code recorded for a session that was killed.
pub const KILLED_EXIT_CODE: i32 = -1;

/// The exit code reported for a session whose state could not be determined.
pub const FAILED_EXIT_CODE: i32 = -1;

/// The largest chunk that one read of the terminal hands over.
pub const READ_CHUNK_SIZE: usize = 4096;

/// The lower-case hexadecimal digit for `d`.
pub open spec fn hex_digit(d: nat) -> char
    recommends
        d < 16,
{
    seq!['0', '1', '2', '3', '4', '5', '6', '7', '8', '9', 'a', 'b', 'c', 'd', 'e', 'f'][d as int]
}

/// `n` in lower-case hexadecimal, most significant digit first, without
/// leading zeros.
pub open spec fn hex_text(n: nat) -> Seq<char>
    decreases n,
{
    if n < 16 {
        seq![hex_digit(n)]
    } else {
        hex_text(n / 16).push(hex_digit(n % 16))
    }
}

/// The id of a session created `millis` milliseconds after the epoch.
pub open spec fn session_id_text(millis: nat) -> Seq<char> {
    "ses-"@ + hex_text(millis)
}

/// The number that a hexadecimal text stands for.
pub open spec fn hex_value(text: Seq<char>) -> nat
    decreases text.len(),
{
    if text.len() == 0 {
        0
    } else {
        16 * hex_value(text.drop_last()) + hex_digit_value(text.last())
    }
}

/// The value of one hexadecimal digit.
pub open spec fn hex_digit_value(c: char) -> nat {
    if c == '0' {
        0
    } else if c == '1' {
        1
    } else if c == '2' {
        2
    } else if c == '3' {
        3
    } else if c == '4' {
        4
    } else if c == '5' {
        5
    } else if c == '6' {
        6
    } else if c == '7' {
        7
    } else if c == '8' {
        8
    } else if c == '9' {
        9
    } else if c == 'a' {
        10
    } else if c == 'b' {
        11
    } else if c == 'c' {
        12
    } else if c == 'd' {
        13
    } else if c == 'e' {
        14
    } else {
        15
    }
}

/// Reading back the hexadecimal text of a number gives the number.
pub proof fn lemma_hex_round_trip(n: nat)
    ensures
        hex_value(hex_text(n)) == n,
    decreases n,
{
    if n < 16 {
        let text = hex_text(n);
        assert(text.len() == 1);
        assert(text.last() == hex_digit(n));
        assert(text.drop_last().len() == 0);
        assert(hex_value(text.drop_last()) == 0);
    } else {
        lemma_hex_round_trip(n / 16);
        let text = hex_text(n);
        assert(text.drop_last() =~= hex_text(n / 16));
        assert(text.last() == hex_digit(n % 16));
    }
}

/// Different instants give different session ids.
pub proof fn lemma_session_ids_differ(a: nat, b: nat)
    requires
        a != b,
    ensures
        session_id_text(a) != session_id_text(b),
{
    lemma_hex_round_trip(a);
    lemma_hex_round_trip(b);
    let prefix = "ses-"@;
    if session_id_text(a) == session_id_text(b) {
        assert((prefix + hex_text(a)).subrange(prefix.len() as int, (prefix + hex_text(a)).len() as int)
            =~= hex_text(a));
        assert((prefix + hex_text(b)).subrange(prefix.len() as int, (prefix + hex_text(b)).len() as int)
            =~= hex_text(b));
        assert(hex_text(a) == hex_text(b));
    }
}

fn hex_digit_text(d: u8) -> (text: &'static str)
    requires
        d < 16,
    ensures
        text@ == seq![hex_digit(d as nat)],
{
    let text = match d {
        0 => "0",
        1 => "1",
        2 => "2",
        3 => "3",
        4 => "4",
        5 => "5",
        6 => "6",
        7 => "7",
        8 => "8",
        9 => "9",
        10 => "a",
        11 => "b",
        12 => "c",
        13 => "d",
        14 => "e",
        _ => "f",
    };
    proof {
        reveal_strlit("0");
        reveal_strlit("1");
        reveal_strlit("2");
        reveal_strlit("3");
        reveal_strlit("4");
        reveal_strlit("5");
        reveal_strlit("6");
        reveal_strlit("7");
        reveal_strlit("8");
        reveal_strlit("9");
        reveal_strlit("a");
        reveal_strlit("b");
        reveal_strlit("c");
        reveal_strlit("d");
        reveal_strlit("e");
        reveal_strlit("f");
        assert(text@ =~= seq![hex_digit(d as nat)]);
    }
    text
}

/// Appends `n` in lower-case hexadecimal to `out`.
pub fn push_hex(out: &mut String, n: u128)
    ensures
        final(out)@ == old(out)@ + hex_text(n as nat),
    decreases n,
{
    if n >= 16 {
        push_hex(out, n / 16);
    }
    out.append(hex_digit_text((n % 16) as u8));
    proof {
        if n >= 16 {
            assert(old(out)@ + hex_text((n / 16) as nat) + seq![hex_digit((n % 16) as nat)]
                =~= old(out)@ + hex_text(n as nat));
        }
    }
}

/// The id of a session created `millis` milliseconds after the epoch:
/// `ses-` followed by `millis` in hexadecimal.
pub fn session_id_for(millis: u128) -> (id: SessionId)
    ensures
        id@ == session_id_text(millis as nat),
{
    let mut id = String::from_str("ses-");
    push_hex(&mut id, millis);
    id
}

/// Generate a session id from the current time.
///
/// The id is that of the millisecond at which the call was made; which one
/// that is depends on the system clock alone. Two calls within one
/// millisecond give the same id: ids that never repeat need the memory of
/// what was handed out, and come from [`generate_session_id_after`].
pub fn generate_session_id() -> (id: SessionId)
    ensures
        exists|millis: nat| millis <= MAX_CLOCK_MILLIS && id@ == #[trigger] session_id_text(millis),
{
    let now = Timestamp::now();
    session_id_for(now.unix_millis())
}

/// The largest number of milliseconds that the clock can show.
pub const MAX_CLOCK_MILLIS: u128 = 9_223_372_036_854_775_807_000 + 4_294;

/// Generate a session id that differs from every id handed out so far.
///
/// `floor` is one more than the largest stamp handed out so far, and 0 if
/// none was. The id is that of the current millisecond, or of `floor` where
/// the clock has not moved past it. The result is the id and its stamp;
/// the next floor is one more than the stamp.
pub fn generate_session_id_after(floor: u128) -> (issued: (SessionId, u128))
    ensures
        issued.0@ == session_id_text(issued.1 as nat),
        floor <= issued.1,
        issued.1 <= floor || issued.1 <= MAX_CLOCK_MILLIS,
        forall|earlier: nat| earlier < floor ==> issued.0@ != #[trigger] session_id_text(earlier),
{
    let now = Timestamp::now().unix_millis();
    let stamp = if now < floor {
        floor
    } else {
        now
    };
    let id = session_id_for(stamp);
    proof {
        assert forall|earlier: nat| earlier < floor implies id@ != #[trigger] session_id_text(
            earlier,
        ) by {
            lemma_session_ids_differ(earlier, stamp as nat);
        }
    }
    (id, stamp)
}

/// Status of a session.
#[derive(Debug)]
pub enum SessionStatus {
    /// The process is running.
    Running,
    /// The process exited with this code; `-1` after a kill.
    Exited(i32),
    /// The state of the process could not be determined.
    Failed(String),
}

impl Clone for SessionStatus {
    fn clone(&self) -> (copy: Self)
        ensures
            copy == *self,
    {
        match self {
            SessionStatus::Running => SessionStatus::Running,
            SessionStatus::Exited(code) => SessionStatus::Exited(*code),
            SessionStatus::Failed(reason) => SessionStatus::Failed(reason.clone()),
        }
    }
}

impl PartialEq for SessionStatus {
    fn eq(&self, other: &Self) -> (same: bool) {
        match (self, other) {
            (SessionStatus::Running, SessionStatus::Running) => true,
            (SessionStatus::Exited(a), SessionStatus::Exited(b)) => *a == *b,
            (SessionStatus::Failed(a), SessionStatus::Failed(b)) => same_text(a.as_str(), b.as_str()),
            _ => false,
        }
    }
}

impl vstd::std_specs::cmp::PartialEqSpecImpl for SessionStatus {
    open spec fn obeys_eq_spec() -> bool {
        true
    }

    open spec fn eq_spec(&self, other: &Self) -> bool {
        match (self, other) {
            (SessionStatus::Running, SessionStatus::Running) => true,
            (SessionStatus::Exited(a), SessionStatus::Exited(b)) => a == b,
            (SessionStatus::Failed(a), SessionStatus::Failed(b)) => a@ == b@,
            _ => false,
        }
    }
}

impl SessionStatus {
    /// A terminal status is any status but `Running`.
    pub open spec fn is_terminal(&self) -> bool {
        !(self is Running)
    }

    pub open spec fn spec_is_running(&self) -> bool {
        self is Running
    }

    /// Whether the process is still running.
    #[verifier::when_used_as_spec(spec_is_running)]
    pub fn is_running(&self) -> (running: bool)
        ensures
            running == self.spec_is_running(),
    {
        match self {
            SessionStatus::Running => true,
            _ => false,
        }
    }

    pub open spec fn spec_is_clean_exit(&self) -> bool {
        *self == SessionStatus::Exited(0)
    }

    /// Whether the process exited with code 0.
    #[verifier::when_used_as_spec(spec_is_clean_exit)]
    pub fn is_clean_exit(&self) -> (clean: bool)
        ensures
            clean == self.spec_is_clean_exit(),
    {
        match self {
            SessionStatus::Exited(code) => *code == 0,
            _ => false,
        }
    }

    pub open spec fn spec_is_failure(&self) -> bool {
        match self {
            SessionStatus::Running => false,
            SessionStatus::Exited(code) => *code != 0,
            SessionStatus::Failed(_) => true,
        }
    }

    /// Whether the process ended with a non-zero exit code, or its state
    /// could not be determined.
    #[verifier::when_used_as_spec(spec_is_failure)]
    pub fn is_failure(&self) -> (failed: bool)
        ensures
            failed == self.spec_is_failure(),
    {
        match self {
            SessionStatus::Running => false,
            SessionStatus::Exited(code) => *code != 0,
            SessionStatus::Failed(_) => true,
        }
    }

    /// The exit code that an exit edge reports for this status.
    pub open spec fn spec_reported_code(&self) -> i32 {
        match self {
            SessionStatus::Exited(code) => *code,
            SessionStatus::Failed(_) => FAILED_EXIT_CODE,
            SessionStatus::Running => 0,
        }
    }

    /// The exit code that an exit edge reports for this status: the code of
    /// an exit, `-1` for a failure.
    #[verifier::when_used_as_spec(spec_reported_code)]
    pub fn reported_code(&self) -> (code: i32)
        ensures
            code == self.spec_reported_code(),
    {
        match self {
            SessionStatus::Exited(code) => *code,
            SessionStatus::Failed(_) => FAILED_EXIT_CODE,
            SessionStatus::Running => 0,
        }
    }
}

/// What a non-blocking wait on the child process reported.
#[derive(Debug)]
pub enum WaitOutcome {
    /// The child has not ended yet.
    StillRunning,
    /// The child was reaped, with this raw exit code.
    Exited(u32),
    /// The wait itself failed, for this reason.
    Failed(String),
}

impl Clone for WaitOutcome {
    fn clone(&self) -> (copy: Self)
        ensures
            copy == *self,
    {
        match self {
            WaitOutcome::StillRunning => WaitOutcome::StillRunning,
            WaitOutcome::Exited(raw) => WaitOutcome::Exited(*raw),
            WaitOutcome::Failed(reason) => WaitOutcome::Failed(reason.clone()),
        }
    }
}

/// What one non-blocking read of the terminal reported.
#[derive(Debug)]
pub enum ReadOutcome {
    /// These bytes were read; none at all means that the stream has ended.
    Data(Vec<u8>),
    /// Nothing is available right now.
    WouldBlock,
    /// The read failed.
    Failed,
}

impl ReadOutcome {
    /// Whether the outcome carries at least one byte.
    pub open spec fn spec_carries_bytes(&self) -> bool {
        self matches ReadOutcome::Data(chunk) && chunk@.len() > 0
    }

    /// Whether the outcome carries at least one byte. An outcome that
    /// carries none ends a drain of the terminal.
    #[verifier::when_used_as_spec(spec_carries_bytes)]
    pub fn carries_bytes(&self) -> (carries: bool)
        ensures
            carries == self.spec_carries_bytes(),
    {
        match self {
            ReadOutcome::Data(chunk) => chunk.len() > 0,
            _ => false,
        }
    }

    /// The bytes the outcome carries.
    pub open spec fn bytes(&self) -> Seq<u8> {
        match self {
            ReadOutcome::Data(chunk) => chunk@,
            _ => Seq::empty(),
        }
    }
}

/// The raw exit code of a process as a signed number: codes above
/// `i32::MAX` wrap around to negative values.
pub open spec fn spec_exit_code(raw: u32) -> i32 {
    if raw <= i32::MAX as u32 {
        raw as i32
    } else {
        (raw - 0x1_0000_0000) as i32
    }
}

/// The raw exit code of a process as a signed number.
#[verifier::when_used_as_spec(spec_exit_code)]
pub fn exit_code(raw: u32) -> (code: i32)
    ensures
        code == spec_exit_code(raw),
{
    if raw <= i32::MAX as u32 {
        raw as i32
    } else {
        let wide: i64 = raw as i64 - 0x1_0000_0000;
        wide as i32
    }
}

/// The status that `status` turns into when a wait on the child reports
/// `outcome`. Only a running session changes.
pub open spec fn status_after(status: SessionStatus, outcome: WaitOutcome) -> SessionStatus {
    match status {
        SessionStatus::Running => match outcome {
            WaitOutcome::StillRunning => SessionStatus::Running,
            WaitOutcome::Exited(raw) => SessionStatus::Exited(spec_exit_code(raw)),
            WaitOutcome::Failed(reason) => SessionStatus::Failed(reason),
        },
        _ => status,
    }
}

/// The transitions that the lifecycle of a session allows: a running
/// session may become anything, a session that has ended keeps its status,
/// except that a kill makes it `Exited(-1)`.
pub open spec fn allowed_transition(before: SessionStatus, after: SessionStatus) -> bool {
    before.is_terminal() ==> after == before || after == SessionStatus::Exited(KILLED_EXIT_CODE)
}

/// The bytes that a drain of the terminal transfers: those of the leading
/// reads that carry bytes, up to the first read that does not.
pub open spec fn drained_bytes(reads: Seq<ReadOutcome>) -> Seq<u8>
    decreases reads.len(),
{
    if reads.len() > 0 && reads[0].carries_bytes() {
        reads[0].bytes() + drained_bytes(reads.drop_first())
    } else {
        Seq::empty()
    }
}

/// The number of bytes that a drain of the terminal transfers (see
/// [`drained_bytes`]); none where that exceeds the range of `usize`.
pub fn drained_len(reads: &Vec<ReadOutcome>) -> (len: Option<usize>)
    ensures
        match len {
            Some(n) => n == drained_bytes(reads@).len(),
            None => drained_bytes(reads@).len() > usize::MAX,
        },
{
    let mut total: usize = 0;
    let mut i: usize = 0;
    let ghost mut seen: Seq<u8> = Seq::empty();
    proof {
        assert(reads@.skip(0) =~= reads@);
        assert(seen + drained_bytes(reads@) =~= drained_bytes(reads@));
    }
    while i < reads.len()
        invariant
            i <= reads@.len(),
            total == seen.len(),
            drained_bytes(reads@) == seen + drained_bytes(reads@.skip(i as int)),
        decreases reads.len() - i,
    {
        let ghost rest = reads@.skip(i as int);
        assert(rest[0] == reads@[i as int]);
        assert(rest.drop_first() =~= reads@.skip(i + 1));
        match &reads[i] {
            ReadOutcome::Data(chunk) => {
                if chunk.len() == 0 {
                    assert(seen + drained_bytes(rest) =~= seen);
                    return Some(total);
                }
                proof {
                    assert(seen + (chunk@ + drained_bytes(rest.drop_first())) =~= (seen + chunk@)
                        + drained_bytes(rest.drop_first()));
                }
                if chunk.len() > usize::MAX - total {
                    return None;
                }
                total = total + chunk.len();
                proof {
                    seen = seen + chunk@;
                }
            },
            _ => {
                assert(seen + drained_bytes(rest) =~= seen);
                return Some(total);
            },
        }
        i = i + 1;
    }
    proof {
        assert(drained_bytes(reads@.skip(i as int)) =~= Seq::<u8>::empty());
        assert(seen + Seq::<u8>::empty() =~= seen);
    }
    Some(total)
}

/// The size of a terminal.
#[derive(Debug, Clone, Copy, PartialEq, Eq, Structural)]
pub struct TerminalSize {
    pub rows: u16,
    pub cols: u16,
    pub pixel_width: u16,
    pub pixel_height: u16,
}

impl TerminalSize {
    /// The size of a new terminal: the requested rows and columns, 24 rows
    /// and 80 columns where none were requested.
    pub fn for_spawn(rows: Option<u16>, cols: Option<u16>) -> (size: TerminalSize)
        ensures
            size == (TerminalSize {
                rows: match rows {
                    Some(r) => r,
                    None => DEFAULT_ROWS,
                },
                cols: match cols {
                    Some(c) => c,
                    None => DEFAULT_COLS,
                },
                pixel_width: 0,
                pixel_height: 0,
            }),
    {
        TerminalSize {
            rows: match rows {
                Some(r) => r,
                None => DEFAULT_ROWS,
            },
            cols: match cols {
                Some(c) => c,
                None => DEFAULT_COLS,
            },
            pixel_width: 0,
            pixel_height: 0,
        }
    }

    /// The size to forward when a terminal is resized.
    pub fn for_resize(rows: u16, cols: u16) -> (size: TerminalSize)
        ensures
            size == (TerminalSize { rows, cols, pixel_width: 0, pixel_height: 0 }),
    {
        TerminalSize { rows, cols, pixel_width: 0, pixel_height: 0 }
    }
}

/// The error that a failed terminal operation turns into.
pub open spec fn pty_result(outcome: Result<(), String>) -> Result<(), RembrandtError> {
    match outcome {
        Ok(()) => Ok(()),
        Err(reason) => Err(RembrandtError::Pty(reason)),
    }
}

/// What is left of `bytes` once the terminal escape sequences are taken
/// out of it.
pub uninterp spec fn ansi_stripped(bytes: Seq<u8>) -> Seq<u8>;

/// The text that `bytes` decode to as UTF-8 when every invalid sequence is
/// replaced by U+FFFD.
pub uninterp spec fn utf8_lossy(bytes: Seq<u8>) -> Seq<char>;

/// Takes the terminal escape sequences out of `bytes`.
///
/// Trusted: calls `strip_ansi_escapes::strip`, which feeds the bytes through
/// a terminal parser and keeps what would be printed. The contract only
/// names the result.
#[verifier::external_body]
fn strip_ansi(bytes: &Vec<u8>) -> (clean: Vec<u8>)
    ensures
        clean@ == ansi_stripped(bytes@),
{
    strip_ansi_escapes::strip(bytes)
}

/// Decodes `bytes` as UTF-8, replacing what is not valid.
///
/// Trusted: calls `String::from_utf8_lossy` of the standard library. The
/// contract names the result and states what the documentation says of
/// valid input: it is decoded as it stands.
#[verifier::external_body]
fn decode_lossy(bytes: &Vec<u8>) -> (text: String)
    ensures
        text@ == utf8_lossy(bytes@),
        vstd::utf8::valid_utf8(bytes@) ==> text@ == vstd::utf8::decode_utf8(bytes@),
{
    String::from_utf8_lossy(bytes).into_owned()
}

/// The text that a display shows for `raw` terminal output: the output
/// without escape sequences, decoded leniently.
pub open spec fn display_text(raw: Seq<u8>) -> Seq<char> {
    utf8_lossy(ansi_stripped(raw))
}

/// The state of a single session.
///
/// The session owns its output history. The reader of the terminal may be
/// on loan to an attach consumer; while it is, no output reaches the
/// history.
#[derive(Debug)]
pub struct PtySession {
    /// Unique session id.
    pub id: SessionId,
    /// The agent this session belongs to.
    pub agent_id: String,
    /// Current status.
    pub status: SessionStatus,
    /// When the session was created.
    pub created_at: Timestamp,
    /// The command that was spawned.
    pub command: String,
    /// Its working directory.
    pub workdir: String,
    /// The git branch the agent works on, where it has one of its own.
    pub branch: Option<String>,
    /// Whether the session runs in a worktree of its own.
    pub isolated: bool,
    /// The task assigned to the session.
    pub task_id: Option<String>,
    /// The title of that task.
    pub task_title: Option<String>,
    /// Output history.
    pub output_buffer: RingBuffer,
    /// Whether the session holds the reader of its terminal.
    pub reader_attached: bool,
}

impl PtySession {
    /// The representation invariant: the history is well formed.
    pub open spec fn wf(&self) -> bool {
        self.output_buffer.wf()
    }

    /// This session with another status.
    pub open spec fn with_status(self, status: SessionStatus) -> PtySession {
        PtySession { status, ..self }
    }

    /// This session after a wait on its child reported `outcome`.
    pub open spec fn after_wait(self, outcome: WaitOutcome) -> PtySession {
        self.with_status(status_after(self.status, outcome))
    }

    /// Whether `next` is this session but for what its history holds.
    pub open spec fn same_but_output(&self, next: &PtySession) -> bool {
        &&& next.id == self.id
        &&& next.agent_id == self.agent_id
        &&& next.status == self.status
        &&& next.created_at == self.created_at
        &&& next.command == self.command
        &&& next.workdir == self.workdir
        &&& next.branch == self.branch
        &&& next.isolated == self.isolated
        &&& next.task_id == self.task_id
        &&& next.task_title == self.task_title
        &&& next.reader_attached == self.reader_attached
        &&& next.output_buffer.spec_capacity() == self.output_buffer.spec_capacity()
    }

    /// Record a session whose process the caller has just tried to start
    /// under a new terminal.
    ///
    /// `opened` is what opening the terminal and starting the process in it
    /// came to. On failure no session comes into being. Otherwise the session
    /// has the id `id`, is running, holds its reader and has an empty
    /// history of `buffer_capacity` bytes, and was created at the instant
    /// that the system clock shows.
    pub fn spawn(
        id: SessionId,
        agent_id: String,
        command: &str,
        workdir: &str,
        buffer_capacity: usize,
        branch: Option<String>,
        isolated: bool,
        task_id: Option<String>,
        task_title: Option<String>,
        opened: Result<(), String>,
    ) -> (spawned: Result<PtySession, RembrandtError>)
        requires
            buffer_capacity > 0,
        ensures
            opened matches Err(reason) ==> spawned == Err::<PtySession, RembrandtError>(
                RembrandtError::Pty(reason),
            ),
            opened is Ok ==> (spawned matches Ok(session) && {
                &&& session.wf()
                &&& session.id == id
                &&& session.agent_id == agent_id
                &&& session.status == SessionStatus::Running
                &&& session.created_at.secs >= 0
                &&& session.created_at.nanos < 1_000_000_000
                &&& session.command@ == command@
                &&& session.workdir@ == workdir@
                &&& session.branch == branch
                &&& session.isolated == isolated
                &&& session.task_id == task_id
                &&& session.task_title == task_title
                &&& session.reader_attached
                &&& session.output_buffer@ == Seq::<u8>::empty()
                &&& session.output_buffer.spec_capacity() == buffer_capacity
                &&& session.output_buffer.spec_total_written() == 0
            }),
    {
        match opened {
            Err(reason) => Err(RembrandtError::Pty(reason)),
            Ok(()) => Ok(
                PtySession {
                    id,
                    agent_id,
                    status: SessionStatus::Running,
                    created_at: Timestamp::now(),
                    command: String::from_str(command),
                    workdir: String::from_str(workdir),
                    branch,
                    isolated,
                    task_id,
                    task_title,
                    output_buffer: RingBuffer::new(buffer_capacity),
                    reader_attached: true,
                },
            ),
        }
    }

    /// Whether the history can count the bytes of `reads`: the total ever
    /// written stays within the range of `usize`.
    pub open spec fn spec_has_room_for(&self, reads: Seq<ReadOutcome>) -> bool {
        self.output_buffer.spec_total_written() + drained_bytes(reads).len() <= usize::MAX
    }

    /// Whether the history can count the bytes of `reads`; where it can,
    /// [`Self::read_available`] may take them in.
    pub fn has_room_for(&self, reads: &Vec<ReadOutcome>) -> (room: bool)
        ensures
            room == self.spec_has_room_for(reads@),
    {
        match drained_len(reads) {
            Some(n) => n <= usize::MAX - self.output_buffer.total_written(),
            None => false,
        }
    }

    /// Take in what a drain of the terminal produced.
    ///
    /// `reads` are the outcomes of successive non-blocking reads of the
    /// terminal. Their bytes go to the history, in order, up to the first
    /// read that carries none: the end of the stream, a read that would
    /// block, or a failure. Returns the number of bytes transferred. While
    /// the reader is on loan nothing is transferred.
    pub fn read_available(&mut self, reads: &Vec<ReadOutcome>) -> (transferred: usize)
        requires
            old(self).wf(),
            old(self).spec_has_room_for(reads@),
        ensures
            final(self).wf(),
            old(self).same_but_output(final(self)),
            allowed_transition(old(self).status, final(self).status),
            !old(self).reader_attached ==> transferred == 0 && final(self).output_buffer@ == old(
                self,
            ).output_buffer@ && final(self).output_buffer.spec_total_written() == old(
                self,
            ).output_buffer.spec_total_written(),
            old(self).reader_attached ==> {
                &&& transferred == drained_bytes(reads@).len()
                &&& final(self).output_buffer@ == keep_last(
                    old(self).output_buffer@ + drained_bytes(reads@),
                    old(self).output_buffer.spec_capacity() as nat,
                )
                &&& final(self).output_buffer.spec_total_written() == old(
                    self,
                ).output_buffer.spec_total_written() + transferred
            },
    {
        if !self.reader_attached {
            return 0;
        }
        let mut total: usize = 0;
        let mut i: usize = 0;
        let ghost cap = self.output_buffer.spec_capacity() as nat;
        let ghost before = self.output_buffer@;
        let ghost mut seen: Seq<u8> = Seq::empty();
        proof {
            self.output_buffer.lemma_retained_length();
            assert(before + seen =~= before);
            assert(reads@.skip(0) =~= reads@);
        }
        while i < reads.len()
            invariant
                i <= reads.len(),
                self.wf(),
                old(self).same_but_output(self),
                cap == old(self).output_buffer.spec_capacity(),
                before == old(self).output_buffer@,
                before.len() <= cap,
                total == seen.len(),
                drained_bytes(reads@) == seen + drained_bytes(reads@.skip(i as int)),
                self.output_buffer@ == keep_last(before + seen, cap),
                self.output_buffer.spec_total_written() == old(
                    self,
                ).output_buffer.spec_total_written() + total,
                old(self).output_buffer.spec_total_written() + drained_bytes(reads@).len()
                    <= usize::MAX,
            ensures
                total == drained_bytes(reads@).len(),
                self.output_buffer@ == keep_last(before + drained_bytes(reads@), cap),
            decreases reads.len() - i,
        {
            let ghost rest = reads@.skip(i as int);
            assert(rest[0] == reads@[i as int]);
            assert(rest.drop_first() =~= reads@.skip(i + 1));
            match &reads[i] {
                ReadOutcome::Data(chunk) => {
                    if chunk.len() == 0 {
                        assert(seen + drained_bytes(rest) =~= seen);
                        break ;
                    }
                    proof {
                        lemma_keep_last_absorbs(before + seen, chunk@, cap);
                        assert((before + seen) + chunk@ =~= before + (seen + chunk@));
                        assert(seen + (chunk@ + drained_bytes(rest.drop_first())) =~= (seen
                            + chunk@) + drained_bytes(rest.drop_first()));
                    }
                    self.output_buffer.write(chunk.as_slice());
                    total = total + chunk.len();
                    proof {
                        seen = seen + chunk@;
                    }
                },
                _ => {
                    assert(seen + drained_bytes(rest) =~= seen);
                    break ;
                },
            }
            i = i + 1;
        }
        proof {
            if i == reads.len() {
                assert(drained_bytes(reads@.skip(i as int)) =~= Seq::<u8>::empty());
                assert(seen + Seq::<u8>::empty() =~= seen);
            }
        }
        total
    }

    /// Hand the reader of the terminal over for exclusive use by an attach
    /// consumer. Returns whether the session held it; until it is returned,
    /// no output reaches the history.
    pub fn take_reader(&mut self) -> (taken: bool)
        ensures
            taken == old(self).reader_attached,
            *final(self) == (PtySession { reader_attached: false, ..*old(self) }),
            allowed_transition(old(self).status, final(self).status),
    {
        let taken = self.reader_attached;
        self.reader_attached = false;
        taken
    }

    /// Take the reader back after exclusive use.
    pub fn return_reader(&mut self)
        ensures
            *final(self) == (PtySession { reader_attached: true, ..*old(self) }),
            allowed_transition(old(self).status, final(self).status),
    {
        self.reader_attached = true;
    }

    /// The result of writing input to the terminal, given what the write
    /// and the flush after it came to.
    pub fn write(&self, written: Result<(), String>) -> (result: Result<(), RembrandtError>)
        ensures
            result == pty_result(written),
    {
        match written {
            Ok(()) => Ok(()),
            Err(reason) => Err(RembrandtError::Pty(reason)),
        }
    }

    /// The input that wakes an agent idling on its standard input: one
    /// newline.
    pub fn nudge_input() -> (input: Vec<u8>)
        ensures
            input@ == seq![10u8],
    {
        let mut input: Vec<u8> = Vec::new();
        input.push(10u8);
        input
    }

    /// The result of a nudge, given what writing [`Self::nudge_input`] to the
    /// terminal came to.
    pub fn nudge(&self, written: Result<(), String>) -> (result: Result<(), RembrandtError>)
        ensures
            result == pty_result(written),
    {
        self.write(written)
    }

    /// The result of a resize, given what forwarding the new window size to
    /// the terminal came to.
    pub fn resize(&self, resized: Result<(), String>) -> (result: Result<(), RembrandtError>)
        ensures
            result == pty_result(resized),
    {
        match resized {
            Ok(()) => Ok(()),
            Err(reason) => Err(RembrandtError::Pty(reason)),
        }
    }

    /// The output history.
    pub fn output_buffer(&self) -> (buffer: &RingBuffer)
        ensures
            *buffer == self.output_buffer,
    {
        &self.output_buffer
    }

    /// A copy of the history, with escape sequences intact.
    pub fn read_output_raw(&self) -> (bytes: Vec<u8>)
        requires
            self.wf(),
        ensures
            bytes@ == self.output_buffer@,
    {
        self.output_buffer.read_all()
    }

    /// The history as text for display: escape sequences are stripped and
    /// bytes that are not valid UTF-8 are replaced.
    pub fn read_output(&self) -> (text: String)
        requires
            self.wf(),
        ensures
            text@ == display_text(self.output_buffer@),
    {
        let raw = self.output_buffer.read_all();
        let clean = strip_ansi(&raw);
        decode_lossy(&clean)
    }

    /// The number of bytes in the history.
    pub fn output_len(&self) -> (n: usize)
        ensures
            n == self.output_buffer.spec_len(),
    {
        self.output_buffer.len()
    }

    /// Update the status from a non-blocking wait on the child.
    ///
    /// A session that is not running keeps its status whatever the wait
    /// says. A running session stays running while the child is alive,
    /// becomes `Exited` with the child's code once it is reaped, and `Failed`
    /// when the wait fails. Returns the status after the update.
    pub fn poll(&mut self, outcome: WaitOutcome) -> (status: SessionStatus)
        ensures
            *final(self) == old(self).after_wait(outcome),
            status == final(self).status,
            old(self).status.is_terminal() ==> final(self).status == old(self).status,
            allowed_transition(old(self).status, final(self).status),
    {
        if !self.status.is_running() {
            return self.status.clone();
        }
        match outcome {
            WaitOutcome::Exited(raw) => {
                self.status = SessionStatus::Exited(exit_code(raw));
            },
            WaitOutcome::StillRunning => {},
            WaitOutcome::Failed(reason) => {
                self.status = SessionStatus::Failed(reason);
            },
        }
        self.status.clone()
    }

    /// Record a kill, given what sending the terminate signal came to.
    ///
    /// After a kill the status is `Exited(-1)`, whatever it was and whether
    /// or not the signal could be sent: a session that was asked to die
    /// counts as dead. A failure to send the signal is returned.
    pub fn kill(&mut self, signalled: Result<(), String>) -> (result: Result<(), RembrandtError>)
        ensures
            result == pty_result(signalled),
            *final(self) == old(self).with_status(SessionStatus::Exited(KILLED_EXIT_CODE)),
            !final(self).spec_is_running(),
            allowed_transition(old(self).status, final(self).status),
    {
        self.status = SessionStatus::Exited(KILLED_EXIT_CODE);
        match signalled {
            Ok(()) => Ok(()),
            Err(reason) => Err(RembrandtError::Pty(reason)),
        }
    }

    pub open spec fn spec_is_running(&self) -> bool {
        self.status is Running
    }

    /// Whether the session is still running.
    #[verifier::when_used_as_spec(spec_is_running)]
    pub fn is_running(&self) -> (running: bool)
        ensures
            running == self.spec_is_running(),
    {
        self.status.is_running()
    }
}

/// Terminal states are sticky. Every operation on a session makes an
/// allowed transition; so in any history of a session, once the status is
/// `Exited` or `Failed` it is never `Running` again.
pub proof fn lemma_terminal_is_sticky(history: Seq<SessionStatus>, i: int, j: int)
    requires
        forall|k: int|
            0 <= k < history.len() - 1 ==> allowed_transition(#[trigger] history[k], history[k + 1]),
        0 <= i <= j < history.len(),
        history[i].is_terminal(),
    ensures
        history[j].is_terminal(),
        !history[j].spec_is_running(),
    decreases j - i,
{
    if i < j {
        assert(allowed_transition(history[i], history[i + 1]));
        lemma_terminal_is_sticky(history, i + 1, j);
    }
}

/// A poll never revives a session that has ended, and neither does a kill.
pub proof fn lemma_poll_and_kill_are_allowed(session: PtySession, outcome: WaitOutcome)
    ensures
        allowed_transition(session.status, session.after_wait(outcome).status),
        allowed_transition(
            session.status,
            session.with_status(SessionStatus::Exited(KILLED_EXIT_CODE)).status,
        ),
        session.status.is_terminal() ==> session.after_wait(outcome) == session,
{
}

/// After a kill the status is `Exited(-1)` and stays so under every later
/// poll.
pub proof fn lemma_kill_is_final(session: PtySession, outcomes: Seq<WaitOutcome>)
    ensures
        after_waits(session.with_status(SessionStatus::Exited(KILLED_EXIT_CODE)), outcomes).status
            == SessionStatus::Exited(KILLED_EXIT_CODE),
        !after_waits(
            session.with_status(SessionStatus::Exited(KILLED_EXIT_CODE)),
            outcomes,
        ).spec_is_running(),
    decreases outcomes.len(),
{
    let killed = session.with_status(SessionStatus::Exited(KILLED_EXIT_CODE));
    if outcomes.len() > 0 {
        assert(killed.after_wait(outcomes[0]) == killed);
        lemma_kill_is_final(session, outcomes.drop_first());
    }
}

/// The session after a sequence of polls.
pub open spec fn after_waits(session: PtySession, outcomes: Seq<WaitOutcome>) -> PtySession
    decreases outcomes.len(),
{
    if outcomes.len() == 0 {
        session
    } else {
        after_waits(session.after_wait(outcomes[0]), outcomes.drop_first())
    }
}

} // verus!
