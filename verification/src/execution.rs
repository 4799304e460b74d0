//! Running a program under a time limit.
//!
//! The caller owns the process, the pipes and the clock. It hands each
//! thing that happens to `LaunchState::step` and does what the step
//! answers: hand a line on, write it to the output file, or kill the
//! process. When the run is over, `program_output` says what is reported.

use vstd::prelude::*;
use vstd::slice::slice_subrange;
use vstd::utf8::{
    decode_utf8, decode_utf8_encode_utf8, decode_utf8_split, encode_utf8, is_char_boundary,
    is_char_boundary_iff_not_is_continuation_byte, is_char_boundary_start_end_of_seq,
    is_continuation_byte, valid_utf8, valid_utf8_split,
};

verus! {

/// Above this many bytes of output only a part is kept in memory.
pub const OUTPUT_CAP: u64 = 5 * 1024 * 1024;

/// The time between two looks at the clock, in milliseconds.
pub const POLL_MILLIS: u64 = 200;

/// The time limit for a run where the caller names none, in milliseconds.
pub const DEFAULT_TIME_LIMIT: u64 = 3000;

/// The exit code that is reported for a process that ended without one.
pub const NO_EXIT_CODE: i32 = -1;

/// What a program that was given no input ended in.
#[derive(Debug, Clone, PartialEq, Eq)]
pub struct ProgramSimpleOutput {
    pub exit_code: i32,
    pub stdout: String,
    pub stderr: String,
    pub is_timeout: bool,
}

/// What a program that was fed an input file ended in. The output file
/// always holds everything that the program wrote to its output.
#[derive(Debug, Clone, PartialEq, Eq)]
pub enum ProgramOutput {
    /// `content` is all of the output.
    Full { exit_code: i32, is_timeout: bool, content: String, output_file: String },
    /// The output is `size` bytes long, and `content` is its beginning.
    Strip { exit_code: i32, size: u64, is_timeout: bool, content: String, output_file: String },
}

/// Whether a run that has taken `elapsed_millis` is over its limit.
pub open spec fn timed_out(elapsed_millis: u128, timeout_millis: u128) -> bool {
    elapsed_millis > timeout_millis
}

/// Whether to kill a process that was started `elapsed_millis` ago: only
/// once it is over its limit.
pub fn is_timed_out(elapsed_millis: u128, timeout_millis: u128) -> (b: bool)
    ensures
        b == timed_out(elapsed_millis, timeout_millis),
{
    elapsed_millis > timeout_millis
}

/// The exit code to report for a process that ended with `code`.
pub open spec fn reported_code(code: Option<i32>) -> i32 {
    match code {
        Some(c) => c,
        None => NO_EXIT_CODE,
    }
}

/// The time limit of a run, in milliseconds.
pub fn effective_time_limit(time_limits: Option<u64>) -> (limit: u64)
    ensures
        limit == (match time_limits {
            Some(t) => t,
            None => DEFAULT_TIME_LIMIT,
        }),
{
    match time_limits {
        Some(t) => t,
        None => DEFAULT_TIME_LIMIT,
    }
}

impl ProgramSimpleOutput {
    /// The report of a run that ended with `code`, having written `stdout`
    /// and `stderr`.
    pub fn new(code: Option<i32>, stdout: String, stderr: String, is_timeout: bool) -> (out: Self)
        ensures
            out.exit_code == reported_code(code),
            out.stdout == stdout,
            out.stderr == stderr,
            out.is_timeout == is_timeout,
    {
        let exit_code = match code {
            Some(c) => c,
            None => NO_EXIT_CODE,
        };
        ProgramSimpleOutput { exit_code, stdout, stderr, is_timeout }
    }
}

/// What can happen while a program without input runs.
#[derive(Debug, Clone, Copy, PartialEq, Eq, Structural)]
pub enum WaitEvent {
    /// The clock was looked at, this long after the start.
    Tick { elapsed_millis: u128 },
    /// The program ended.
    Exited,
}

/// What the caller is to do after a `WaitEvent`.
#[derive(Debug, Clone, Copy, PartialEq, Eq, Structural)]
pub enum WaitAction {
    /// Go on waiting.
    KeepWaiting,
    /// Kill the process, report the run as timed out and gather what the
    /// program wrote.
    Kill,
    /// Gather what the program wrote.
    Collect,
}

/// Decides what to do after `event`: a look at the clock kills the
/// process exactly when the run is over its limit; the end of the program
/// ends the waiting.
pub fn wait_step(event: WaitEvent, timeout_millis: u128) -> (action: WaitAction)
    ensures
        action == (match event {
            WaitEvent::Tick { elapsed_millis } => if timed_out(elapsed_millis, timeout_millis) {
                WaitAction::Kill
            } else {
                WaitAction::KeepWaiting
            },
            WaitEvent::Exited => WaitAction::Collect,
        }),
{
    match event {
        WaitEvent::Tick { elapsed_millis } => {
            if is_timed_out(elapsed_millis, timeout_millis) {
                WaitAction::Kill
            } else {
                WaitAction::KeepWaiting
            }
        },
        WaitEvent::Exited => WaitAction::Collect,
    }
}

/// How many bytes of an output file of `filesize` bytes are read back
/// into memory: all of them up to the cap, and one byte more than the cap
/// of a longer file, so that it can be told whether the byte at the cap
/// starts a character.
pub fn read_limit(filesize: u64) -> (n: u64)
    ensures
        filesize > OUTPUT_CAP ==> n == OUTPUT_CAP + 1,
        filesize <= OUTPUT_CAP ==> n == filesize,
{
    if filesize > OUTPUT_CAP {
        OUTPUT_CAP + 1
    } else {
        filesize
    }
}

/// Where to cut `bytes` so that at most `limit` of them stay and no
/// character is cut in two: at the end where no more than `limit` are
/// there, and else at the last index up to `limit` that holds no
/// continuation byte.
pub open spec fn cut_point(bytes: Seq<u8>, limit: int) -> int
    decreases limit,
{
    if limit <= 0 {
        0
    } else if limit >= bytes.len() {
        bytes.len() as int
    } else if !is_continuation_byte(bytes[limit]) {
        limit
    } else {
        cut_point(bytes, limit - 1)
    }
}

/// Computes `cut_point`.
pub fn cut_at_boundary(bytes: &[u8], limit: usize) -> (n: usize)
    ensures
        n == cut_point(bytes@, limit as int),
        n <= limit,
        n <= bytes@.len(),
{
    if limit >= bytes.len() {
        return bytes.len();
    }
    let mut n: usize = limit;
    while n > 0 && 0x80 <= bytes[n] && bytes[n] <= 0xbf
        invariant
            n <= limit < bytes@.len(),
            cut_point(bytes@, limit as int) == cut_point(bytes@, n as int),
        decreases n,
    {
        n = n - 1;
    }
    n
}

/// What `String::from_utf8_lossy` makes of bytes that are not UTF-8.
pub uninterp spec fn lossy_text(bytes: Seq<u8>) -> Seq<char>;

/// The text that `bytes` hold: the characters that they encode where
/// they are UTF-8, and else what the standard library makes of them.
pub open spec fn text_held(bytes: Seq<u8>) -> Seq<char> {
    if valid_utf8(bytes) {
        decode_utf8(bytes)
    } else {
        lossy_text(bytes)
    }
}

/// `String::from_utf8_lossy`: the string that `bytes` encode. Bytes that
/// are UTF-8 are decoded as they stand; of others the standard library
/// replaces each ill-formed part by U+FFFD.
#[verifier::external_body]
fn text_of(bytes: &[u8]) -> (text: String)
    ensures
        text@ == (if valid_utf8(bytes@) {
            decode_utf8(bytes@)
        } else {
            lossy_text(bytes@)
        }),
{
    String::from_utf8_lossy(bytes).into_owned()
}

/// The part of the bytes read that is kept in memory: all of them for an
/// output within the cap, and else the beginning of at most `OUTPUT_CAP`
/// bytes that `cut_point` gives.
pub open spec fn kept_bytes(filesize: u64, bytes: Seq<u8>) -> Seq<u8> {
    if filesize > OUTPUT_CAP {
        bytes.subrange(0, cut_point(bytes, OUTPUT_CAP as int))
    } else {
        bytes
    }
}

/// The report of a run that ended with `code` and left `filesize` bytes
/// in `output_file`, of which `bytes` are the first that were read back.
/// Above the cap the report is `Strip`: it carries the size of the file,
/// and its content is the text of at most `OUTPUT_CAP` of the bytes,
/// ending where a character ends. Up to the cap the report is `Full`,
/// with the text of all the bytes.
pub fn program_output(
    code: Option<i32>,
    is_timeout: bool,
    filesize: u64,
    bytes: &[u8],
    output_file: String,
) -> (out: ProgramOutput)
    ensures
        filesize > OUTPUT_CAP ==> {
            &&& out matches ProgramOutput::Strip { exit_code, size, is_timeout: t, content, output_file: f }
            &&& exit_code == reported_code(code)
            &&& size == filesize
            &&& t == is_timeout
            &&& content@ == text_held(kept_bytes(filesize, bytes@))
            &&& f == output_file
        },
        filesize <= OUTPUT_CAP ==> {
            &&& out matches ProgramOutput::Full { exit_code, is_timeout: t, content, output_file: f }
            &&& exit_code == reported_code(code)
            &&& t == is_timeout
            &&& content@ == text_held(kept_bytes(filesize, bytes@))
            &&& f == output_file
        },
        kept_bytes(filesize, bytes@).len() <= bytes@.len(),
        filesize > OUTPUT_CAP ==> kept_bytes(filesize, bytes@).len() <= OUTPUT_CAP,
{
    let exit_code = match code {
        Some(c) => c,
        None => NO_EXIT_CODE,
    };
    if filesize > OUTPUT_CAP {
        let n = cut_at_boundary(bytes, OUTPUT_CAP as usize);
        let content = text_of(slice_subrange(bytes, 0, n));
        ProgramOutput::Strip { exit_code, size: filesize, is_timeout, content, output_file }
    } else {
        ProgramOutput::Full { exit_code, is_timeout, content: text_of(bytes), output_file }
    }
}

/// What is kept of an output that is UTF-8. `file` is the whole output
/// and `read` the number of its bytes that were read back: all of them,
/// or more than `limit`. Then the bytes kept end where a character ends:
/// they are UTF-8 themselves, they are no more than `limit`, and the text
/// they hold is the beginning of the text of the whole output.
pub proof fn lemma_kept_is_a_prefix(file: Seq<u8>, read: int, limit: int)
    requires
        valid_utf8(file),
        0 <= limit,
        0 <= read <= file.len(),
        read == file.len() || read > limit,
    ensures
        ({
            let n = cut_point(file.subrange(0, read), limit);
            let kept = file.subrange(0, read).subrange(0, n);
            &&& 0 <= n <= limit
            &&& n <= read
            &&& kept == file.subrange(0, n)
            &&& valid_utf8(kept)
            &&& encode_utf8(text_held(kept)).len() <= limit
            &&& text_held(file) == text_held(kept) + text_held(file.subrange(n, file.len() as int))
        }),
{
    let bytes = file.subrange(0, read);
    lemma_cut_point(bytes, limit);
    let n = cut_point(bytes, limit);
    assert(bytes.subrange(0, n) =~= file.subrange(0, n));
    assert(is_char_boundary(file, n)) by {
        is_char_boundary_start_end_of_seq(file);
        if 0 < n < file.len() {
            assert(n < bytes.len()) by {
                if n == bytes.len() {
                    assert(read == n);
                }
            }
            assert(bytes[n] == file[n]);
            is_char_boundary_iff_not_is_continuation_byte(file, n);
        }
    }
    valid_utf8_split(file, n);
    decode_utf8_split(file, n);
    decode_utf8_encode_utf8(file.subrange(0, n));
}

/// The cut lies within the bytes and within the limit, and where it
/// falls inside the bytes it falls before a byte that starts a character,
/// if there is one up to the limit.
pub proof fn lemma_cut_point(bytes: Seq<u8>, limit: int)
    requires
        0 <= limit,
    ensures
        0 <= cut_point(bytes, limit) <= limit,
        cut_point(bytes, limit) <= bytes.len(),
        limit >= bytes.len() ==> cut_point(bytes, limit) == bytes.len(),
        0 < cut_point(bytes, limit) < bytes.len() ==> !is_continuation_byte(
            bytes[cut_point(bytes, limit)],
        ),
    decreases limit,
{
    if limit > 0 && limit < bytes.len() && is_continuation_byte(bytes[limit]) {
        lemma_cut_point(bytes, limit - 1);
    }
}

/// How far a run has come.
#[derive(Debug, Clone, Copy, PartialEq, Eq, Structural)]
pub struct LaunchState {
    pub stdout_eof: bool,
    pub stderr_eof: bool,
    pub is_timeout: bool,
}

/// What can happen while a program runs.
#[derive(Debug, Clone)]
pub enum LaunchEvent {
    /// The program wrote a line to its output.
    StdoutLine { line: String },
    /// The program closed its output.
    StdoutEof,
    /// The program wrote a line to its error stream.
    StderrLine { line: String },
    /// The program closed its error stream.
    StderrEof,
    /// Nothing happened for `POLL_MILLIS`.
    Tick,
}

/// An event with the time at which it was taken, in milliseconds after
/// the start of the program.
#[derive(Debug, Clone)]
pub struct Timed {
    pub event: LaunchEvent,
    pub elapsed_millis: u128,
}

/// What the caller is to do after an event.
#[derive(Debug, Clone)]
pub enum LaunchAction {
    /// Hand `line` to the observer of the output, and write `record` to
    /// the output file.
    Stdout { line: String, record: String },
    /// Hand `line` to the observer of the error stream.
    Stderr { line: String },
    /// Kill the process.
    Kill,
    /// Go on.
    Nothing,
}

/// The state after `event`, taken `elapsed_millis` after the start. An
/// event that comes over the limit, whatever it is, marks the run as
/// timed out and counts for nothing else.
pub open spec fn stepped(
    state: LaunchState,
    event: LaunchEvent,
    elapsed_millis: u128,
    timeout_millis: u128,
) -> LaunchState {
    if timed_out(elapsed_millis, timeout_millis) {
        LaunchState { is_timeout: true, ..state }
    } else {
        match event {
            LaunchEvent::StdoutEof => LaunchState { stdout_eof: true, ..state },
            LaunchEvent::StderrEof => LaunchState { stderr_eof: true, ..state },
            _ => state,
        }
    }
}

/// The state after a row of events.
pub open spec fn stepped_all(state: LaunchState, events: Seq<Timed>, timeout_millis: u128) -> LaunchState
    decreases events.len(),
{
    if events.len() == 0 {
        state
    } else {
        stepped(
            stepped_all(state, events.drop_last(), timeout_millis),
            events.last().event,
            events.last().elapsed_millis,
            timeout_millis,
        )
    }
}

/// What one event adds to the output file: a line of the output that
/// came within the limit, with a line feed behind it.
pub open spec fn record_for(event: LaunchEvent, elapsed_millis: u128, timeout_millis: u128) -> Seq<
    char,
> {
    match event {
        LaunchEvent::StdoutLine { line } if !timed_out(elapsed_millis, timeout_millis) => line@.push(
            '\n',
        ),
        _ => Seq::empty(),
    }
}

/// What the output file holds after a row of events: each line of the
/// output that came within the limit, in the order in which the program
/// wrote them, with a line feed behind it.
pub open spec fn written(events: Seq<Timed>, timeout_millis: u128) -> Seq<char>
    decreases events.len(),
{
    if events.len() == 0 {
        Seq::empty()
    } else {
        written(events.drop_last(), timeout_millis) + record_for(
            events.last().event,
            events.last().elapsed_millis,
            timeout_millis,
        )
    }
}

/// What an action writes to the output file.
pub open spec fn record_of(action: LaunchAction) -> Seq<char> {
    match action {
        LaunchAction::Stdout { record, .. } => record@,
        _ => Seq::empty(),
    }
}

impl LaunchState {
    /// The state of a run that has just started.
    pub fn new() -> (s: LaunchState)
        ensures
            s == (LaunchState { stdout_eof: false, stderr_eof: false, is_timeout: false }),
    {
        LaunchState { stdout_eof: false, stderr_eof: false, is_timeout: false }
    }

    /// Whether the run is over: both streams are closed, or the process
    /// was killed for being over its limit.
    pub open spec fn finished(&self) -> bool {
        self.is_timeout || (self.stdout_eof && self.stderr_eof)
    }

    /// Decides `finished`.
    pub fn is_finished(&self) -> (b: bool)
        ensures
            b == self.finished(),
    {
        self.is_timeout || (self.stdout_eof && self.stderr_eof)
    }

    /// Takes one event, with the time at which it came. The clock is
    /// looked at with every event: one that comes over the limit kills
    /// the process, whatever the event is. Within the limit a line of
    /// output is handed on and recorded with a line feed behind it, a
    /// line of the error stream is handed on, and the end of a stream is
    /// noted.
    pub fn step(&mut self, event: LaunchEvent, elapsed_millis: u128, timeout_millis: u128) -> (action:
        LaunchAction)
        ensures
            *final(self) == stepped(*old(self), event, elapsed_millis, timeout_millis),
            record_of(action) == record_for(event, elapsed_millis, timeout_millis),
            timed_out(elapsed_millis, timeout_millis) ==> action is Kill && final(self).is_timeout,
            !timed_out(elapsed_millis, timeout_millis) ==> (match event {
                LaunchEvent::StdoutLine { line } => action matches LaunchAction::Stdout {
                    line: handed,
                    record,
                } && handed == line && record@ == line@.push('\n'),
                LaunchEvent::StderrLine { line } => action matches LaunchAction::Stderr {
                    line: handed,
                } && handed == line,
                _ => action is Nothing,
            }),
    {
        if is_timed_out(elapsed_millis, timeout_millis) {
            self.is_timeout = true;
            return LaunchAction::Kill;
        }
        match event {
            LaunchEvent::StdoutLine { line } => {
                let mut record = line.clone();
                record.push('\n');
                LaunchAction::Stdout { line, record }
            },
            LaunchEvent::StdoutEof => {
                self.stdout_eof = true;
                LaunchAction::Nothing
            },
            LaunchEvent::StderrLine { line } => LaunchAction::Stderr { line },
            LaunchEvent::StderrEof => {
                self.stderr_eof = true;
                LaunchAction::Nothing
            },
            LaunchEvent::Tick => LaunchAction::Nothing,
        }
    }
}

/// The output file grows at its end only, in the order of the events:
/// what a row of events writes is what its first part writes followed by
/// what the rest writes.
pub proof fn lemma_written_in_order(events: Seq<Timed>, more: Seq<Timed>, timeout_millis: u128)
    ensures
        written(events + more, timeout_millis) == written(events, timeout_millis) + written(
            more,
            timeout_millis,
        ),
    decreases more.len(),
{
    if more.len() == 0 {
        assert(events + more == events);
        assert(written(events, timeout_millis) + Seq::<char>::empty() == written(
            events,
            timeout_millis,
        ));
    } else {
        let all = events + more;
        assert(all.drop_last() == events + more.drop_last());
        assert(all.last() == more.last());
        lemma_written_in_order(events, more.drop_last(), timeout_millis);
        let r = record_for(more.last().event, more.last().elapsed_millis, timeout_millis);
        assert((written(events, timeout_millis) + written(more.drop_last(), timeout_millis)) + r
            == written(events, timeout_millis) + (written(more.drop_last(), timeout_millis) + r));
    }
}

/// Whether `timed` came over the limit.
pub open spec fn is_late(timed: Timed, timeout_millis: u128) -> bool {
    timed_out(timed.elapsed_millis, timeout_millis)
}

/// A run is reported as timed out exactly when some event came over the
/// limit: a program that ends in time is never reported as timed out, and
/// one that is still running over its limit always is, whether it writes
/// or keeps silent.
pub proof fn lemma_timeout_iff_late_event(events: Seq<Timed>, timeout_millis: u128)
    ensures
        stepped_all(
            LaunchState { stdout_eof: false, stderr_eof: false, is_timeout: false },
            events,
            timeout_millis,
        ).is_timeout <==> exists|i: int|
            0 <= i < events.len() && is_late(#[trigger] events[i], timeout_millis),
    decreases events.len(),
{
    let start = LaunchState { stdout_eof: false, stderr_eof: false, is_timeout: false };
    if events.len() > 0 {
        let before = events.drop_last();
        lemma_timeout_iff_late_event(before, timeout_millis);
        if stepped_all(start, events, timeout_millis).is_timeout {
            if stepped_all(start, before, timeout_millis).is_timeout {
                let i = choose|i: int|
                    0 <= i < before.len() && is_late(#[trigger] before[i], timeout_millis);
                assert(events[i] == before[i]);
            } else {
                assert(is_late(events[events.len() - 1], timeout_millis));
            }
        } else {
            assert forall|i: int| 0 <= i < events.len() implies !is_late(
                #[trigger] events[i],
                timeout_millis,
            ) by {
                if i < before.len() {
                    assert(before[i] == events[i]);
                }
            }
        }
    }
}

/// When the look number `j` at the clock takes place, in milliseconds
/// after the start, if the clock is looked at every `POLL_MILLIS`.
pub open spec fn look_time(j: int) -> int {
    j * POLL_MILLIS
}

/// A silent program is looked at every `POLL_MILLIS`. The first look
/// that finds it over its limit comes no later than one interval after
/// the limit: the look number `timeout / POLL_MILLIS + 1` is late, and no
/// look before it is.
pub proof fn lemma_kill_within_one_interval(timeout_millis: u128)
    ensures
        ({
            let k = timeout_millis as int / POLL_MILLIS as int + 1;
            &&& look_time(k) > timeout_millis
            &&& look_time(k) <= timeout_millis + POLL_MILLIS
            &&& forall|j: int| 0 <= j < k ==> #[trigger] look_time(j) <= timeout_millis
        }),
{
    let t = timeout_millis as int;
    let k = t / 200 + 1;
    assert(k * 200 > t && k * 200 <= t + 200) by (nonlinear_arith)
        requires
            k == t / 200 + 1,
            t >= 0,
    ;
    assert forall|j: int| 0 <= j < k implies #[trigger] look_time(j) <= t by {
        assert(j * 200 <= t) by (nonlinear_arith)
            requires
                0 <= j < k,
                k == t / 200 + 1,
                t >= 0,
        ;
    }
}

/// What is known of a process when its handle is let go.
#[derive(Debug, Clone, Copy, PartialEq, Eq, Structural)]
pub enum ProcessPoll {
    /// It has not ended.
    Running,
    /// It has ended.
    Exited,
    /// Its state could not be read.
    Unknown,
}

/// Whether a process must be killed when its handle is let go: exactly
/// when it is known to be running still, so that no child is left behind.
pub fn must_kill_on_drop(poll: ProcessPoll) -> (kill: bool)
    ensures
        kill == (poll == ProcessPoll::Running),
{
    match poll {
        ProcessPoll::Running => true,
        _ => false,
    }
}

} // verus!
