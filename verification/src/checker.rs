//! The verdict of a checker, and the registry through which the checks
//! that are under way can be told to stop.
//!
//! A checker is any program that takes the input file, the output of the
//! judged program, the expected answer and, where it writes one, the path
//! of a report, and says by its exit status whether the output is right.

use crate::compiler::{CompilerOptions, LanguageMode};
use crate::platform::{resolve_exe_or_elf_str_on, resolved_exe_or_elf, Platform};
use crate::text::{chars_of, has_prefix, lines, lines_of, starts_with, string_of, texts};
use vstd::prelude::*;

verus! {

/// How long a checker may run, in milliseconds.
pub const CHECKER_TIMEOUT_MILLIS: u64 = 5000;

/// The verdict of a check that can be called off.
#[derive(Debug, Clone)]
pub enum CheckResult {
    /// The output was accepted.
    AC,
    /// The output was rejected; `report` says why.
    WA { report: String },
    /// The check was called off before the checker ended.
    CheckerInt,
    /// The checker was still running at its time limit, and was killed.
    CheckerTimeout,
    /// The checker could not be built.
    CheckerCE,
}

/// The checker to use.
#[derive(Debug, Clone)]
pub enum CheckerType {
    /// One of the checkers that come with the engine, by its name.
    Internal { name: String },
    /// A checker given as source.
    External {
        mode: LanguageMode,
        source: String,
        compiler_options: CompilerOptions,
        suggest_output_path: Option<String>,
    },
}

/// The verdict of a check under a time limit.
#[derive(Debug, Clone, Copy, PartialEq, Eq, Structural)]
pub enum CheckerStatus {
    AC,
    WA,
    /// The checker gave no verdict.
    UKE,
}

/// A verdict with what the checker reported.
#[derive(Debug, Clone)]
pub struct CheckerMessage {
    pub status: CheckerStatus,
    pub message: String,
}

/// Something that compares an output with the expected one.
pub trait CheckerCaller {
    fn check(&self, actual_output_file: &str, expect_output_file: &str) -> Result<
        CheckerStatus,
        String,
    >;
}

/// How a check that can be called off ended.
#[derive(Debug, Clone)]
pub enum CheckEnd {
    /// The checker ended, and `report` is what its report file holds,
    /// or nothing where the file could not be read.
    Exited { success: bool, report: String },
    /// The checker was still running after `CHECKER_TIMEOUT_MILLIS`.
    TimedOut,
    /// The check was called off first.
    Aborted,
}

/// How a check under a time limit ended.
#[derive(Debug, Clone)]
pub enum CheckerRun {
    /// The checker ended, and `report` is what its report file holds,
    /// or nothing where the file could not be read.
    Exited { success: bool, report: String },
    /// The checker was still running after `CHECKER_TIMEOUT_MILLIS`.
    TimedOut,
}

/// The verdict of a check that ended in `end`: accepted exactly when the
/// checker ended with success, rejected with what it reported when it
/// ended otherwise, out of time when it was still running at its time
/// limit, and called off when it was called off.
pub open spec fn check_verdict(end: CheckEnd) -> CheckResult {
    match end {
        CheckEnd::Exited { success, report } => if success {
            CheckResult::AC
        } else {
            CheckResult::WA { report }
        },
        CheckEnd::TimedOut => CheckResult::CheckerTimeout,
        CheckEnd::Aborted => CheckResult::CheckerInt,
    }
}

impl CheckResult {
    /// Computes `check_verdict`.
    pub fn from_end(end: CheckEnd) -> (r: Self)
        ensures
            r == check_verdict(end),
    {
        match end {
            CheckEnd::Exited { success, report } => {
                if success {
                    CheckResult::AC
                } else {
                    CheckResult::WA { report }
                }
            },
            CheckEnd::TimedOut => CheckResult::CheckerTimeout,
            CheckEnd::Aborted => CheckResult::CheckerInt,
        }
    }
}

/// Whether the checker is to be killed after a check that ended in `end`:
/// exactly when it ran out of time.
pub fn must_kill_check(end: &CheckEnd) -> (kill: bool)
    ensures
        kill == (*end is TimedOut),
{
    match end {
        CheckEnd::TimedOut => true,
        _ => false,
    }
}

/// A check is accepted or rejected only by a checker that ended: one
/// that ran out of time gives its own verdict, and so does one that was
/// called off, and the two differ.
pub proof fn lemma_only_an_ended_checker_decides(end: CheckEnd)
    ensures
        check_verdict(end) is AC || check_verdict(end) is WA <==> end is Exited,
        end is TimedOut <==> check_verdict(end) is CheckerTimeout,
        end is Aborted <==> check_verdict(end) is CheckerInt,
{
}

impl CheckerMessage {
    /// A verdict with its message.
    pub fn new(status: CheckerStatus, message: String) -> (m: Self)
        ensures
            m.status == status,
            m.message == message,
    {
        Self { status, message }
    }

    /// The verdict of a check that ended in `run`: accepted exactly when
    /// the checker ended with success, rejected when it ended otherwise,
    /// in both cases with its report; no verdict, with the message
    /// `Checker timeout`, when it ran out of time.
    pub fn from_run(run: CheckerRun) -> (m: Self)
        ensures
            match run {
                CheckerRun::Exited { success, report } => m.message == report && m.status == (
                if success {
                    CheckerStatus::AC
                } else {
                    CheckerStatus::WA
                }),
                CheckerRun::TimedOut => m.status == CheckerStatus::UKE && m.message@
                    == "Checker timeout"@,
            },
    {
        match run {
            CheckerRun::Exited { success, report } => {
                if success {
                    CheckerMessage::new(CheckerStatus::AC, report)
                } else {
                    CheckerMessage::new(CheckerStatus::WA, report)
                }
            },
            CheckerRun::TimedOut => CheckerMessage::new(
                CheckerStatus::UKE,
                String::from_str("Checker timeout"),
            ),
        }
    }
}

/// Whether the checker is to be killed after a check that ended in `run`:
/// exactly when it ran out of time.
pub fn must_kill_checker(run: &CheckerRun) -> (kill: bool)
    ensures
        kill == (*run is TimedOut),
{
    match run {
        CheckerRun::TimedOut => true,
        CheckerRun::Exited { .. } => false,
    }
}

/// Where a checker is found.
#[derive(Debug, Clone)]
pub enum CheckerLocation {
    /// Among the files that come with the engine, under this name.
    Bundled { resource: String },
    /// At this path.
    Path { path: String },
}

/// Where the checker `checker` is found on `platform`: what follows
/// `res:` names a bundled executable in `bin/`; anything else is a path.
pub fn locate_checker(checker: String, platform: Platform) -> (location: CheckerLocation)
    ensures
        match location {
            CheckerLocation::Bundled { resource } => starts_with(checker@, "res:"@) && resource@
                == resolved_exe_or_elf(
                platform,
                "bin/"@ + checker@.subrange(4, checker@.len() as int),
            ),
            CheckerLocation::Path { path } => !starts_with(checker@, "res:"@) && path == checker,
        },
{
    let v = chars_of(checker.as_str());
    if has_prefix(&v, "res:") {
        proof {
            reveal_strlit("res:");
            assert("res:"@.len() == 4);
        }
        let name = string_of(&v, 4, v.len());
        let mut relative = String::from_str("bin/");
        relative.append(name.as_str());
        CheckerLocation::Bundled { resource: resolve_exe_or_elf_str_on(platform, relative.as_str()) }
    } else {
        CheckerLocation::Path { path: checker }
    }
}

/// The bundled file that holds the checker `checker` on `platform`:
/// `sidecar/` and the name, with `.exe` behind it on Windows. A checker
/// given as source has no such file.
pub fn checker_resource(checker: &CheckerType, platform: Platform) -> (resource: Option<String>)
    ensures
        match *checker {
            CheckerType::Internal { name } => resource matches Some(r) && r@ == "sidecar/"@
                + name@ + (if platform == Platform::Windows {
                ".exe"@
            } else {
                ""@
            }),
            CheckerType::External { .. } => resource is None,
        },
{
    match checker {
        CheckerType::Internal { name } => {
            let mut r = String::from_str("sidecar/");
            r.append(name.as_str());
            if platform.is_windows() {
                r.append(".exe");
            } else {
                proof {
                    reveal_strlit("");
                    assert(r@ + ""@ =~= r@);
                }
            }
            Some(r)
        },
        CheckerType::External { .. } => None,
    }
}

/// The arguments of a checker, whichever way it is run: the input, the
/// output to judge, the expected answer and the path of the report.
pub fn checker_arguments(
    input_file: String,
    output_file: String,
    answer_file: String,
    report_file: String,
) -> (args: Vec<String>)
    ensures
        args@ == seq![input_file, output_file, answer_file, report_file],
{
    let mut args: Vec<String> = Vec::new();
    args.push(input_file);
    args.push(output_file);
    args.push(answer_file);
    args.push(report_file);
    assert(args@ =~= seq![input_file, output_file, answer_file, report_file]);
    args
}

/// The names of the bundled checkers, which `listing` holds one to a line.
pub fn get_bundled_checker_names(listing: &str) -> (names: Vec<String>)
    ensures
        texts(names@) == lines_of(listing@),
{
    lines(listing)
}

/// The checks that are under way, each under the number it was given when
/// it began.
#[derive(Debug)]
pub struct CheckerState {
    sender_counter: u32,
    exit_sender: Vec<u32>,
}

/// The number that follows `n`; after the largest comes 0.
pub open spec fn next_number(n: u32) -> u32 {
    if n == u32::MAX {
        0
    } else {
        (n + 1) as u32
    }
}

impl CheckerState {
    #[verifier::type_invariant]
    spec fn well_formed(&self) -> bool {
        self.exit_sender@.no_duplicates()
    }

    /// The numbers of the checks that are under way.
    pub closed spec fn view(&self) -> Set<u32> {
        self.exit_sender@.to_set()
    }

    /// The number that the next check will be given.
    pub closed spec fn counter(&self) -> u32 {
        self.sender_counter
    }

    /// No check is under way, and the first will be given the number 0.
    pub fn new() -> (s: Self)
        ensures
            s@ == Set::<u32>::empty(),
            s.counter() == 0,
    {
        let s = Self { sender_counter: 0, exit_sender: Vec::new() };
        assert(s@ =~= Set::<u32>::empty());
        s
    }

    /// Whether no check is under way.
    pub fn is_empty(&self) -> (b: bool)
        ensures
            b == (self@ == Set::<u32>::empty()),
    {
        let b = self.exit_sender.len() == 0;
        proof {
            if b {
                assert(self@ =~= Set::<u32>::empty());
            } else {
                assert(self.exit_sender@.to_set().contains(self.exit_sender@[0]));
            }
        }
        b
    }

    /// The numbers in `ids` but `id`, in their order.
    fn without(ids: &Vec<u32>, id: u32) -> (kept: Vec<u32>)
        requires
            ids@.no_duplicates(),
        ensures
            kept@.no_duplicates(),
            kept@.to_set() == ids@.to_set().remove(id),
    {
        let mut kept: Vec<u32> = Vec::new();
        let mut i: usize = 0;
        while i < ids.len()
            invariant
                i <= ids.len(),
                ids@.no_duplicates(),
                kept@.no_duplicates(),
                forall|x: u32|
                    kept@.contains(x) <==> x != id && exists|j: int| 0 <= j < i && ids@[j] == x,
            decreases ids.len() - i,
        {
            let x = ids[i];
            let ghost earlier = kept@;
            if x != id {
                proof {
                    if earlier.contains(x) {
                        let j = choose|j: int| 0 <= j < i && ids@[j] == x;
                        assert(ids@[j] == ids@[i as int]);
                    }
                }
                kept.push(x);
                proof {
                    assert forall|a: int, b: int|
                        0 <= a < kept@.len() && 0 <= b < kept@.len() && a != b implies kept@[a]
                        != kept@[b] by {
                        if a < earlier.len() && b < earlier.len() {
                            assert(earlier[a] != earlier[b]);
                        } else if a < earlier.len() {
                            assert(earlier.contains(earlier[a]));
                        } else if b < earlier.len() {
                            assert(earlier.contains(earlier[b]));
                        }
                    }
                    assert forall|y: u32| kept@.contains(y) <==> y != id && exists|j: int|
                        0 <= j < i + 1 && ids@[j] == y by {
                        if kept@.contains(y) {
                            let k = choose|k: int| 0 <= k < kept@.len() && kept@[k] == y;
                            if k < earlier.len() {
                                assert(earlier[k] == y);
                                assert(earlier.contains(y));
                            } else {
                                assert(ids@[i as int] == y);
                            }
                        }
                        if y != id && exists|j: int| 0 <= j < i + 1 && ids@[j] == y {
                            let j = choose|j: int| 0 <= j < i + 1 && ids@[j] == y;
                            if j < i {
                                assert(earlier.contains(y));
                                let k = choose|k: int| 0 <= k < earlier.len() && earlier[k] == y;
                                assert(kept@[k] == y);
                            } else {
                                assert(kept@[earlier.len() as int] == y);
                            }
                        }
                    }
                }
            }
            i = i + 1;
        }
        proof {
            assert forall|x: u32| kept@.to_set().contains(x) == ids@.to_set().remove(id).contains(
                x,
            ) by {
                if kept@.contains(x) {
                    let j = choose|j: int| 0 <= j < ids@.len() && ids@[j] == x;
                    assert(ids@.to_set().contains(x));
                }
                if x != id && ids@.to_set().contains(x) {
                    let j = choose|j: int| 0 <= j < ids@.len() && ids@[j] == x;
                    assert(kept@.contains(x));
                }
            }
            assert(kept@.to_set() =~= ids@.to_set().remove(id));
        }
        kept
    }

    /// Enters a check that begins, and returns its number: the numbers
    /// are handed out in order.
    pub fn register(&mut self) -> (id: u32)
        ensures
            id == old(self).counter(),
            final(self).counter() == next_number(old(self).counter()),
            final(self)@ == old(self)@.insert(id),
    {
        proof {
            use_type_invariant(&*self);
        }
        let id = self.sender_counter;
        let mut ids = Self::without(&self.exit_sender, id);
        let ghost filtered = ids@;
        ids.push(id);
        proof {
            let before = old(self).exit_sender@;
            let kept = before.to_set().remove(id);
            assert(ids@.drop_last() =~= filtered);
            assert(ids@.drop_last().to_set() == kept);
            assert(!ids@.drop_last().contains(id)) by {
                if ids@.drop_last().contains(id) {
                    assert(ids@.drop_last().to_set().contains(id));
                }
            }
            assert forall|a: int, b: int|
                0 <= a < ids@.len() && 0 <= b < ids@.len() && a != b implies ids@[a]
                != ids@[b] by {
                let n = ids@.len() - 1;
                if a < n && b < n {
                    assert(ids@.drop_last()[a] != ids@.drop_last()[b]);
                } else if a < n {
                    assert(ids@.drop_last().contains(ids@.drop_last()[a]));
                } else if b < n {
                    assert(ids@.drop_last().contains(ids@.drop_last()[b]));
                }
            }
            assert forall|x: u32| ids@.to_set().contains(x) == before.to_set().insert(id).contains(
                x,
            ) by {
                if ids@.to_set().contains(x) {
                    let j = choose|j: int| 0 <= j < ids@.len() && ids@[j] == x;
                    if j < ids@.len() - 1 {
                        assert(ids@.drop_last()[j] == x);
                        assert(ids@.drop_last().to_set().contains(x));
                    }
                }
                if x != id && before.to_set().contains(x) {
                    assert(kept.contains(x));
                    assert(ids@.drop_last().to_set().contains(x));
                    let j = choose|j: int|
                        0 <= j < ids@.drop_last().len() && ids@.drop_last()[j] == x;
                    assert(ids@[j] == x);
                }
                if x == id {
                    assert(ids@[ids@.len() - 1] == id);
                }
            }
            assert(ids@.to_set() =~= before.to_set().insert(id));
        }
        let next = if id == u32::MAX {
            0
        } else {
            id + 1
        };
        *self = CheckerState { sender_counter: next, exit_sender: ids };
        id
    }

    /// Strikes out the check with the number `id`, which has ended.
    pub fn deregister(&mut self, id: u32)
        ensures
            final(self)@ == old(self)@.remove(id),
            final(self).counter() == old(self).counter(),
    {
        proof {
            use_type_invariant(&*self);
        }
        let kept = Self::without(&self.exit_sender, id);
        *self = CheckerState { sender_counter: self.sender_counter, exit_sender: kept };
    }

    /// The numbers of the checks to tell to stop: each check that is
    /// under way, once. The registry itself stays as it is; each check
    /// strikes itself out when it ends.
    pub fn abort_all(&self) -> (ids: Vec<u32>)
        ensures
            ids@.no_duplicates(),
            ids@.to_set() == self@,
    {
        proof {
            use_type_invariant(self);
        }
        self.exit_sender.clone()
    }
}

/// The registry after the checks `ids` have struck themselves out, one
/// after the other.
pub open spec fn struck_out(registry: Set<u32>, ids: Seq<u32>) -> Set<u32>
    decreases ids.len(),
{
    if ids.len() == 0 {
        registry
    } else {
        struck_out(registry, ids.drop_last()).remove(ids.last())
    }
}

/// Striking out removes exactly the numbers struck out.
pub proof fn lemma_struck_out(registry: Set<u32>, ids: Seq<u32>)
    ensures
        struck_out(registry, ids) == registry.difference(ids.to_set()),
    decreases ids.len(),
{
    if ids.len() == 0 {
        assert(ids.to_set() =~= Set::<u32>::empty());
        assert(registry.difference(ids.to_set()) =~= registry);
    } else {
        lemma_struck_out(registry, ids.drop_last());
        assert forall|x: u32| ids.to_set().contains(x) == (x == ids.last()
            || ids.drop_last().to_set().contains(x)) by {
            if ids.to_set().contains(x) {
                let j = choose|j: int| 0 <= j < ids.len() && ids[j] == x;
                if j < ids.len() - 1 {
                    assert(ids.drop_last()[j] == x);
                }
            }
            if ids.drop_last().to_set().contains(x) {
                let j = choose|j: int| 0 <= j < ids.drop_last().len() && ids.drop_last()[j] == x;
                assert(ids[j] == x);
            }
            if x == ids.last() {
                assert(ids[ids.len() - 1] == x);
            }
        }
        assert(struck_out(registry, ids) =~= registry.difference(ids.to_set()));
    }
}

/// Calling off every check: once the checks that were told to stop have
/// struck themselves out, no check is left in the registry.
pub proof fn lemma_abort_all_settles(registry: Set<u32>, told: Seq<u32>)
    requires
        told.to_set() == registry,
    ensures
        struck_out(registry, told) == Set::<u32>::empty(),
{
    lemma_struck_out(registry, told);
    assert(registry.difference(told.to_set()) =~= Set::<u32>::empty());
}

} // verus!
