//! The self-replace protocol: what the installer does at its start, and how
//! often it tries a file operation that another process may still block.

use crate::config::text_of;
use vstd::prelude::*;

verus! {

/// The number of attempts that a blocked file operation gets.
pub const MAX_ATTEMPTS: u32 = 5;

/// The pause before the first attempt, for the replaced process to let go
/// of its file, in milliseconds.
pub const SETTLE_DELAY_MS: u64 = 3000;

/// The pause between two attempts, in milliseconds.
pub const RETRY_DELAY_MS: u64 = 3000;

/// The file in the install directory in which a replaced process leaves
/// its arguments for the process that replaces it.
pub const ARGUMENTS_FILE: &'static str = "args.json";

/// The executable in the install directory that an update leaves behind.
pub const LEFTOVER_TOOL: &'static str = "maintenancetool_new.exe";

/// What a file operation is tried for.
#[derive(Clone, Copy, Debug, PartialEq, Eq, Structural)]
pub enum Purpose {
    /// Putting the new executable in place: the user asked for it.
    Swap,
    /// Removing what an earlier update left behind.
    Cleanup,
}

/// What follows an attempt.
#[derive(Clone, Copy, Debug, PartialEq, Eq, Structural)]
pub enum Decision {
    /// The operation is done: after a swap the new executable is launched,
    /// after a cleanup the start goes on.
    Done,
    /// Wait this long and try again.
    Retry { delay_ms: u64 },
    /// The swap cannot be completed: stop with a diagnostic and launch
    /// nothing.
    Fatal,
    /// The leftover stays: say so and go on.
    GiveUp,
}

/// What the last failure comes to.
pub open spec fn exhausted(purpose: Purpose) -> Decision {
    match purpose {
        Purpose::Swap => Decision::Fatal,
        Purpose::Cleanup => Decision::GiveUp,
    }
}

/// What follows the attempt with this number, the first being 1.
pub open spec fn decision(purpose: Purpose, attempt: nat, succeeded: bool) -> Decision {
    if succeeded {
        Decision::Done
    } else if attempt < MAX_ATTEMPTS {
        Decision::Retry { delay_ms: RETRY_DELAY_MS }
    } else {
        exhausted(purpose)
    }
}

/// Decides what follows the attempt with this number, the first being 1.
pub fn after_attempt(purpose: Purpose, attempt: u32, succeeded: bool) -> (next: Decision)
    ensures
        next == decision(purpose, attempt as nat, succeeded),
{
    if succeeded {
        Decision::Done
    } else if attempt < MAX_ATTEMPTS {
        Decision::Retry { delay_ms: RETRY_DELAY_MS }
    } else {
        match purpose {
            Purpose::Swap => Decision::Fatal,
            Purpose::Cleanup => Decision::GiveUp,
        }
    }
}

/// Whether the attempt at this position of a script succeeds. An attempt
/// past the end of the script fails.
pub open spec fn succeeds_at(script: Seq<bool>, position: int) -> bool {
    0 <= position < script.len() && script[position]
}

/// The number of attempts that are made once `made` attempts have failed:
/// up to the first success, and never more than the limit.
pub open spec fn attempts_after(script: Seq<bool>, made: nat) -> nat
    decreases MAX_ATTEMPTS - made,
{
    if made + 1 >= MAX_ATTEMPTS || succeeds_at(script, made as int) {
        made + 1
    } else {
        attempts_after(script, made + 1)
    }
}

/// A whole run of the protocol against a script of attempts.
#[derive(Clone, Copy, Debug, PartialEq, Eq, Structural)]
pub struct Run {
    /// How it ended: `Done`, `Fatal` or `GiveUp`.
    pub end: Decision,
    /// The number of attempts made.
    pub attempts: u32,
    /// The time spent waiting between attempts, in milliseconds.
    pub waited_ms: u64,
}

/// The run that a script of attempts leads to.
pub open spec fn run_of(purpose: Purpose, script: Seq<bool>) -> Run {
    let attempts = attempts_after(script, 0);
    Run {
        end: if succeeds_at(script, attempts - 1) {
            Decision::Done
        } else {
            exhausted(purpose)
        },
        attempts: attempts as u32,
        waited_ms: ((attempts - 1) * RETRY_DELAY_MS) as u64,
    }
}

/// The number of attempts lies between the position reached and the limit.
pub proof fn lemma_attempts_bounds(script: Seq<bool>, made: nat)
    requires
        made < MAX_ATTEMPTS,
    ensures
        made < attempts_after(script, made) <= MAX_ATTEMPTS,
        forall|i: int| made <= i < attempts_after(script, made) - 1 ==> !succeeds_at(script, i),
        attempts_after(script, made) < MAX_ATTEMPTS ==> succeeds_at(
            script,
            attempts_after(script, made) - 1,
        ),
    decreases MAX_ATTEMPTS - made,
{
    if made + 1 >= MAX_ATTEMPTS || succeeds_at(script, made as int) {
    } else {
        lemma_attempts_bounds(script, made + 1);
    }
}

/// Plays the protocol against a script of attempts: `script[i]` says
/// whether attempt `i + 1` succeeds.
pub fn replay(purpose: Purpose, script: &Vec<bool>) -> (run: Run)
    ensures
        run == run_of(purpose, script@),
{
    let mut attempt: u32 = 1;
    let mut waited_ms: u64 = 0;
    loop
        invariant
            1 <= attempt <= MAX_ATTEMPTS,
            waited_ms == (attempt - 1) * RETRY_DELAY_MS,
            attempts_after(script@, 0) == attempts_after(script@, (attempt - 1) as nat),
        decreases MAX_ATTEMPTS - attempt,
    {
        let position = (attempt - 1) as usize;
        let succeeded = position < script.len() && script[position];
        assert(succeeded == succeeds_at(script@, attempt - 1));
        match after_attempt(purpose, attempt, succeeded) {
            Decision::Retry { delay_ms } => {
                waited_ms = waited_ms + delay_ms;
                attempt = attempt + 1;
            },
            end => {
                assert(attempts_after(script@, (attempt - 1) as nat) == attempt);
                return Run { end, attempts: attempt, waited_ms };
            },
        }
    }
}

/// A run ends well exactly when one of the first attempts, up to the
/// limit, succeeds. It then stops at the first such attempt. Else it makes
/// all its attempts and ends as its purpose says: a swap fatally, a cleanup
/// by giving up.
pub proof fn lemma_run_ends(purpose: Purpose, script: Seq<bool>)
    ensures
        1 <= run_of(purpose, script).attempts <= MAX_ATTEMPTS,
        run_of(purpose, script).end == Decision::Done <==> exists|i: int|
            0 <= i < MAX_ATTEMPTS && succeeds_at(script, i),
        run_of(purpose, script).end == Decision::Done ==> {
            &&& succeeds_at(script, run_of(purpose, script).attempts - 1)
            &&& forall|i: int|
                0 <= i < run_of(purpose, script).attempts - 1 ==> !succeeds_at(script, i)
        },
        run_of(purpose, script).end != Decision::Done ==> {
            &&& run_of(purpose, script).attempts == MAX_ATTEMPTS
            &&& run_of(purpose, script).end == exhausted(purpose)
        },
        run_of(purpose, script).waited_ms == (run_of(purpose, script).attempts - 1)
            * RETRY_DELAY_MS,
{
    lemma_attempts_bounds(script, 0);
    let attempts = attempts_after(script, 0);
    if succeeds_at(script, attempts - 1) {
        assert(0 <= attempts - 1 < MAX_ATTEMPTS && succeeds_at(script, attempts - 1));
    }
}

/// A swap whose first four attempts fail and whose fifth succeeds ends
/// well, after five attempts; one whose five attempts all fail is fatal.
pub proof fn lemma_fifth_attempt_counts(script: Seq<bool>)
    requires
        forall|i: int| 0 <= i < 4 ==> !succeeds_at(script, i),
    ensures
        run_of(Purpose::Swap, script).attempts == 5,
        succeeds_at(script, 4) ==> run_of(Purpose::Swap, script).end == Decision::Done,
        !succeeds_at(script, 4) ==> run_of(Purpose::Swap, script).end == Decision::Fatal,
{
    lemma_attempts_bounds(script, 0);
    let attempts = attempts_after(script, 0);
    if attempts < 5 {
        assert(succeeds_at(script, attempts - 1));
    }
}

/// What the installer does when it starts.
#[derive(Debug)]
pub enum Startup {
    /// Put this executable at `target`, launch it there and exit.
    Swap { target: String },
    /// Start normally. Before that, take the arguments of the replaced
    /// process from where it left them, and remove what an update left
    /// behind, as far as asked.
    Run { restore_arguments: bool, clean_leftover: bool },
}

/// The mathematical value of a start.
pub enum StartupView {
    Swap { target: Seq<char> },
    Run { restore_arguments: bool, clean_leftover: bool },
}

impl View for Startup {
    type V = StartupView;

    open spec fn view(&self) -> StartupView {
        match self {
            Startup::Swap { target } => StartupView::Swap { target: target@ },
            Startup::Run { restore_arguments, clean_leftover } => StartupView::Run {
                restore_arguments: *restore_arguments,
                clean_leftover: *clean_leftover,
            },
        }
    }
}

/// The start that the command line and the install directory ask for. A
/// swap target comes first and alone. Else saved arguments are restored
/// where there are any, and a leftover is removed where the platform keeps
/// executables locked and one is there.
pub open spec fn startup_of(
    swap_target: Option<Seq<char>>,
    arguments_saved: bool,
    locks_executables: bool,
    leftover_present: bool,
) -> StartupView {
    match swap_target {
        Some(target) => StartupView::Swap { target },
        None => StartupView::Run {
            restore_arguments: arguments_saved,
            clean_leftover: locks_executables && leftover_present,
        },
    }
}

/// Plans the start of the installer.
pub fn plan(
    swap_target: Option<String>,
    arguments_saved: bool,
    locks_executables: bool,
    leftover_present: bool,
) -> (startup: Startup)
    ensures
        startup@ == startup_of(
            text_of(swap_target),
            arguments_saved,
            locks_executables,
            leftover_present,
        ),
{
    match swap_target {
        Some(target) => Startup::Swap { target },
        None => Startup::Run {
            restore_arguments: arguments_saved,
            clean_leftover: locks_executables && leftover_present,
        },
    }
}

} // verus!
