//! What a run does before the engine gets to work: it starts the engine, reads
//! the command line, makes its models ready and reads its input, in that order.

use vstd::prelude::*;

verus! {

/// What a command needs before its work.
#[derive(Clone, Copy, Debug, PartialEq, Eq, Structural)]
pub struct OpeningPlan {
    /// How many models are made ready.
    pub models: usize,
    /// Whether a recording or an image is read.
    pub reads: bool,
}

/// The step that an opening takes next.
#[derive(Clone, Copy, Debug, PartialEq, Eq, Structural)]
pub enum Opening {
    /// Start the engine.
    Start,
    /// See that the command line gives what is needed.
    Usage,
    /// Make the model of that place ready.
    Resolve(usize),
    /// Read the recording or the image.
    Read,
    /// The work can begin.
    Ready,
    /// It cannot; the exit code.
    Refused(i32),
}

/// The step when the first `n` models are ready.
pub open spec fn with_models(plan: OpeningPlan, n: int) -> Opening {
    if n < plan.models {
        Opening::Resolve(n as usize)
    } else if plan.reads {
        Opening::Read
    } else {
        Opening::Ready
    }
}

/// The step after one that worked or not. A command line that lacks something
/// exits with 2; a model that cannot be made ready with the code of that
/// attempt, which is `code`; everything else with 1.
pub open spec fn opening_after(plan: OpeningPlan, stage: Opening, ok: bool, code: i32) -> Opening {
    match stage {
        Opening::Start => if ok {
            Opening::Usage
        } else {
            Opening::Refused(1)
        },
        Opening::Usage => if ok {
            with_models(plan, 0)
        } else {
            Opening::Refused(2)
        },
        Opening::Resolve(i) => if ok {
            with_models(plan, i + 1)
        } else {
            Opening::Refused(code)
        },
        Opening::Read => if ok {
            Opening::Ready
        } else {
            Opening::Refused(1)
        },
        Opening::Ready => Opening::Ready,
        Opening::Refused(c) => Opening::Refused(c),
    }
}

/// See [`opening_after`].
pub fn open_run(plan: OpeningPlan, stage: Opening, ok: bool, code: i32) -> (r: Opening)
    ensures
        r == opening_after(plan, stage, ok, code),
{
    match stage {
        Opening::Start => if ok {
            Opening::Usage
        } else {
            Opening::Refused(1)
        },
        Opening::Usage => if !ok {
            Opening::Refused(2)
        } else if plan.models > 0 {
            Opening::Resolve(0)
        } else if plan.reads {
            Opening::Read
        } else {
            Opening::Ready
        },
        Opening::Resolve(i) => if !ok {
            Opening::Refused(code)
        } else if i < plan.models && i + 1 < plan.models {
            Opening::Resolve(i + 1)
        } else if plan.reads {
            Opening::Read
        } else {
            Opening::Ready
        },
        Opening::Read => if ok {
            Opening::Ready
        } else {
            Opening::Refused(1)
        },
        Opening::Ready => Opening::Ready,
        Opening::Refused(c) => Opening::Refused(c),
    }
}

/// How much of an opening is left.
pub open spec fn opening_left(plan: OpeningPlan, stage: Opening) -> int {
    match stage {
        Opening::Start => plan.models + 3,
        Opening::Usage => plan.models + 2,
        Opening::Resolve(i) => if i < plan.models {
            plan.models - i + 1
        } else {
            2
        },
        Opening::Read => 1,
        Opening::Ready => 0,
        Opening::Refused(_) => 0,
    }
}

/// An opening ends, and refuses a run with 2 only where the command line lacks
/// something or a model says so itself.
pub proof fn an_opening_ends(plan: OpeningPlan, stage: Opening, ok: bool, code: i32)
    ensures
        !(stage is Ready) && !(stage is Refused) ==> 0 <= opening_left(plan, opening_after(plan, stage, ok, code))
            < opening_left(plan, stage),
        stage is Usage && !ok ==> opening_after(plan, stage, ok, code) == Opening::Refused(2),
        opening_after(plan, stage, ok, code) == Opening::Refused(2) ==> stage == Opening::Refused(2) || !ok && (
        stage is Usage || stage is Resolve && code == 2),
{
}

/// A run that opens finds every model it needs, in order, then reads what it needs
/// to read, and only then is ready; the first of these that fails ends it.
pub proof fn an_opening_finds_every_model(plan: OpeningPlan, i: int, code: i32)
    requires
        0 <= i < plan.models,
    ensures
        opening_after(plan, Opening::Start, true, code) == Opening::Usage,
        opening_after(plan, Opening::Start, false, code) == Opening::Refused(1),
        opening_after(plan, Opening::Usage, true, code) == Opening::Resolve(0),
        opening_after(plan, Opening::Usage, false, code) == Opening::Refused(2),
        i + 1 < plan.models ==> opening_after(plan, Opening::Resolve(i as usize), true, code) == Opening::Resolve(
            (i + 1) as usize,
        ),
        i + 1 == plan.models ==> opening_after(plan, Opening::Resolve(i as usize), true, code) == (if plan.reads {
            Opening::Read
        } else {
            Opening::Ready
        }),
        opening_after(plan, Opening::Resolve(i as usize), false, code) == Opening::Refused(code),
        opening_after(plan, Opening::Read, true, code) == Opening::Ready,
        opening_after(plan, Opening::Read, false, code) == Opening::Refused(1),
{
}

/// The exit code of `about`, `backends` and `info`, which only report: 1 if and
/// only if the engine cannot be started.
pub fn report_code(started: bool) -> (r: i32)
    ensures
        r == if started {
            0i32
        } else {
            1
        },
{
    if started {
        0
    } else {
        1
    }
}

} // verus!
