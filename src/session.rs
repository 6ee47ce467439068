use vstd::prelude::*;

verus! {

/// Where a single run stands in its lifecycle.
#[derive(Debug, Clone, Copy, PartialEq, Eq, Structural)]
pub enum Phase {
    Configured,
    Loaded,
    Instantiated,
    ParamsReady,
    Called,
    Completed,
    Failed,
}

/// The work the driver is to do next.
#[derive(Debug, Clone, Copy, PartialEq, Eq, Structural)]
pub enum Action {
    /// Read and parse the artifact.
    Load,
    /// Instantiate it with the capability bundle.
    Instantiate,
    /// Resolve the function and build arguments and result slots.
    Prepare,
    /// Issue the call.
    Call,
    /// Run the mandatory post-call cleanup.
    Cleanup,
    /// Nothing more: the run is over.
    Stop,
}

/// How the last action ended.
#[derive(Debug, Clone, Copy, PartialEq, Eq, Structural)]
pub enum Outcome {
    Done,
    Fault,
}

pub open spec fn is_terminal(p: Phase) -> bool {
    p == Phase::Completed || p == Phase::Failed
}

pub open spec fn action_spec(p: Phase) -> Action {
    match p {
        Phase::Configured => Action::Load,
        Phase::Loaded => Action::Instantiate,
        Phase::Instantiated => Action::Prepare,
        Phase::ParamsReady => Action::Call,
        Phase::Called => Action::Cleanup,
        _ => Action::Stop,
    }
}

/// The phase after `p` once its action has ended with `o`: one step forward on
/// success, `Failed` on a fault, and no way out of the two final phases.
pub open spec fn next_spec(p: Phase, o: Outcome) -> Phase {
    if is_terminal(p) {
        p
    } else if o == Outcome::Fault {
        Phase::Failed
    } else {
        match p {
            Phase::Configured => Phase::Loaded,
            Phase::Loaded => Phase::Instantiated,
            Phase::Instantiated => Phase::ParamsReady,
            Phase::ParamsReady => Phase::Called,
            _ => Phase::Completed,
        }
    }
}

/// The phase reached from `p` through the outcomes `os`, in order.
pub open spec fn run_from(p: Phase, os: Seq<Outcome>) -> Phase
    decreases os.len(),
{
    if os.len() == 0 {
        p
    } else {
        run_from(next_spec(p, os[0]), os.skip(1))
    }
}

/// The action that phase `p` asks of the driver.
pub fn action_for(p: Phase) -> (r: Action)
    ensures
        r == action_spec(p),
{
    match p {
        Phase::Configured => Action::Load,
        Phase::Loaded => Action::Instantiate,
        Phase::Instantiated => Action::Prepare,
        Phase::ParamsReady => Action::Call,
        Phase::Called => Action::Cleanup,
        _ => Action::Stop,
    }
}

/// Moves the run on after the action of `p` ended with `o`.
pub fn advance(p: Phase, o: Outcome) -> (r: Phase)
    ensures
        r == next_spec(p, o),
{
    match p {
        Phase::Completed => Phase::Completed,
        Phase::Failed => Phase::Failed,
        _ => match o {
            Outcome::Fault => Phase::Failed,
            Outcome::Done => match p {
                Phase::Configured => Phase::Loaded,
                Phase::Loaded => Phase::Instantiated,
                Phase::Instantiated => Phase::ParamsReady,
                Phase::ParamsReady => Phase::Called,
                _ => Phase::Completed,
            },
        },
    }
}

proof fn lemma_failed_stays(os: Seq<Outcome>)
    ensures
        run_from(Phase::Failed, os) == Phase::Failed,
    decreases os.len(),
{
    if os.len() > 0 {
        lemma_failed_stays(os.skip(1));
    }
}

/// How many steps forward of `Configured` a phase stands (`Failed` aside).
pub open spec fn rank(p: Phase) -> int {
    match p {
        Phase::Configured => 0,
        Phase::Loaded => 1,
        Phase::Instantiated => 2,
        Phase::ParamsReady => 3,
        Phase::Called => 4,
        _ => 5,
    }
}

proof fn lemma_run_rank(p: Phase, os: Seq<Outcome>)
    requires
        p != Phase::Failed,
    ensures
        run_from(p, os) == Phase::Completed && p != Phase::Completed ==> os.len() >= 5 - rank(p)
            && forall|i: int| 0 <= i < 5 - rank(p) ==> os[i] == Outcome::Done,
        run_from(p, os) == Phase::ParamsReady ==> rank(p) <= 3 && os.len() == 3 - rank(p)
            && forall|i: int| 0 <= i < os.len() ==> os[i] == Outcome::Done,
    decreases os.len(),
{
    if os.len() > 0 {
        let q = next_spec(p, os[0]);
        let rest = os.skip(1);
        assert forall|i: int| 0 < i < os.len() implies os[i] == rest[i - 1] by {}
        if q == Phase::Failed {
            lemma_failed_stays(rest);
        } else {
            lemma_run_rank(q, rest);
        }
    }
}

/// A run completes only if loading, instantiation, preparation, the call and
/// the cleanup all succeeded, in that order; a run that asks for the call has
/// had its arguments prepared without fault.
pub proof fn lemma_completion_needs_every_step(os: Seq<Outcome>)
    ensures
        run_from(Phase::Configured, os) == Phase::Completed ==> os.len() >= 5 && forall|i: int|
            0 <= i < 5 ==> os[i] == Outcome::Done,
        action_spec(run_from(Phase::Configured, os)) == Action::Call ==> os.len() == 3
            && forall|i: int| 0 <= i < 3 ==> os[i] == Outcome::Done,
{
    lemma_run_rank(Phase::Configured, os);
}

/// What a command line holds: the artifact's path, the function to call, and
/// the tokens for its parameters.
#[derive(Debug)]
pub struct CommandLine {
    pub artifact: String,
    pub function: String,
    pub args: Vec<String>,
}

/// Splits `argv` (the program name first) into its parts; `None` when the
/// artifact or the function name is missing.
pub fn parse_command_line(argv: &Vec<String>) -> (r: Option<CommandLine>)
    ensures
        r is Some <==> argv@.len() >= 3,
        r matches Some(c) ==> c.artifact@ == argv@[1]@ && c.function@ == argv@[2]@ && c.args@.len()
            == argv@.len() - 3 && forall|i: int| 0 <= i < c.args@.len() ==> (#[trigger] c.args@[i])@
            == argv@[i + 3]@,
{
    if argv.len() < 3 {
        return None;
    }
    let mut args: Vec<String> = Vec::new();
    let mut i: usize = 3;
    while i < argv.len()
        invariant
            3 <= i <= argv@.len(),
            args@.len() == i - 3,
            forall|j: int| 0 <= j < args@.len() ==> (#[trigger] args@[j])@ == argv@[j + 3]@,
        decreases argv.len() - i,
    {
        args.push(argv[i].clone());
        i = i + 1;
    }
    Some(CommandLine { artifact: argv[1].clone(), function: argv[2].clone(), args })
}

} // verus!
