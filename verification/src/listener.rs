//! How a listening socket that shares its port is brought up.
//!
//! Several listeners, in different threads or processes, bind one address so
//! that the kernel spreads incoming connections over them. That only works if
//! every one of them asks for address reuse (and for port reuse where the
//! platform has it) before it binds. This module holds the order of the
//! operations and the decision taken after each of them; the caller owns the
//! socket and performs the operations.
//!
//! A failure to create, bind, listen or register is an ordinary I/O error and
//! is handed back. A platform that refuses a reuse option cannot run the
//! service at all: that ends the process with a diagnostic and never shows up
//! as an I/O error.

use vstd::prelude::*;

verus! {

/// Backlog handed to `listen`: the largest value there is, which the platform
/// cuts down to its own maximum.
pub const LISTEN_BACKLOG: i32 = i32::MAX;

/// The reuse options that the platform offers.
#[derive(Clone, Copy, Debug, PartialEq, Eq, Structural)]
pub enum ReuseSupport {
    /// Address reuse only; the platform has no separate port reuse.
    AddressOnly,
    /// Address reuse and port reuse.
    AddressAndPort,
}

/// One operation on the socket.
#[derive(Clone, Copy, Debug, PartialEq, Eq, Structural)]
pub enum Step {
    /// Create the builder of an IPv4 socket.
    CreateBuilder,
    /// Switch address reuse on.
    ReuseAddress,
    /// Switch port reuse on.
    ReusePort,
    /// Bind the address.
    Bind,
    /// Start listening, with [`LISTEN_BACKLOG`].
    Listen,
    /// Hand the listening socket to the reactor of the current event loop.
    Register,
}

/// A reuse option that the platform turned out not to have.
#[derive(Clone, Copy, Debug, PartialEq, Eq, Structural)]
pub enum MissingOption {
    /// Address reuse, `SO_REUSEADDR`.
    ReuseAddress,
    /// Port reuse, `SO_REUSEPORT`.
    ReusePort,
}

/// What to do once a step has returned.
#[derive(Clone, Copy, Debug, PartialEq, Eq, Structural)]
pub enum Action {
    /// Perform this step next.
    Run(Step),
    /// Give up and return the I/O error of the step that failed.
    ReturnError,
    /// End the process with the diagnostic of this missing option.
    Abort(MissingOption),
    /// The listener is ready.
    Finish,
}

/// The steps of a construction in which nothing fails, in order.
pub open spec fn plan(support: ReuseSupport) -> Seq<Step> {
    match support {
        ReuseSupport::AddressOnly => seq![
            Step::CreateBuilder,
            Step::ReuseAddress,
            Step::Bind,
            Step::Listen,
            Step::Register,
        ],
        ReuseSupport::AddressAndPort => seq![
            Step::CreateBuilder,
            Step::ReuseAddress,
            Step::ReusePort,
            Step::Bind,
            Step::Listen,
            Step::Register,
        ],
    }
}

/// The reuse option that `step` asks the platform for, if it asks for one.
pub open spec fn option_of(step: Step) -> Option<MissingOption> {
    match step {
        Step::ReuseAddress => Some(MissingOption::ReuseAddress),
        Step::ReusePort => Some(MissingOption::ReusePort),
        _ => None,
    }
}

/// The step that follows `step` when it succeeded, `None` after the last one.
pub open spec fn successor(support: ReuseSupport, step: Step) -> Option<Step> {
    match step {
        Step::CreateBuilder => Some(Step::ReuseAddress),
        Step::ReuseAddress => match support {
            ReuseSupport::AddressOnly => Some(Step::Bind),
            ReuseSupport::AddressAndPort => Some(Step::ReusePort),
        },
        Step::ReusePort => Some(Step::Bind),
        Step::Bind => Some(Step::Listen),
        Step::Listen => Some(Step::Register),
        Step::Register => None,
    }
}

/// The decision after `step` has returned, `succeeded` telling how.
pub open spec fn action_after(support: ReuseSupport, step: Step, succeeded: bool) -> Action {
    if succeeded {
        match successor(support, step) {
            Some(next) => Action::Run(next),
            None => Action::Finish,
        }
    } else {
        match option_of(step) {
            Some(missing) => Action::Abort(missing),
            None => Action::ReturnError,
        }
    }
}

/// The step with which every construction starts.
pub fn first_step() -> (step: Step)
    ensures
        step == Step::CreateBuilder,
{
    Step::CreateBuilder
}

/// Decides what follows `step`, which has just returned: the next step or the
/// end where it succeeded, the way of giving up where it failed.
pub fn next_action(support: ReuseSupport, step: Step, succeeded: bool) -> (action: Action)
    ensures
        action == action_after(support, step, succeeded),
{
    match step {
        Step::CreateBuilder => if succeeded {
            Action::Run(Step::ReuseAddress)
        } else {
            Action::ReturnError
        },
        Step::ReuseAddress => if !succeeded {
            Action::Abort(MissingOption::ReuseAddress)
        } else {
            match support {
                ReuseSupport::AddressOnly => Action::Run(Step::Bind),
                ReuseSupport::AddressAndPort => Action::Run(Step::ReusePort),
            }
        },
        Step::ReusePort => if succeeded {
            Action::Run(Step::Bind)
        } else {
            Action::Abort(MissingOption::ReusePort)
        },
        Step::Bind => if succeeded {
            Action::Run(Step::Listen)
        } else {
            Action::ReturnError
        },
        Step::Listen => if succeeded {
            Action::Run(Step::Register)
        } else {
            Action::ReturnError
        },
        Step::Register => if succeeded {
            Action::Finish
        } else {
            Action::ReturnError
        },
    }
}

impl MissingOption {
    /// The text of the diagnostic.
    pub open spec fn text(self) -> Seq<char> {
        match self {
            MissingOption::ReuseAddress => "os not support SO_REUSEADDR"@,
            MissingOption::ReusePort => "os not support SO_REUSEPORT"@,
        }
    }

    /// The diagnostic with which the process ends.
    pub fn diagnostic(self) -> (message: &'static str)
        ensures
            message@ == self.text(),
    {
        match self {
            MissingOption::ReuseAddress => "os not support SO_REUSEADDR",
            MissingOption::ReusePort => "os not support SO_REUSEPORT",
        }
    }
}

/// A construction in which every step succeeds runs the steps of the plan, in
/// the order of the plan, and is finished after the last of them.
pub proof fn success_follows_plan(support: ReuseSupport)
    ensures
        plan(support)[0] == Step::CreateBuilder,
        forall|i: int|
            0 <= i < plan(support).len() - 1 ==> action_after(
                support,
                #[trigger] plan(support)[i],
                true,
            ) == Action::Run(plan(support)[i + 1]),
        action_after(support, plan(support).last(), true) == Action::Finish,
{
}

/// Port reuse is asked for exactly where the platform has it.
pub proof fn port_reuse_only_where_supported(support: ReuseSupport)
    ensures
        plan(support).contains(Step::ReusePort) <==> support == ReuseSupport::AddressAndPort,
        plan(support).contains(Step::ReuseAddress),
{
    match support {
        ReuseSupport::AddressOnly => {
            assert(plan(support)[1] == Step::ReuseAddress);
        },
        ReuseSupport::AddressAndPort => {
            assert(plan(support)[1] == Step::ReuseAddress);
            assert(plan(support)[2] == Step::ReusePort);
        },
    }
}

/// A failed step never lets the construction go on. A missing reuse option
/// ends the process and is never reported as an I/O error; the failure of any
/// other step is reported as an I/O error and never ends the process.
pub proof fn failure_policy(support: ReuseSupport, step: Step)
    ensures
        action_after(support, step, false) == Action::Abort(MissingOption::ReuseAddress)
            <==> step == Step::ReuseAddress,
        action_after(support, step, false) == Action::Abort(MissingOption::ReusePort)
            <==> step == Step::ReusePort,
        action_after(support, step, false) == Action::ReturnError <==> (step == Step::CreateBuilder
            || step == Step::Bind || step == Step::Listen || step == Step::Register),
        !(action_after(support, step, false) is Run),
        !(action_after(support, step, false) is Finish),
{
}

} // verus!
