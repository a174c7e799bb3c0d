//! The terminal setup of the child that runs the shell.
//!
//! After the fork, the child leaves the parent's session, drops its copy of
//! the master side, opens the slave side, gives it the terminal's original
//! settings and window size, and makes it its standard input, output and
//! error. Any failed step is fatal to the child: it never runs the shell on
//! a terminal that was set up in part.
use vstd::prelude::*;

verus! {

/// The descriptor of standard input.
pub const STDIN_FD: i32 = 0;

/// The descriptor of standard output.
pub const STDOUT_FD: i32 = 1;

/// The descriptor of standard error.
pub const STDERR_FD: i32 = 2;

/// A setup step of the child.
#[derive(PartialEq, Eq, Structural, Clone, Copy, Debug)]
pub enum ChildStep {
    /// Start a new session, leaving the parent's controlling terminal.
    NewSession,
    /// Close the child's copy of the master descriptor.
    CloseMaster,
    /// Open the slave device by its name.
    OpenSlave,
    /// Make the slave the controlling terminal, where opening it does not.
    AcquireTerminal,
    /// Give the slave the terminal's original settings, at once.
    ApplyMode,
    /// Give the slave the terminal's window size.
    ApplyWindowSize,
    /// Duplicate the slave descriptor onto the given standard descriptor.
    DupOnto(i32),
    /// Close the slave descriptor, which is none of the standard three.
    CloseSlave,
}

/// The steps that lead up to opening the slave.
pub open spec fn opening_steps() -> Seq<ChildStep> {
    seq![ChildStep::NewSession, ChildStep::CloseMaster, ChildStep::OpenSlave]
}

/// The steps once the slave is open as `slave_fd`.
pub open spec fn attaching_steps(slave_fd: i32, acquire_terminal: bool) -> Seq<ChildStep> {
    (if acquire_terminal {
        seq![ChildStep::AcquireTerminal]
    } else {
        Seq::empty()
    }) + seq![
        ChildStep::ApplyMode,
        ChildStep::ApplyWindowSize,
        ChildStep::DupOnto(STDIN_FD),
        ChildStep::DupOnto(STDOUT_FD),
        ChildStep::DupOnto(STDERR_FD),
    ] + (if slave_fd > STDERR_FD {
        seq![ChildStep::CloseSlave]
    } else {
        Seq::empty()
    })
}

/// The steps that lead up to opening the slave, in order.
pub fn opening_plan() -> (r: Vec<ChildStep>)
    ensures
        r@ == opening_steps(),
{
    let mut r: Vec<ChildStep> = Vec::new();
    r.push(ChildStep::NewSession);
    r.push(ChildStep::CloseMaster);
    r.push(ChildStep::OpenSlave);
    assert(r@ =~= opening_steps());
    r
}

/// The steps once the slave is open as `slave_fd`, in order;
/// `acquire_terminal` says whether the platform needs the slave to be made
/// the controlling terminal by hand. The slave descriptor is closed at the
/// end only where it is none of the standard three, which now refer to it.
pub fn attaching_plan(slave_fd: i32, acquire_terminal: bool) -> (r: Vec<ChildStep>)
    ensures
        r@ == attaching_steps(slave_fd, acquire_terminal),
{
    let mut r: Vec<ChildStep> = Vec::new();
    if acquire_terminal {
        r.push(ChildStep::AcquireTerminal);
    }
    let start: usize = r.len();
    r.push(ChildStep::ApplyMode);
    r.push(ChildStep::ApplyWindowSize);
    r.push(ChildStep::DupOnto(STDIN_FD));
    r.push(ChildStep::DupOnto(STDOUT_FD));
    r.push(ChildStep::DupOnto(STDERR_FD));
    let end: usize = r.len();
    if slave_fd > STDERR_FD {
        r.push(ChildStep::CloseSlave);
    }
    proof {
        let first: Seq<ChildStep> = if acquire_terminal {
            seq![ChildStep::AcquireTerminal]
        } else {
            Seq::empty()
        };
        let middle: Seq<ChildStep> = seq![
            ChildStep::ApplyMode,
            ChildStep::ApplyWindowSize,
            ChildStep::DupOnto(STDIN_FD),
            ChildStep::DupOnto(STDOUT_FD),
            ChildStep::DupOnto(STDERR_FD),
        ];
        let last: Seq<ChildStep> = if slave_fd > STDERR_FD {
            seq![ChildStep::CloseSlave]
        } else {
            Seq::empty()
        };
        assert(r@.subrange(0, start as int) =~= first);
        assert(r@.subrange(start as int, end as int) =~= middle);
        assert(r@.subrange(end as int, r@.len() as int) =~= last);
        assert(r@ =~= first + middle + last);
    }
    r
}

} // verus!
