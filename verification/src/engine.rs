//! The two-phase read transaction, as a step machine.
//!
//! The device pipelines reads: the bits clocked back during one bus
//! transfer belong to the register requested by the *previous* transfer. A
//! register read is therefore two transactions, each framed by chip-select:
//! a command phase that sends the encoded command and discards what comes
//! back, and a data phase that sends an all-zero frame and captures the
//! response. The machine below fixes the order of the six steps and what
//! happens when one of them fails: the transaction aborts at once, and no
//! later step is attempted. In particular, a failure raised while
//! chip-select is asserted leaves the line asserted: the abort does not
//! drive it back to its inactive level.

use vstd::prelude::*;

verus! {

/// A failure during a register-read transaction: either the bus transfer
/// failed, or driving the chip-select line did. Each variant carries the
/// originating low-level cause.
#[derive(Debug)]
pub enum Error<B, C> {
    /// A bus transfer failed.
    Spi(B),
    /// Driving the chip-select line failed.
    ChipSelect(C),
}

/// Where a transaction stands: each phase is one pending hardware step.
#[derive(Copy, Clone, Debug)]
pub enum Phase {
    /// Assert chip-select for the command phase.
    CmdAssert,
    /// Transfer the encoded command frame.
    CmdTransfer,
    /// Release chip-select after the command phase.
    CmdRelease,
    /// Assert chip-select for the data phase.
    DataAssert,
    /// Transfer the all-zero frame that clocks the response back.
    DataTransfer,
    /// Release chip-select after the data phase.
    DataRelease,
}

/// The hardware step a phase asks for.
#[derive(Copy, Clone, Debug)]
pub enum Action {
    /// Drive chip-select to its active level.
    AssertCs,
    /// Drive chip-select back to its inactive level.
    ReleaseCs,
    /// Transfer the command frame over the bus.
    TransferCommand,
    /// Transfer the all-zero frame over the bus.
    TransferNop,
}

/// How a phase's hardware step went.
pub enum Event<B, C> {
    /// The chip-select operation succeeded.
    CsOk,
    /// The chip-select operation failed.
    CsErr(C),
    /// The bus transfer succeeded.
    TransferOk,
    /// The bus transfer failed.
    TransferErr(B),
}

/// What the transaction does after a phase's event: go on to the next
/// phase, finish, or abort. `Done` and `Failed` are terminal: a runner
/// performs no further hardware step after either.
pub enum Step<B, C> {
    /// Move on to the given phase.
    Continue(Phase),
    /// The transaction is complete; the data-phase transfer buffer holds
    /// the response frame.
    Done,
    /// The transaction aborted with the given error.
    Failed(Error<B, C>),
}

/// The hardware step each phase asks for.
pub open spec fn phase_action_spec(p: Phase) -> Action {
    match p {
        Phase::CmdAssert => Action::AssertCs,
        Phase::CmdTransfer => Action::TransferCommand,
        Phase::CmdRelease => Action::ReleaseCs,
        Phase::DataAssert => Action::AssertCs,
        Phase::DataTransfer => Action::TransferNop,
        Phase::DataRelease => Action::ReleaseCs,
    }
}

/// Phases left after `p`, counting `p` itself; strictly decreasing along
/// the transaction, so a runner terminates.
pub open spec fn rank(p: Phase) -> int {
    match p {
        Phase::CmdAssert => 5,
        Phase::CmdTransfer => 4,
        Phase::CmdRelease => 3,
        Phase::DataAssert => 2,
        Phase::DataTransfer => 1,
        Phase::DataRelease => 0,
    }
}

/// Whether an action is a bus transfer.
pub open spec fn is_transfer(a: Action) -> bool {
    a is TransferCommand || a is TransferNop
}

/// How many bus transfers a transaction has attempted strictly before
/// reaching phase `p`.
pub open spec fn transfers_before(p: Phase) -> int {
    match p {
        Phase::CmdAssert => 0,
        Phase::CmdTransfer => 0,
        Phase::CmdRelease => 1,
        Phase::DataAssert => 1,
        Phase::DataTransfer => 1,
        Phase::DataRelease => 2,
    }
}

/// The step the transaction takes when phase `p`'s hardware step reports
/// event `e`: any failure aborts at once with the failing step's cause;
/// success moves to the next phase in order, and completes the transaction
/// after the final chip-select release.
pub open spec fn advance_spec<B, C>(p: Phase, e: Event<B, C>) -> Step<B, C> {
    match e {
        Event::CsErr(c) => Step::Failed(Error::ChipSelect(c)),
        Event::TransferErr(b) => Step::Failed(Error::Spi(b)),
        Event::CsOk | Event::TransferOk => match p {
            Phase::CmdAssert => Step::Continue(Phase::CmdTransfer),
            Phase::CmdTransfer => Step::Continue(Phase::CmdRelease),
            Phase::CmdRelease => Step::Continue(Phase::DataAssert),
            Phase::DataAssert => Step::Continue(Phase::DataTransfer),
            Phase::DataTransfer => Step::Continue(Phase::DataRelease),
            Phase::DataRelease => Step::Done,
        },
    }
}

/// The hardware step to perform in phase `p`.
pub fn phase_action(p: Phase) -> (a: Action)
    ensures
        a == phase_action_spec(p),
{
    match p {
        Phase::CmdAssert => Action::AssertCs,
        Phase::CmdTransfer => Action::TransferCommand,
        Phase::CmdRelease => Action::ReleaseCs,
        Phase::DataAssert => Action::AssertCs,
        Phase::DataTransfer => Action::TransferNop,
        Phase::DataRelease => Action::ReleaseCs,
    }
}

/// Take one step of the transaction after phase `p` reported event `e`.
pub fn advance<B, C>(p: Phase, e: Event<B, C>) -> (r: Step<B, C>)
    ensures
        r == advance_spec(p, e),
        r matches Step::Continue(q) ==> rank(q) < rank(p),
        e matches Event::CsErr(c) ==> r matches Step::Failed(err) && err == Error::<B, C>::ChipSelect(c),
        e matches Event::TransferErr(b) ==> r matches Step::Failed(err) && err == Error::<B, C>::Spi(b),
{
    match e {
        Event::CsErr(c) => Step::Failed(Error::ChipSelect(c)),
        Event::TransferErr(b) => Step::Failed(Error::Spi(b)),
        Event::CsOk | Event::TransferOk => match p {
            Phase::CmdAssert => Step::Continue(Phase::CmdTransfer),
            Phase::CmdTransfer => Step::Continue(Phase::CmdRelease),
            Phase::CmdRelease => Step::Continue(Phase::DataAssert),
            Phase::DataAssert => Step::Continue(Phase::DataTransfer),
            Phase::DataTransfer => Step::Continue(Phase::DataRelease),
            Phase::DataRelease => Step::Done,
        },
    }
}

/// A chip-select failure aborts the transaction at once with a chip-select
/// error carrying the pin's cause. `Failed` is terminal, so no further
/// hardware step follows; when the very first select fails, no bus
/// transfer was attempted at all, since the failing step itself is not a
/// transfer and none came before it.
pub proof fn lemma_select_failure_aborts<B, C>(p: Phase, c: C)
    ensures
        advance_spec::<B, C>(p, Event::CsErr(c)) == Step::<B, C>::Failed(Error::<B, C>::ChipSelect(c)),
        p is CmdAssert ==> transfers_before(p) == 0 && !is_transfer(phase_action_spec(p)),
{
}

/// A failure of the command-phase bus transfer aborts the transaction at
/// once with a bus error carrying the bus's cause. `Failed` is terminal,
/// and the command transfer is the transaction's first: the data-phase
/// transfer, which only a run of successes reaches, is never attempted.
pub proof fn lemma_command_transfer_failure_aborts<B, C>(b: B)
    ensures
        advance_spec::<B, C>(Phase::CmdTransfer, Event::TransferErr(b)) == Step::<B, C>::Failed(Error::<B, C>::Spi(b)),
        transfers_before(Phase::CmdTransfer) == 0,
        transfers_before(Phase::DataTransfer) == 1,
        forall|p: Phase, e: Event<B, C>|
            #[trigger] advance_spec(p, e) == Step::<B, C>::Continue(Phase::DataTransfer)
                ==> p is DataAssert && (e is CsOk || e is TransferOk),
{
}

/// A transaction step fails exactly when its hardware step reported a
/// failure: success events never abort, and failure events always do.
pub proof fn lemma_failure_attribution<B, C>(p: Phase, e: Event<B, C>)
    ensures
        advance_spec(p, e) is Failed <==> (e is CsErr || e is TransferErr),
{
}

} // verus!
