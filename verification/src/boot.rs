use vstd::prelude::*;
use crate::console::{Console, Timer};
use crate::harness::{run_tests, running_note, TestRegistry};
use crate::level::Level;
use crate::logger::{logged_once, Logger, Registration};

verus! {

/// The status a boot entry hands back to firmware: the one externally
/// observable exit code of the program.
#[derive(Clone, Copy, PartialEq, Eq, Structural, Debug)]
pub enum Status {
    Success,
    Failure,
}

/// How long the application-image entry pauses before returning to
/// firmware, in microseconds.
pub const APP_STALL_MICROS: u64 = 10_000_000;

/// The shared boot prologue: installs the one logger into the empty slot
/// and emits the startup record. Runtime-support initialization precedes
/// this at the firmware edge, before a console sink exists; its failure
/// aborts the process and never reaches this code.
fn prologue<C: Console>(con: &mut C, slot: &mut Registration, banner: &str) -> (logger: Logger)
    requires
        !old(slot).is_installed(),
    ensures
        final(slot).is_installed(),
        logged_once(*old(con), *final(con), Level::Info, banner@),
{
    let logger = slot.install();
    logger.log(con, Level::Info, banner);
    logger
}

/// The diagnostic-image boot entry: installs the logger and emits its
/// greeting. This image never returns control to firmware — after this
/// call the firmware shell idles forever — so the logger is handed back
/// for any records the idle path may still emit.
pub fn boot_entry_diagnostic<C: Console>(con: &mut C, slot: &mut Registration) -> (logger: Logger)
    requires
        !old(slot).is_installed(),
    ensures
        final(slot).is_installed(),
        logged_once(*old(con), *final(con), Level::Info, "hello, world!"@),
{
    prologue(con, slot, "hello, world!")
}

/// The application-image boot entry: installs the logger, emits its
/// greeting, stalls for [`APP_STALL_MICROS`] microseconds, and reports
/// success to firmware. No other status is ever produced on this path.
pub fn boot_entry_application<C: Console, T: Timer>(
    con: &mut C,
    timer: &mut T,
    slot: &mut Registration,
) -> (status: Status)
    requires
        !old(slot).is_installed(),
    ensures
        final(slot).is_installed(),
        logged_once(*old(con), *final(con), Level::Info, "Hello world!"@),
        final(timer).stalls() == old(timer).stalls().push(APP_STALL_MICROS),
        status == Status::Success,
{
    prologue(con, slot, "Hello world!");
    timer.stall(APP_STALL_MICROS);
    Status::Success
}

/// The test-configuration boot entry: after the shared prologue it hands
/// control to the harness instead of the normal tail. Returning at all
/// means every registered procedure returned normally; the harness walked
/// them in registration order and the console's color round-tripped
/// through both the greeting and the announcement.
pub fn boot_entry_test<C: Console, R: TestRegistry>(
    con: &mut C,
    slot: &mut Registration,
    reg: &mut R,
) -> (logger: Logger)
    requires
        !old(slot).is_installed(),
        old(reg).executed() == Seq::<int>::empty(),
    ensures
        final(slot).is_installed(),
        final(reg).count() == old(reg).count(),
        final(reg).executed() == Seq::new(old(reg).count(), |j: int| j),
        final(con).color() == old(con).color(),
        exists|mid: C|
            logged_once(*old(con), mid, Level::Info, "hello, world!"@) && logged_once(
                mid,
                *final(con),
                Level::Info,
                running_note(old(reg).count()),
            ),
{
    let logger = prologue(con, slot, "hello, world!");
    let ghost mid = *con;
    run_tests(&logger, con, reg);
    proof {
        assert(logged_once(*old(con), mid, Level::Info, "hello, world!"@) && logged_once(
            mid,
            *final(con),
            Level::Info,
            running_note(old(reg).count()),
        ));
    }
    logger
}

} // verus!
