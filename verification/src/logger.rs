use vstd::prelude::*;
use crate::console::{Console, Event};
use crate::level::{color_for, color_spec, Color, Level};
use crate::render::{render_record, rendered_spec};

verus! {

/// The console events one successful `log` call appends: the severity's
/// color is set, the rendered record lands, and the prior color returns.
pub open spec fn success_trace(prior: Color, level: Level, msg: Seq<char>) -> Seq<Event> {
    seq![
        Event::SetColor(color_spec(level)),
        Event::Text(rendered_spec(level, msg)),
        Event::SetColor(prior),
    ]
}

/// The console events when the write fails: the color is still scoped —
/// set and then restored — but no text lands.
pub open spec fn failure_trace(prior: Color, level: Level) -> Seq<Event> {
    seq![Event::SetColor(color_spec(level)), Event::SetColor(prior)]
}

/// The line the logger puts on the fallback diagnostic channel when the
/// console refuses a write.
pub open spec fn write_failed_note() -> Seq<char> {
    "log: console write failed"@
}

/// The observable effect of one best-effort `log` call on the console:
/// the color always round-trips to its pre-call value, and either the
/// record landed between the color set/restore with the fallback channel
/// untouched, or the write failed and exactly one fallback diagnostic was
/// reported. No error ever reaches the logging caller.
pub open spec fn logged_once<C: Console>(pre: C, post: C, level: Level, msg: Seq<char>) -> bool {
    &&& post.color() == pre.color()
    &&& {
        ||| {
            &&& post.events() == pre.events() + success_trace(pre.color(), level, msg)
            &&& post.diagnostics() == pre.diagnostics()
        }
        ||| {
            &&& post.events() == pre.events() + failure_trace(pre.color(), level)
            &&& post.diagnostics() == pre.diagnostics().push(write_failed_note())
        }
    }
}

/// The logging backend: renders severity-leveled records to a console sink.
/// It holds no state of its own; a value of this type is the capability to
/// emit records, handed out once by [`Registration::install`].
pub struct Logger {
    _one_shot: (),
}

/// The process-wide logger slot: empty at boot, filled exactly once. A
/// second installation is not a supported transition, so `install` refuses
/// it outright.
pub struct Registration {
    installed: bool,
}

impl Registration {
    /// Whether the one logger has already been installed.
    pub closed spec fn is_installed(&self) -> bool {
        self.installed
    }

    /// Reads back whether the one logger has been installed, so that an
    /// unverified caller can test the slot before installing.
    pub fn installed(&self) -> (b: bool)
        ensures
            b == self.is_installed(),
    {
        self.installed
    }

    /// The empty slot that exists before boot configures logging.
    pub fn new() -> (slot: Registration)
        ensures
            !slot.is_installed(),
    {
        Registration { installed: false }
    }

    /// Installs the one logger and hands out the capability to log.
    /// One-shot: the slot can never be emptied or refilled.
    pub fn install(&mut self) -> (logger: Logger)
        requires
            !old(self).is_installed(),
        ensures
            final(self).is_installed(),
    {
        self.installed = true;
        Logger { _one_shot: () }
    }
}

impl Logger {
    /// Whether records at `level` are rendered at all. This design filters
    /// nothing; the method is the extension point for a future policy.
    pub fn is_enabled(&self, level: Level) -> (enabled: bool)
        ensures
            enabled,
    {
        true
    }

    /// Renders one record to the console, best effort: the severity's color
    /// is scoped around the write on every path, and a refused write is
    /// redirected to the fallback diagnostic channel instead of the caller.
    pub fn log<C: Console>(&self, con: &mut C, level: Level, msg: &str)
        ensures
            logged_once(*old(con), *final(con), level, msg@),
    {
        if !self.is_enabled(level) {
            return;
        }
        let prior = con.current_color();
        let line = render_record(level, msg);
        con.set_color(color_for(level));
        let written = con.write_text(line.as_str());
        con.set_color(prior);
        match written {
            Ok(_) => {
                proof {
                    assert(con.events() =~= old(con).events() + success_trace(
                        old(con).color(),
                        level,
                        msg@,
                    ));
                }
            },
            Err(_) => {
                con.report("log: console write failed");
                proof {
                    assert(con.events() =~= old(con).events() + failure_trace(
                        old(con).color(),
                        level,
                    ));
                }
            },
        }
    }

    /// Completes any buffered output. Writes are synchronous, so there is
    /// nothing to flush; the call exists, cannot fail, and leaves the
    /// console exactly as it found it.
    pub fn flush<C: Console>(&self, con: &mut C)
        ensures
            *final(con) == *old(con),
    {
    }
}

} // verus!
