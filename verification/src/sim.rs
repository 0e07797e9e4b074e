use vstd::prelude::*;
use vstd::string::StringExecFns;
use crate::console::{Console, Event, Timer, WriteError};
use crate::level::Color;

verus! {

/// One recorded console action, as plain data mirroring [`Event`].
#[derive(PartialEq, Eq, Debug)]
pub enum EventRec {
    SetColor(Color),
    Text(String),
}

impl View for EventRec {
    type V = Event;

    open spec fn view(&self) -> Event {
        match self {
            EventRec::SetColor(c) => Event::SetColor(*c),
            EventRec::Text(s) => Event::Text(s@),
        }
    }
}

/// An in-memory console: it records every action instead of touching a
/// device, and can be told to refuse writes, so that the logger's failure
/// path can be driven and observed. This is the sink a memory-buffer
/// logger or a test runs against.
pub struct BufferConsole {
    current: Color,
    actions: Vec<EventRec>,
    reports: Vec<String>,
    refuse_writes: Option<WriteError>,
}

impl BufferConsole {
    /// A console at rest: `LightGray` foreground, empty transcript, writes
    /// accepted.
    pub fn new() -> (con: BufferConsole)
        ensures
            con.color() == Color::LightGray,
            con.events() == Seq::<Event>::empty(),
            con.diagnostics() == Seq::<Seq<char>>::empty(),
    {
        BufferConsole {
            current: Color::LightGray,
            actions: Vec::new(),
            reports: Vec::new(),
            refuse_writes: None,
        }
    }

    /// A console whose device refuses every write with `err`; color changes
    /// still take effect.
    pub fn refusing(err: WriteError) -> (con: BufferConsole)
        ensures
            con.color() == Color::LightGray,
            con.events() == Seq::<Event>::empty(),
            con.diagnostics() == Seq::<Seq<char>>::empty(),
    {
        BufferConsole {
            current: Color::LightGray,
            actions: Vec::new(),
            reports: Vec::new(),
            refuse_writes: Some(err),
        }
    }

    /// The recorded actions, for inspection after a run.
    pub fn actions(&self) -> (v: &Vec<EventRec>)
        ensures
            v@.map_values(|e: EventRec| e@) == self.events(),
    {
        &self.actions
    }

    /// The fallback diagnostics, for inspection after a run.
    pub fn reports(&self) -> (v: &Vec<String>)
        ensures
            v.deep_view() == self.diagnostics(),
    {
        &self.reports
    }
}

impl Console for BufferConsole {
    closed spec fn color(&self) -> Color {
        self.current
    }

    closed spec fn events(&self) -> Seq<Event> {
        self.actions@.map_values(|e: EventRec| e@)
    }

    closed spec fn diagnostics(&self) -> Seq<Seq<char>> {
        self.reports.deep_view()
    }

    fn current_color(&self) -> (c: Color) {
        self.current
    }

    fn set_color(&mut self, c: Color) {
        self.current = c;
        self.actions.push(EventRec::SetColor(c));
        proof {
            assert(self.events() =~= old(self).events().push(Event::SetColor(c)));
        }
    }

    fn write_text(&mut self, s: &str) -> (r: Result<(), WriteError>) {
        match self.refuse_writes {
            Some(err) => Err(err),
            None => {
                self.actions.push(EventRec::Text(String::from_str(s)));
                proof {
                    assert(self.events() =~= old(self).events().push(Event::Text(s@)));
                }
                Ok(())
            },
        }
    }

    fn report(&mut self, s: &str) {
        self.reports.push(String::from_str(s));
        proof {
            assert(self.diagnostics() =~= old(self).diagnostics().push(s@));
        }
    }
}

/// An in-memory timing service: it records each requested stall instead of
/// blocking, so a run's pauses can be checked afterwards.
pub struct RecordingTimer {
    requested: Vec<u64>,
}

impl RecordingTimer {
    /// A timer that has not stalled yet.
    pub fn new() -> (t: RecordingTimer)
        ensures
            t.stalls() == Seq::<u64>::empty(),
    {
        RecordingTimer { requested: Vec::new() }
    }

    /// The stalls requested so far, for inspection after a run.
    pub fn requested(&self) -> (v: &Vec<u64>)
        ensures
            v@ == self.stalls(),
    {
        &self.requested
    }
}

impl Timer for RecordingTimer {
    closed spec fn stalls(&self) -> Seq<u64> {
        self.requested@
    }

    fn stall(&mut self, micros: u64) {
        self.requested.push(micros);
    }
}

} // verus!
