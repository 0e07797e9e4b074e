use vstd::prelude::*;
use crate::level::Color;

verus! {

/// Why the console refused a write. The concrete cause is owned by the
/// firmware; the logger only needs to know that the text did not land.
#[derive(Clone, Copy, PartialEq, Eq, Structural, Debug)]
pub enum WriteError {
    /// The output device reported a hardware fault.
    DeviceError,
    /// The output device cannot render the requested text.
    Unsupported,
}

/// One observable action on the main console, in the order it happened.
/// `Text` carries exactly the characters that landed.
pub enum Event {
    SetColor(Color),
    Text(Seq<char>),
}

/// The firmware text console, as the logger sees it: a current foreground
/// color that persists until explicitly changed, a transcript of everything
/// done to the main output, and a separate fallback diagnostic channel.
///
/// Changing the color is modeled as always taking effect; only text output
/// can fail. The fallback channel never touches the main console state, so
/// reporting a failure can never recurse into the logger.
pub trait Console: Sized {
    /// The foreground color the console currently holds. The default is a
    /// placeholder no useful implementation can keep: the method contracts
    /// below are not satisfiable over constant views.
    open spec fn color(&self) -> Color {
        Color::LightGray
    }

    /// Everything done to the main output so far, in order.
    open spec fn events(&self) -> Seq<Event> {
        Seq::<Event>::empty()
    }

    /// The lines reported on the fallback diagnostic channel, in order.
    open spec fn diagnostics(&self) -> Seq<Seq<char>> {
        Seq::<Seq<char>>::empty()
    }

    /// Reads back the current foreground color.
    fn current_color(&self) -> (c: Color)
        ensures
            c == self.color(),
    ;

    /// Changes the foreground color; it persists until changed again.
    fn set_color(&mut self, c: Color)
        ensures
            final(self).color() == c,
            final(self).events() == old(self).events().push(Event::SetColor(c)),
            final(self).diagnostics() == old(self).diagnostics(),
    ;

    /// Writes `s` to the main output. A write either lands whole or, on
    /// failure, leaves the transcript untouched; the color is unaffected
    /// either way.
    fn write_text(&mut self, s: &str) -> (r: Result<(), WriteError>)
        ensures
            final(self).color() == old(self).color(),
            final(self).diagnostics() == old(self).diagnostics(),
            r is Ok ==> final(self).events() == old(self).events().push(Event::Text(s@)),
            r is Err ==> final(self).events() == old(self).events(),
    ;

    /// Reports `s` on the fallback diagnostic channel. Delivery is modeled
    /// as always recording the report; the main console state is untouched.
    fn report(&mut self, s: &str)
        ensures
            final(self).color() == old(self).color(),
            final(self).events() == old(self).events(),
            final(self).diagnostics() == old(self).diagnostics().push(s@),
    ;
}

/// The firmware timing service: a blocking, uncancellable delay with no
/// failure mode. The view records every stall requested, in order, so that
/// a caller's contract can pin down exactly how long it paused.
pub trait Timer: Sized {
    /// The stalls performed so far, in microseconds each, in order. The
    /// default is a placeholder: `stall`'s contract cannot hold over it.
    open spec fn stalls(&self) -> Seq<u64> {
        Seq::<u64>::empty()
    }

    /// Blocks for `micros` microseconds, then returns.
    fn stall(&mut self, micros: u64)
        ensures
            final(self).stalls() == old(self).stalls().push(micros),
    ;
}

} // verus!
