use vstd::prelude::*;

verus! {

/// What a signal asks of the program.
#[derive(Clone, Copy, Debug, PartialEq, Eq, Structural)]
pub enum ControlSignal {
    /// Turn binding mode on or off (`SIGUSR1`).
    ToggleBinding,
    /// Stop the program (any other signal listened to).
    Terminate,
}

/// Whether the program runs and whether binding mode is on. In binding
/// mode only the stick axis that moves the most is sent, which makes it
/// easy to bind one axis at a time in a game.
#[derive(Clone, Copy, Debug, PartialEq, Eq, Structural)]
pub struct RunFlags {
    pub running: bool,
    pub binding: bool,
}

/// The flags after a signal, and whether to keep listening for signals.
pub open spec fn signal_outcome(flags: RunFlags, signal: ControlSignal) -> (RunFlags, bool) {
    match signal {
        ControlSignal::ToggleBinding => (RunFlags { binding: !flags.binding, ..flags }, true),
        ControlSignal::Terminate => (RunFlags { running: false, ..flags }, false),
    }
}

/// Handles a signal: a toggle flips binding mode and listening goes on; any
/// other signal stops the program and ends the listening.
pub fn on_signal(flags: RunFlags, signal: ControlSignal) -> (r: (RunFlags, bool))
    ensures
        r == signal_outcome(flags, signal),
{
    match signal {
        ControlSignal::ToggleBinding => (RunFlags { running: flags.running, binding: !flags.binding }, true),
        ControlSignal::Terminate => (RunFlags { running: false, binding: flags.binding }, false),
    }
}

/// Toggling binding mode twice leaves it as it was, and toggling never
/// stops the program.
pub proof fn lemma_toggle_twice(flags: RunFlags)
    ensures
        signal_outcome(signal_outcome(flags, ControlSignal::ToggleBinding).0, ControlSignal::ToggleBinding).0 == flags,
        signal_outcome(flags, ControlSignal::ToggleBinding).0.running == flags.running,
{
}

/// The flags after the listener handles `signals` in turn; it stops at the
/// first signal that ends the listening.
pub open spec fn after_signals(flags: RunFlags, signals: Seq<ControlSignal>) -> RunFlags
    decreases signals.len(),
{
    if signals.len() == 0 {
        flags
    } else {
        let (next, keep_listening) = signal_outcome(flags, signals[0]);
        if keep_listening {
            after_signals(next, signals.drop_first())
        } else {
            next
        }
    }
}

/// After any number of toggles, binding mode is flipped exactly when that
/// number is odd, and the program still runs as before.
pub proof fn lemma_toggle_parity(flags: RunFlags, signals: Seq<ControlSignal>)
    requires
        forall|i: int| 0 <= i < signals.len() ==> #[trigger] signals[i] == ControlSignal::ToggleBinding,
    ensures
        after_signals(flags, signals).binding == (flags.binding != (signals.len() % 2 == 1)),
        after_signals(flags, signals).running == flags.running,
    decreases signals.len(),
{
    if signals.len() > 0 {
        let rest = signals.drop_first();
        assert(signals[0] == ControlSignal::ToggleBinding);
        assert forall|i: int| 0 <= i < rest.len() implies #[trigger] rest[i]
            == ControlSignal::ToggleBinding by {
            assert(rest[i] == signals[i + 1]);
        }
        lemma_toggle_parity(signal_outcome(flags, signals[0]).0, rest);
    }
}

/// Once a terminating signal arrives the program no longer runs, whatever
/// came before or after it.
pub proof fn lemma_terminate_stops(flags: RunFlags, signals: Seq<ControlSignal>)
    requires
        signals.contains(ControlSignal::Terminate),
    ensures
        !after_signals(flags, signals).running,
    decreases signals.len(),
{
    if signals[0] != ControlSignal::Terminate {
        let rest = signals.drop_first();
        let j = choose|j: int| 0 <= j < signals.len() && signals[j] == ControlSignal::Terminate;
        assert(rest[j - 1] == ControlSignal::Terminate);
        lemma_terminate_stops(signal_outcome(flags, signals[0]).0, rest);
    }
}

} // verus!
