use vstd::prelude::*;

use crate::key::{Event, Key};
use crate::session::{
    cooked, enter_ops, entered, lemma_restored_is_cooked, restore_ops, restored, TerminalMode,
};

verus! {

/// The two states of the render loop.
#[derive(Clone, Copy, Debug, PartialEq, Eq, Structural)]
pub enum Phase {
    Running,
    Terminated,
}

/// What the loop must do next.
#[derive(Clone, Copy, Debug, PartialEq, Eq, Structural)]
pub enum Command {
    /// Compose and submit one frame.
    Draw,
    /// Wait for the next event.
    AwaitEvent,
    /// Give the terminal back (the restoring sequence).
    Restore,
    /// The loop is over.
    Stop,
}

/// How the loop answers one event.
#[derive(Clone, Copy, Debug, PartialEq, Eq, Structural)]
pub enum Step {
    /// Keep running: draw again, then wait.
    Redraw,
    /// Restore the terminal and end the loop.
    Quit,
}

/// Whether the loop ends on `ev`: the exit key was pressed, or the event
/// stream ended (`None`).
pub open spec fn quits(exit_key: Key, ev: Option<Event>) -> bool {
    ev is None || ev == Some(Event::Input(exit_key))
}

/// The render loop's state: it draws once, waits for an event, and either
/// draws again or gives the terminal back.
pub struct Driver {
    /// The key that ends the loop.
    pub exit_key: Key,
    pub phase: Phase,
    /// A frame is owed before the next wait.
    pub frame_owed: bool,
    /// The loop has ended and the terminal is still to be given back.
    pub restore_owed: bool,
    /// The terminal's mode as the loop left it.
    pub mode: TerminalMode,
}

impl Driver {
    /// Running, with a frame owed: the state right after the terminal was
    /// taken and cleared.
    pub open spec fn started(exit_key: Key) -> Driver {
        Driver {
            exit_key,
            phase: Phase::Running,
            frame_owed: true,
            restore_owed: false,
            mode: entered(cooked()),
        }
    }

    /// The next thing the loop does in this state.
    pub open spec fn command_spec(self) -> Command {
        if self.phase == Phase::Terminated {
            if self.restore_owed {
                Command::Restore
            } else {
                Command::Stop
            }
        } else if self.frame_owed {
            Command::Draw
        } else {
            Command::AwaitEvent
        }
    }

    /// The state after a frame was submitted.
    pub open spec fn after_draw(self) -> Driver {
        Driver { frame_owed: false, ..self }
    }

    /// The state after `ev` was handed over.
    pub open spec fn after_event(self, ev: Option<Event>) -> Driver {
        if quits(self.exit_key, ev) {
            Driver { phase: Phase::Terminated, restore_owed: true, ..self }
        } else {
            Driver { frame_owed: true, ..self }
        }
    }

    /// The state after the terminal was given back.
    pub open spec fn after_restore(self) -> Driver {
        Driver { restore_owed: false, mode: restored(self.mode), ..self }
    }

    /// The state after a fault: ended, with the terminal given back.
    pub open spec fn after_fault(self) -> Driver {
        Driver { phase: Phase::Terminated, restore_owed: false, mode: restored(self.mode), ..self }
    }

    /// The loop for a session whose exit key is `exit_key`, on a terminal
    /// that the session has just taken from cooked mode.
    pub fn new(exit_key: Key) -> (r: Driver)
        ensures
            r == Driver::started(exit_key),
    {
        let mut mode = TerminalMode::cooked();
        mode.apply_all(&enter_ops());
        Driver { exit_key, phase: Phase::Running, frame_owed: true, restore_owed: false, mode }
    }

    /// The next thing the loop does.
    pub fn next_command(&self) -> (r: Command)
        ensures
            r == self.command_spec(),
    {
        if self.phase == Phase::Terminated {
            if self.restore_owed {
                Command::Restore
            } else {
                Command::Stop
            }
        } else if self.frame_owed {
            Command::Draw
        } else {
            Command::AwaitEvent
        }
    }

    /// Records that the owed frame was submitted.
    pub fn drawn(&mut self)
        requires
            old(self).command_spec() == Command::Draw,
        ensures
            *final(self) == old(self).after_draw(),
    {
        self.frame_owed = false;
    }

    /// Answers the event that the wait produced (`None`: the stream ended).
    /// On `Quit` the loop is over and the terminal is owed back.
    pub fn handle(&mut self, ev: Option<Event>) -> (r: Step)
        requires
            old(self).command_spec() == Command::AwaitEvent,
        ensures
            *final(self) == old(self).after_event(ev),
            r == Step::Quit <==> quits(old(self).exit_key, ev),
    {
        let stop = match ev {
            None => true,
            Some(e) => e.is_key(self.exit_key),
        };
        if stop {
            self.phase = Phase::Terminated;
            self.restore_owed = true;
            Step::Quit
        } else {
            self.frame_owed = true;
            Step::Redraw
        }
    }

    /// Records that the restoring sequence was carried out.
    pub fn terminal_restored(&mut self)
        requires
            old(self).command_spec() == Command::Restore,
        ensures
            *final(self) == old(self).after_restore(),
            final(self).mode == cooked(),
    {
        let ghost before = self.mode;
        self.restore_owed = false;
        self.mode.apply_all(&restore_ops());
        proof {
            lemma_restored_is_cooked(before);
        }
    }

    /// Answers a fault raised while the loop ran (a failed draw): the
    /// terminal is restored before the fault goes on.
    pub fn fault(&mut self)
        ensures
            *final(self) == old(self).after_fault(),
            final(self).mode == cooked(),
    {
        let ghost before = self.mode;
        self.phase = Phase::Terminated;
        self.restore_owed = false;
        self.mode.apply_all(&restore_ops());
        proof {
            lemma_restored_is_cooked(before);
        }
    }
}

/// What the loop does after its first wait, when the waits produce `events`
/// in turn.
pub open spec fn trace_from(exit_key: Key, events: Seq<Option<Event>>) -> Seq<Command>
    decreases events.len(),
{
    if events.len() == 0 {
        seq![]
    } else if quits(exit_key, events[0]) {
        seq![Command::Restore, Command::Stop]
    } else {
        seq![Command::Draw, Command::AwaitEvent] + trace_from(exit_key, events.drop_first())
    }
}

/// What a fresh loop does when its waits produce `events` in turn: a first
/// frame, a wait, then one frame and one wait per event until one ends it.
pub open spec fn trace(exit_key: Key, events: Seq<Option<Event>>) -> Seq<Command> {
    seq![Command::Draw, Command::AwaitEvent] + trace_from(exit_key, events)
}

/// Runs a fresh loop against a scripted stream of events and returns what it
/// did, in order. Events after the one that ends the loop are not read.
pub fn drive(exit_key: Key, events: &Vec<Option<Event>>) -> (log: Vec<Command>)
    ensures
        log@ == trace(exit_key, events@),
{
    let mut d = Driver::new(exit_key);
    let mut log: Vec<Command> = Vec::new();
    log.push(d.next_command());
    d.drawn();
    log.push(d.next_command());
    let mut i: usize = 0;
    assert(events@.skip(0) =~= events@);
    assert(log@ + trace_from(exit_key, events@) =~= trace(exit_key, events@));
    while i < events.len()
        invariant
            0 <= i <= events@.len(),
            d.exit_key == exit_key,
            d.command_spec() == Command::AwaitEvent,
            log@ + trace_from(exit_key, events@.skip(i as int)) == trace(exit_key, events@),
        decreases events@.len() - i,
    {
        let ghost before = log@;
        let ghost tail = events@.skip(i as int);
        assert(tail[0] == events@[i as int]);
        assert(tail.drop_first() =~= events@.skip(i + 1));
        match d.handle(events[i]) {
            Step::Quit => {
                log.push(d.next_command());
                d.terminal_restored();
                log.push(d.next_command());
                assert(log@ =~= before + trace_from(exit_key, tail));
                return log;
            },
            Step::Redraw => {
                log.push(d.next_command());
                d.drawn();
                log.push(d.next_command());
                assert(log@ + trace_from(exit_key, events@.skip(i + 1)) =~= before
                    + trace_from(exit_key, tail));
            },
        }
        i = i + 1;
    }
    assert(events@.skip(i as int) =~= Seq::<Option<Event>>::empty());
    assert(log@ =~= log@ + trace_from(exit_key, events@.skip(i as int)));
    log
}

/// Only the exit key and the end of the stream stop a running loop: a tick
/// or any other key keeps it running.
pub proof fn lemma_only_exit_key_stops(d: Driver, ev: Option<Event>)
    requires
        d.command_spec() == Command::AwaitEvent,
    ensures
        d.after_event(ev).phase == Phase::Terminated <==> quits(d.exit_key, ev),
        ev == Some(Event::Tick) ==> d.after_event(ev).phase == Phase::Running,
        forall|k: Key|
            k != d.exit_key && ev == Some(Event::Input(k)) ==> d.after_event(ev).phase
                == Phase::Running,
{
}

/// Every event that does not end the loop is followed by exactly one frame
/// before the next wait.
pub proof fn lemma_one_draw_per_event(d: Driver, ev: Option<Event>)
    requires
        d.command_spec() == Command::AwaitEvent,
        !quits(d.exit_key, ev),
    ensures
        d.after_event(ev).command_spec() == Command::Draw,
        d.after_event(ev).after_draw().command_spec() == Command::AwaitEvent,
{
}

/// On every way out of a session started from a cooked terminal (the exit
/// key, the end of the stream, a fault) the terminal is given back exactly
/// once and ends as it was before.
pub proof fn lemma_every_exit_restores(d: Driver, ev: Option<Event>)
    requires
        d.command_spec() == Command::AwaitEvent,
        d.mode == entered(cooked()),
        quits(d.exit_key, ev),
    ensures
        d.after_event(ev).command_spec() == Command::Restore,
        d.after_event(ev).after_restore().mode == cooked(),
        d.after_event(ev).after_restore().command_spec() == Command::Stop,
        d.after_fault().mode == cooked(),
        d.after_fault().command_spec() == Command::Stop,
{
    lemma_restored_is_cooked(d.mode);
}

} // verus!
