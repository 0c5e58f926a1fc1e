use vstd::prelude::*;

use crate::key::{Event, Key};

verus! {

/// The fixed settings of an event source.
#[derive(Clone, Copy, Debug, PartialEq, Eq, Structural)]
pub struct Config {
    /// Carried for the consumer; the source forwards every input unfiltered.
    pub exit_key: Key,
    /// Milliseconds between two ticks.
    pub tick_rate_ms: u64,
}

impl Config {
    /// The settings for a tick every `tick_delay_ms` milliseconds. The exit
    /// key here is the placeholder `Null`: the render loop, not the source,
    /// decides which key ends a session.
    pub fn from_tick_delay(tick_delay_ms: u64) -> (r: Config)
        ensures
            r.exit_key == Key::Null,
            r.tick_rate_ms == tick_delay_ms,
    {
        Config { exit_key: Key::Null, tick_rate_ms: tick_delay_ms }
    }
}

/// What one look at the terminal's input channel found.
#[derive(Clone, Copy, Debug, PartialEq, Eq, Structural)]
pub enum InputStatus {
    /// A key or mouse action was read.
    Ready(Key),
    /// Nothing was waiting.
    Empty,
    /// Reading failed this time; the channel may still deliver later.
    ReadError,
    /// The channel is closed for good.
    Closed,
}

/// The outcome of one resolution window at the merge point.
#[derive(Clone, Copy, Debug, PartialEq, Eq, Structural)]
pub enum Resolution {
    /// `next()` yields this event.
    Deliver(Event),
    /// `next()` yields the end of the stream.
    EndOfStream,
    /// Nothing is ready yet: keep waiting.
    Pending,
}

/// The merge rule: a read input wins over a due tick, a closed channel ends
/// the stream, and a failed read counts as no input.
pub open spec fn merged(input: InputStatus, tick_due: bool) -> Resolution {
    match input {
        InputStatus::Ready(k) => Resolution::Deliver(Event::Input(k)),
        InputStatus::Closed => Resolution::EndOfStream,
        InputStatus::Empty | InputStatus::ReadError => if tick_due {
            Resolution::Deliver(Event::Tick)
        } else {
            Resolution::Pending
        },
    }
}

/// Resolves one window in which `input` was found and a tick was or was not due.
pub fn merge(input: InputStatus, tick_due: bool) -> (r: Resolution)
    ensures
        r == merged(input, tick_due),
{
    match input {
        InputStatus::Ready(k) => Resolution::Deliver(Event::Input(k)),
        InputStatus::Closed => Resolution::EndOfStream,
        InputStatus::Empty | InputStatus::ReadError => {
            if tick_due {
                Resolution::Deliver(Event::Tick)
            } else {
                Resolution::Pending
            }
        },
    }
}

/// When an input and a tick are ready in the same window, the input is what
/// `next()` yields.
pub proof fn lemma_input_before_tick(k: Key)
    ensures
        merged(InputStatus::Ready(k), true) == Resolution::Deliver(Event::Input(k)),
        merged(InputStatus::Ready(k), true) != Resolution::Deliver(Event::Tick),
{
}

/// A failed read is never fatal: it resolves as if nothing had been read.
pub proof fn lemma_read_error_is_no_input(tick_due: bool)
    ensures
        merged(InputStatus::ReadError, tick_due) == merged(InputStatus::Empty, tick_due),
        merged(InputStatus::ReadError, tick_due) != Resolution::EndOfStream,
{
}

/// Merges terminal input with a periodic tick into one stream of events.
pub struct EventSource {
    pub config: Config,
    /// The time, in milliseconds, of the last tick or of the start.
    pub last_tick_ms: u64,
}

impl EventSource {
    /// Whether a tick is due at `now_ms`.
    pub open spec fn due_at(&self, now_ms: u64) -> bool {
        now_ms as int >= self.last_tick_ms as int + self.config.tick_rate_ms as int
    }

    /// A source started at `now_ms`: its first tick comes one interval later.
    pub fn with_config(config: Config, now_ms: u64) -> (r: EventSource)
        ensures
            r.config == config,
            r.last_tick_ms == now_ms,
    {
        EventSource { config, last_tick_ms: now_ms }
    }

    /// Whether a tick is due at `now_ms`.
    pub fn tick_due(&self, now_ms: u64) -> (r: bool)
        ensures
            r == self.due_at(now_ms),
    {
        now_ms >= self.last_tick_ms && now_ms - self.last_tick_ms >= self.config.tick_rate_ms
    }

    /// Milliseconds from `now_ms` until the next tick is due, if it is not yet.
    pub open spec fn until_due(&self, now_ms: u64) -> int {
        self.last_tick_ms as int + self.config.tick_rate_ms as int - now_ms as int
    }

    /// How long to wait for input from `now_ms` before the next tick is due
    /// (as long as a `u64` allows).
    pub fn wait_ms(&self, now_ms: u64) -> (r: u64)
        ensures
            self.due_at(now_ms) ==> r == 0,
            !self.due_at(now_ms) && self.until_due(now_ms) <= u64::MAX ==> r as int
                == self.until_due(now_ms),
            !self.due_at(now_ms) && self.until_due(now_ms) > u64::MAX ==> r == u64::MAX,
    {
        if self.tick_due(now_ms) {
            0
        } else if now_ms >= self.last_tick_ms {
            self.config.tick_rate_ms - (now_ms - self.last_tick_ms)
        } else {
            assert(self.last_tick_ms - now_ms <= self.last_tick_ms);
            if self.config.tick_rate_ms <= u64::MAX - (self.last_tick_ms - now_ms) {
                self.config.tick_rate_ms + (self.last_tick_ms - now_ms)
            } else {
                u64::MAX
            }
        }
    }

    /// One resolution window at `now_ms`, with what the input channel showed.
    /// A delivered tick restarts the interval.
    pub fn poll(&mut self, now_ms: u64, input: InputStatus) -> (r: Resolution)
        ensures
            r == merged(input, old(self).due_at(now_ms)),
            final(self).config == old(self).config,
            final(self).last_tick_ms == if r == Resolution::Deliver(Event::Tick) {
                now_ms
            } else {
                old(self).last_tick_ms
            },
    {
        let due = self.tick_due(now_ms);
        let r = merge(input, due);
        if let Resolution::Deliver(Event::Tick) = r {
            self.last_tick_ms = now_ms;
        }
        r
    }
}

} // verus!
