//! A stopwatch: counts up while running, one interval per tick. The caller delivers the
//! messages the stopwatch asks for after the delays it gives.
use vstd::prelude::*;
use crate::ids::next_id;
use crate::time::{Duration, max_nanos};

verus! {

/// A tick: add one interval if running.
#[derive(Debug, Clone, Copy)]
pub struct TickMsg {
    pub id: i64,
    tag: i64,
}

/// Start or stop the stopwatch.
#[derive(Debug, Clone, Copy)]
pub struct StartStopMsg {
    pub id: i64,
    running: bool,
}

/// Reset the elapsed time to zero.
#[derive(Debug, Clone, Copy)]
pub struct ResetMsg {
    pub id: i64,
}

impl ResetMsg {
    /// The stopwatch the message is for.
    pub open spec fn spec_id(&self) -> i64 {
        self.id
    }

    /// A reset message for the stopwatch `id`.
    pub fn new(id: i64) -> (m: ResetMsg)
        ensures
            m.spec_id() == id,
    {
        ResetMsg { id }
    }
}

impl TickMsg {
    /// The tick's tag: ticks with another tag than the stopwatch expects are dropped.
    pub closed spec fn spec_tag(&self) -> i64 {
        self.tag
    }

    /// The stopwatch the tick is for.
    pub closed spec fn spec_id(&self) -> i64 {
        self.id
    }

    /// A tick for the stopwatch `id` with the given tag.
    pub fn new(id: i64, tag: i64) -> (m: TickMsg)
        ensures
            m.spec_id() == id,
            m.spec_tag() == tag,
    {
        TickMsg { id, tag }
    }

    /// The tick's tag.
    pub fn tag(&self) -> (t: i64)
        ensures
            t == self.spec_tag(),
    {
        self.tag
    }
}

impl StartStopMsg {
    /// Whether the message starts (`true`) or stops the stopwatch.
    pub closed spec fn spec_running(&self) -> bool {
        self.running
    }

    /// The stopwatch the message is for.
    pub closed spec fn spec_id(&self) -> i64 {
        self.id
    }

    /// A start (`running`) or stop message for the stopwatch `id`.
    pub fn new(id: i64, running: bool) -> (m: StartStopMsg)
        ensures
            m.spec_id() == id,
            m.spec_running() == running,
    {
        StartStopMsg { id, running }
    }
}

/// A message for the stopwatch.
#[derive(Debug, Clone, Copy)]
pub enum Msg {
    Tick(TickMsg),
    StartStop(StartStopMsg),
    Reset(ResetMsg),
}

/// A message to deliver after a delay.
#[derive(Debug, Clone, Copy)]
pub struct Scheduled {
    pub delay: Duration,
    pub msg: Msg,
}

/// A stopwatch.
#[derive(Debug, Clone)]
pub struct Model {
    d: Duration,
    id: i64,
    tag: i64,
    running: bool,
    pub interval: Duration,
}

/// The state of a stopwatch.
pub struct StopwatchView {
    pub elapsed: nat,
    pub id: i64,
    pub tag: i64,
    pub running: bool,
    pub interval: nat,
}

impl View for Model {
    type V = StopwatchView;

    closed spec fn view(&self) -> StopwatchView {
        StopwatchView {
            elapsed: self.d.spec_nanos(),
            id: self.id,
            tag: self.tag,
            running: self.running,
            interval: self.interval.spec_nanos(),
        }
    }
}

/// A span added to the elapsed time, saturating at the longest span.
pub open spec fn add_sat(a: nat, b: nat) -> nat {
    if a + b <= max_nanos() { a + b } else { max_nanos() }
}

/// The tick the stopwatch schedules after a state change: its interval, its id, its tag.
pub open spec fn is_tick_for(s: Scheduled, v: StopwatchView) -> bool {
    &&& s.delay.spec_nanos() == v.interval
    &&& s.msg matches Msg::Tick(t) && t.spec_id() == v.id && t.spec_tag() == v.tag
}

/// A stopwatch with the given id and interval, stopped at zero.
pub fn new_with_id(id: i64, interval: Duration) -> (m: Model)
    ensures
        m@ == (StopwatchView { elapsed: 0, id, tag: 0, running: false, interval: interval.spec_nanos() }),
{
    Model { d: Duration::zero(), id, tag: 0, running: false, interval }
}

/// A stopwatch with a fresh id and the given interval, stopped at zero.
pub fn new_with_interval(interval: Duration) -> (m: Model)
    ensures
        m@.elapsed == 0,
        m@.id >= 1,
        m@.tag == 0,
        !m@.running,
        m@.interval == interval.spec_nanos(),
{
    let id = (next_id() % (i64::MAX as u64)) as i64 + 1;
    new_with_id(id, interval)
}

/// A stopwatch with a fresh id ticking every second, stopped at zero.
pub fn new() -> (m: Model)
    ensures
        m@.elapsed == 0,
        m@.id >= 1,
        m@.tag == 0,
        !m@.running,
        m@.interval == 1_000_000_000,
{
    new_with_interval(Duration::from_secs(1))
}

impl Model {
    /// The id.
    pub fn id(&self) -> (i: i64)
        ensures
            i == self@.id,
    {
        self.id
    }

    /// The tag that the next tick must carry.
    pub fn tag(&self) -> (t: i64)
        ensures
            t == self@.tag,
    {
        self.tag
    }

    /// Whether running.
    pub fn running(&self) -> (b: bool)
        ensures
            b == self@.running,
    {
        self.running
    }

    /// The message that starts the stopwatch (see `start`).
    pub fn init(&self) -> (s: Scheduled)
        ensures
            s.delay.spec_nanos() == 1,
            s.msg matches Msg::StartStop(m) && m.spec_id() == self@.id && m.spec_running(),
    {
        self.start()
    }

    /// Asks for a start message to be delivered right away (after 1ns).
    pub fn start(&self) -> (s: Scheduled)
        ensures
            s.delay.spec_nanos() == 1,
            s.msg matches Msg::StartStop(m) && m.spec_id() == self@.id && m.spec_running(),
    {
        Scheduled { delay: Duration::from_nanos(1), msg: Msg::StartStop(StartStopMsg { id: self.id, running: true }) }
    }

    /// Asks for a stop message to be delivered right away (after 1ns).
    pub fn stop(&self) -> (s: Scheduled)
        ensures
            s.delay.spec_nanos() == 1,
            s.msg matches Msg::StartStop(m) && m.spec_id() == self@.id && !m.spec_running(),
    {
        Scheduled { delay: Duration::from_nanos(1), msg: Msg::StartStop(StartStopMsg { id: self.id, running: false }) }
    }

    /// Stops when running, starts when stopped.
    pub fn toggle(&self) -> (s: Scheduled)
        ensures
            s.delay.spec_nanos() == 1,
            s.msg matches Msg::StartStop(m) && m.spec_id() == self@.id && m.spec_running() == !self@.running,
    {
        if self.running() {
            self.stop()
        } else {
            self.start()
        }
    }

    /// Asks for a reset message to be delivered right away (after 1ns).
    pub fn reset(&self) -> (s: Scheduled)
        ensures
            s.delay.spec_nanos() == 1,
            s.msg matches Msg::Reset(m) && m.spec_id() == self@.id,
    {
        Scheduled { delay: Duration::from_nanos(1), msg: Msg::Reset(ResetMsg { id: self.id }) }
    }

    fn tick(&self) -> (s: Scheduled)
        ensures
            is_tick_for(s, self@),
    {
        Scheduled { delay: self.interval, msg: Msg::Tick(TickMsg { id: self.id, tag: self.tag }) }
    }

    /// Handles a message. Messages for another stopwatch are ignored. Start/stop sets
    /// running and schedules a tick when starting; reset zeroes the elapsed time; a tick, while
    /// running and with the expected tag (or tag 0), adds one interval, advances the tag
    /// and schedules the next tick.
    pub fn update(&mut self, msg: Msg) -> (r: Option<Scheduled>)
        ensures
            match msg {
                Msg::StartStop(m) => if m.spec_id() != old(self)@.id {
                    r is None && final(self)@ == old(self)@
                } else {
                    final(self)@ == (StopwatchView { running: m.spec_running(), ..old(self)@ })
                        && (m.spec_running() ==> (r matches Some(s) && is_tick_for(s, final(self)@)))
                        && (!m.spec_running() ==> r is None)
                },
                Msg::Reset(m) => r is None && if m.spec_id() != old(self)@.id {
                    final(self)@ == old(self)@
                } else {
                    final(self)@ == (StopwatchView { elapsed: 0, ..old(self)@ })
                },
                Msg::Tick(t) => if !old(self)@.running || t.spec_id() != old(self)@.id || (t.spec_tag() > 0
                    && t.spec_tag() != old(self)@.tag) {
                    r is None && final(self)@ == old(self)@
                } else {
                    final(self)@ == (StopwatchView {
                        elapsed: add_sat(old(self)@.elapsed, old(self)@.interval),
                        tag: old(self)@.tag.wrapping_add(1),
                        ..old(self)@
                    }) && (r matches Some(s) && is_tick_for(s, final(self)@))
                },
            },
    {
        match msg {
            Msg::StartStop(m) => {
                if m.id != self.id {
                    return None;
                }
                self.running = m.running;
                if m.running {
                    Some(self.tick())
                } else {
                    None
                }
            },
            Msg::Reset(m) => {
                if m.id != self.id {
                    return None;
                }
                self.d = Duration::zero();
                None
            },
            Msg::Tick(t) => {
                if !self.running || t.id != self.id {
                    return None;
                }
                if t.tag > 0 && t.tag != self.tag {
                    return None;
                }
                self.d = self.d.saturating_add(self.interval);
                self.tag = self.tag.wrapping_add(1);
                Some(self.tick())
            },
        }
    }

    /// The elapsed time.
    pub fn elapsed(&self) -> (d: Duration)
        ensures
            d.spec_nanos() == self@.elapsed,
    {
        self.d
    }
}

} // verus!
