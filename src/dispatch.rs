//! The actuator sequence that sorts one object, as a state machine that hands
//! out one driver command at a time and is told whether it succeeded.
//!
//! Four channels, one per (colour, size) pair. A sort centres all four,
//! opens the chosen one and de-energises the rest, holds, centres the chosen
//! one again and de-energises it. When a command fails, every channel is
//! de-energised before the failure is reported.
use vstd::prelude::*;
use crate::gate::SizeCategory;
use crate::selector::Color;

verus! {

/// Number of actuator channels.
pub const CHANNEL_COUNT: usize = 4;

/// What a channel was last told to do.
#[derive(Debug, Clone, Copy, PartialEq, Eq, Structural)]
pub enum Output {
    /// No pulse.
    Off,
    /// The centre pulse: the flap rests closed.
    Neutral,
    /// The channel's active pulse: the flap is turned open.
    Open,
}

/// Wiring and pulse of one channel.
#[derive(Debug, Clone, Copy, PartialEq, Eq, Structural)]
pub struct ChannelSettings {
    pub pin: u8,
    pub active_pulse_us: u32,
}

/// Settings of the four channels, indexed as [`channel_index`] says, and the
/// timing shared by all of them.
#[derive(Debug)]
pub struct ActuatorConfig {
    pub channels: Vec<ChannelSettings>,
    pub neutral_pulse_us: u32,
    pub period_us: u32,
    pub settle_ms: u64,
}

impl ActuatorConfig {
    pub open spec fn wf(&self) -> bool {
        self.channels@.len() == CHANNEL_COUNT
    }

    /// The machine's wiring: pins 12, 13, 19 and 16 for red large, red small,
    /// blue large and blue small; a 1500 us centre pulse, 900 us to open
    /// (2100 us for blue small), a 20 ms period and a 3 s hold.
    pub fn standard() -> (r: ActuatorConfig)
        ensures
            r.wf(),
            r.channels@ == seq![
                ChannelSettings { pin: 12, active_pulse_us: 900 },
                ChannelSettings { pin: 13, active_pulse_us: 900 },
                ChannelSettings { pin: 19, active_pulse_us: 900 },
                ChannelSettings { pin: 16, active_pulse_us: 2100 },
            ],
            r.neutral_pulse_us == 1500,
            r.period_us == 20000,
            r.settle_ms == 3000,
    {
        let channels = vec![
            ChannelSettings { pin: 12, active_pulse_us: 900 },
            ChannelSettings { pin: 13, active_pulse_us: 900 },
            ChannelSettings { pin: 19, active_pulse_us: 900 },
            ChannelSettings { pin: 16, active_pulse_us: 2100 },
        ];
        ActuatorConfig { channels, neutral_pulse_us: 1500, period_us: 20000, settle_ms: 3000 }
    }
}

/// The channel of a (colour, size) pair.
pub open spec fn channel_of(color: Color, size: SizeCategory) -> int {
    match (color, size) {
        (Color::Red, SizeCategory::Large) => 0,
        (Color::Red, SizeCategory::Small) => 1,
        (Color::Blue, SizeCategory::Large) => 2,
        (Color::Blue, SizeCategory::Small) => 3,
    }
}

/// The channel of a (colour, size) pair: each pair has its own.
pub fn channel_index(color: Color, size: SizeCategory) -> (r: usize)
    ensures
        r == channel_of(color, size),
        r < CHANNEL_COUNT,
{
    match (color, size) {
        (Color::Red, SizeCategory::Large) => 0,
        (Color::Red, SizeCategory::Small) => 1,
        (Color::Blue, SizeCategory::Large) => 2,
        (Color::Blue, SizeCategory::Small) => 3,
    }
}

/// A driver command that failed, and the channel it was for.
#[derive(Debug, Clone, Copy, PartialEq, Eq, Structural)]
pub struct ActuationError {
    pub channel: usize,
}

/// What the driver is asked to do next.
#[derive(Debug, Clone, Copy, PartialEq, Eq)]
pub enum Command {
    /// Drive `pin` with pulses of `pulse_us` every `period_us`.
    SetPulse { pin: u8, period_us: u32, pulse_us: u32 },
    /// Stop driving `pin`.
    Clear { pin: u8 },
    /// Wait, changing nothing.
    Hold { millis: u64 },
    /// The sort is over, with this outcome.
    Finished { result: Result<(), ActuationError> },
}

/// Where a sort stands. The phase names the command that is outstanding.
#[derive(Debug, Clone, Copy, PartialEq, Eq, Structural)]
pub enum Phase {
    Idle,
    /// Centring channel `k`.
    Centering(usize),
    /// Opening the target.
    Engaging,
    /// De-energising the `k`-th channel other than the target.
    Releasing(usize),
    /// Holding the target open.
    Holding,
    /// Centring the target again.
    Recentering,
    /// De-energising the target.
    Clearing,
    /// After a failure: de-energising channel `k`.
    Recovering(usize),
}

/// The `k`-th channel other than `target`, in index order.
pub open spec fn other(target: int, k: int) -> int {
    if k < target {
        k
    } else {
        k + 1
    }
}

/// The phase after the outstanding command of phase `p` completed, with
/// `ok` telling whether it succeeded. A failure outside recovery starts it.
pub open spec fn advance(p: Phase, ok: bool) -> Phase {
    if !ok && !(p is Recovering) && !(p is Idle) {
        Phase::Recovering(0)
    } else {
        match p {
            Phase::Centering(k) => if k < 3 {
                Phase::Centering((k + 1) as usize)
            } else {
                Phase::Engaging
            },
            Phase::Engaging => Phase::Releasing(0),
            Phase::Releasing(k) => if k < 2 {
                Phase::Releasing((k + 1) as usize)
            } else {
                Phase::Holding
            },
            Phase::Holding => Phase::Recentering,
            Phase::Recentering => Phase::Clearing,
            Phase::Clearing => Phase::Idle,
            Phase::Recovering(k) => if k < 3 {
                Phase::Recovering((k + 1) as usize)
            } else {
                Phase::Idle
            },
            Phase::Idle => Phase::Idle,
        }
    }
}

/// The channel that phase `p`'s command addresses.
pub open spec fn addressed(p: Phase, target: int) -> int {
    match p {
        Phase::Centering(k) => k as int,
        Phase::Releasing(k) => other(target, k as int),
        Phase::Recovering(k) => k as int,
        _ => target,
    }
}

/// What phase `p`'s command makes of the channel it addresses; `None` for a
/// command that changes no channel.
pub open spec fn effect(p: Phase) -> Option<Output> {
    match p {
        Phase::Centering(_) => Some(Output::Neutral),
        Phase::Engaging => Some(Output::Open),
        Phase::Releasing(_) => Some(Output::Off),
        Phase::Holding => None,
        Phase::Recentering => Some(Output::Neutral),
        Phase::Clearing => Some(Output::Off),
        Phase::Recovering(_) => Some(Output::Off),
        Phase::Idle => None,
    }
}

/// The driver command of phase `p` (other than `Idle`).
pub open spec fn command_of(cfg: ActuatorConfig, p: Phase, target: int) -> Command {
    let pin = cfg.channels@[addressed(p, target)].pin;
    match p {
        Phase::Centering(_) | Phase::Recentering => Command::SetPulse {
            pin,
            period_us: cfg.period_us,
            pulse_us: cfg.neutral_pulse_us,
        },
        Phase::Engaging => Command::SetPulse {
            pin,
            period_us: cfg.period_us,
            pulse_us: cfg.channels@[target].active_pulse_us,
        },
        Phase::Holding => Command::Hold { millis: cfg.settle_ms },
        _ => Command::Clear { pin },
    }
}

/// Commands left until the sort is over, counting a whole recovery for any
/// phase before it.
pub open spec fn remaining(p: Phase) -> int {
    match p {
        Phase::Idle => 0,
        Phase::Recovering(k) => 4 - k,
        Phase::Clearing => 5,
        Phase::Recentering => 6,
        Phase::Holding => 7,
        Phase::Releasing(k) => 10 - k,
        Phase::Engaging => 11,
        Phase::Centering(k) => 15 - k,
    }
}

/// Every channel is de-energised.
pub open spec fn all_off(outputs: Seq<Output>) -> bool {
    forall|i: int| 0 <= i < outputs.len() ==> outputs[i] == Output::Off
}

/// The outputs after phase `p`'s command has been issued.
pub open spec fn apply(o: Seq<Output>, p: Phase, target: int) -> Seq<Output> {
    match effect(p) {
        Some(out) => o.update(addressed(p, target), out),
        None => o,
    }
}

/// The failure to report once the outstanding command of `d` completed
/// with `ok`: the first one of the sort.
pub open spec fn failure_after(d: ActuatorDispatcher, ok: bool) -> Option<ActuationError> {
    if d.failure.is_none() && !ok {
        Some(ActuationError { channel: addressed(d.phase, d.target as int) as usize })
    } else {
        d.failure
    }
}

/// The outcome that a finished sort reports.
pub open spec fn outcome(failure: Option<ActuationError>) -> Result<(), ActuationError> {
    match failure {
        Some(e) => Err(e),
        None => Ok(()),
    }
}

/// The channel that phase `p`'s command addresses.
fn address(p: Phase, t: usize) -> (r: usize)
    requires
        t < CHANNEL_COUNT,
        match p {
            Phase::Centering(k) => k < 4,
            Phase::Releasing(k) => k < 3,
            Phase::Recovering(k) => k < 4,
            _ => true,
        },
    ensures
        r == addressed(p, t as int),
        r < CHANNEL_COUNT,
{
    match p {
        Phase::Centering(k) => k,
        Phase::Releasing(k) => if k < t {
            k
        } else {
            k + 1
        },
        Phase::Recovering(k) => k,
        _ => t,
    }
}

fn next_phase(p: Phase, ok: bool) -> (r: Phase)
    requires
        match p {
            Phase::Centering(k) => k < 4,
            Phase::Releasing(k) => k < 3,
            Phase::Recovering(k) => k < 4,
            _ => true,
        },
    ensures
        r == advance(p, ok),
{
    let recovering = match p {
        Phase::Recovering(_) => true,
        Phase::Idle => true,
        _ => false,
    };
    if !ok && !recovering {
        return Phase::Recovering(0);
    }
    match p {
        Phase::Centering(k) => if k < 3 {
            Phase::Centering(k + 1)
        } else {
            Phase::Engaging
        },
        Phase::Engaging => Phase::Releasing(0),
        Phase::Releasing(k) => if k < 2 {
            Phase::Releasing(k + 1)
        } else {
            Phase::Holding
        },
        Phase::Holding => Phase::Recentering,
        Phase::Recentering => Phase::Clearing,
        Phase::Clearing => Phase::Idle,
        Phase::Recovering(k) => if k < 3 {
            Phase::Recovering(k + 1)
        } else {
            Phase::Idle
        },
        Phase::Idle => Phase::Idle,
    }
}

/// Runs the actuator sequence of one sort at a time, and tracks what each
/// channel was last told to do.
pub struct ActuatorDispatcher {
    pub config: ActuatorConfig,
    pub outputs: Vec<Output>,
    pub phase: Phase,
    pub target: usize,
    pub failure: Option<ActuationError>,
}

impl ActuatorDispatcher {
    /// The state's invariant: at most one channel is open, the target, and
    /// only between opening it and centring it again; each phase has the
    /// channels released that it has already dealt with.
    pub open spec fn wf(&self) -> bool {
        let o = self.outputs@;
        let t = self.target as int;
        &&& self.config.wf()
        &&& o.len() == CHANNEL_COUNT
        &&& t < CHANNEL_COUNT
        &&& forall|i: int| 0 <= i < CHANNEL_COUNT && i != t ==> o[i] != Output::Open
        &&& (o[t] == Output::Open ==> (self.phase is Engaging || self.phase is Releasing
            || self.phase is Holding || self.phase is Recovering))
        &&& match self.phase {
            Phase::Idle => all_off(o) && self.failure.is_none(),
            Phase::Centering(k) => k < 4 && self.failure.is_none(),
            Phase::Engaging => self.failure.is_none(),
            Phase::Releasing(k) => k < 3 && self.failure.is_none() && forall|j: int|
                0 <= j <= k ==> o[#[trigger] other(t, j)] == Output::Off,
            Phase::Holding | Phase::Recentering => self.failure.is_none() && forall|i: int|
                0 <= i < CHANNEL_COUNT && i != t ==> o[i] == Output::Off,
            Phase::Clearing => self.failure.is_none() && all_off(o),
            Phase::Recovering(k) => k < 4 && self.failure.is_some() && forall|i: int|
                0 <= i <= k ==> o[i] == Output::Off,
        }
    }

    /// No sort is under way.
    pub open spec fn idle(&self) -> bool {
        self.phase is Idle
    }

    /// A dispatcher with every channel de-energised and no sort under way.
    pub fn new(config: ActuatorConfig) -> (r: ActuatorDispatcher)
        requires
            config.wf(),
        ensures
            r.wf(),
            r.idle(),
            r.config == config,
            all_off(r.outputs@),
    {
        let outputs = vec![Output::Off, Output::Off, Output::Off, Output::Off];
        ActuatorDispatcher { config, outputs, phase: Phase::Idle, target: 0, failure: None }
    }

    /// Starts the sort of an object of the given colour and size: its
    /// channel becomes the target. Returns the first command.
    pub fn begin(&mut self, color: Color, size: SizeCategory) -> (r: Command)
        requires
            old(self).wf(),
            old(self).idle(),
        ensures
            final(self).wf(),
            final(self).config == old(self).config,
            final(self).target == channel_of(color, size),
            final(self).phase == Phase::Centering(0),
            final(self).failure.is_none(),
            final(self).outputs@ == apply(old(self).outputs@, Phase::Centering(0), channel_of(color, size)),
            r == command_of(final(self).config, Phase::Centering(0), channel_of(color, size)),
    {
        self.target = channel_index(color, size);
        self.phase = Phase::Centering(0);
        self.outputs.set(0, Output::Neutral);
        self.current_command()
    }

    /// Reports whether the outstanding command succeeded, and returns the
    /// next one. The sort is over when that is `Finished`: every channel is
    /// then de-energised, whether the sort succeeded or not, and the result
    /// names the first command that failed, if any.
    pub fn complete(&mut self, ok: bool) -> (r: Command)
        requires
            old(self).wf(),
            !old(self).idle(),
        ensures
            final(self).wf(),
            final(self).config == old(self).config,
            final(self).target == old(self).target,
            final(self).phase == advance(old(self).phase, ok),
            !final(self).idle() ==> {
                &&& final(self).failure == failure_after(*old(self), ok)
                &&& final(self).outputs@ == apply(old(self).outputs@, final(self).phase, final(self).target as int)
                &&& r == command_of(final(self).config, final(self).phase, final(self).target as int)
                &&& remaining(final(self).phase) < remaining(old(self).phase)
            },
            final(self).idle() ==> {
                &&& r == (Command::Finished { result: outcome(failure_after(*old(self), ok)) })
                &&& final(self).outputs@ == old(self).outputs@
                &&& all_off(final(self).outputs@)
            },
            (r is Finished) <==> final(self).idle(),
    {
        let t = self.target;
        if !ok && self.failure.is_none() {
            let ch = address(self.phase, t);
            self.failure = Some(ActuationError { channel: ch });
        }
        let next = next_phase(self.phase, ok);
        self.phase = next;
        match next {
            Phase::Idle => {
                let result = match self.failure {
                    Some(e) => Err(e),
                    None => Ok(()),
                };
                self.failure = None;
                Command::Finished { result }
            },
            Phase::Holding => {
                proof {
                    let o = self.outputs@;
                    assert forall|i: int| 0 <= i < CHANNEL_COUNT && i != t implies o[i]
                        == Output::Off by {
                        let j = if i < t { i } else { i - 1 };
                        assert(o[other(t as int, j)] == Output::Off);
                    }
                }
                self.current_command()
            },
            _ => {
                let ch = address(next, t);
                let out = match next {
                    Phase::Centering(_) | Phase::Recentering => Output::Neutral,
                    Phase::Engaging => Output::Open,
                    _ => Output::Off,
                };
                self.outputs.set(ch, out);
                self.current_command()
            },
        }
    }

    /// The command of the current phase.
    fn current_command(&self) -> (r: Command)
        requires
            self.wf(),
            !self.idle(),
        ensures
            r == command_of(self.config, self.phase, self.target as int),
    {
        let t = self.target;
        match self.phase {
            Phase::Centering(k) => Command::SetPulse {
                pin: self.config.channels[k].pin,
                period_us: self.config.period_us,
                pulse_us: self.config.neutral_pulse_us,
            },
            Phase::Recentering => Command::SetPulse {
                pin: self.config.channels[t].pin,
                period_us: self.config.period_us,
                pulse_us: self.config.neutral_pulse_us,
            },
            Phase::Engaging => Command::SetPulse {
                pin: self.config.channels[t].pin,
                period_us: self.config.period_us,
                pulse_us: self.config.channels[t].active_pulse_us,
            },
            Phase::Holding => Command::Hold { millis: self.config.settle_ms },
            Phase::Releasing(k) => {
                let c: usize = if k < t { k } else { k + 1 };
                Command::Clear { pin: self.config.channels[c].pin }
            },
            Phase::Recovering(k) => Command::Clear { pin: self.config.channels[k].pin },
            _ => Command::Clear { pin: self.config.channels[t].pin },
        }
    }
}

/// In every well-formed state at most one channel is open, and it is the
/// target; when no sort is under way none is.
pub proof fn lemma_at_most_one_open(d: ActuatorDispatcher, i: int, j: int)
    requires
        d.wf(),
        0 <= i < CHANNEL_COUNT,
        0 <= j < CHANNEL_COUNT,
        d.outputs@[i] == Output::Open,
        d.outputs@[j] == Output::Open,
    ensures
        i == j,
        i == d.target,
        !d.idle(),
{
}

} // verus!
