//! The remote that moves the door: one output line, pulsed under a lock that all
//! remotes share.

use crate::config::gpio::GpioPin;
use crate::door::remote::mutex::RemoteMutex;
use crate::error::{GarageError, GarageResult};
use crate::mock_gpio::{Error, Gpio, OutputPin};
use vstd::prelude::*;

pub mod mutex;

verus! {

/// What a [`RemoteConfig`] is, with its durations as numbers.
pub struct RemoteConfigView {
    pub pin: GpioPin,
    pub pressed_duration: nat,
    pub wait_duration: nat,
    pub max_latency_duration: nat,
}

impl RemoteConfigView {
    /// The longest that a press may take to show at the sensor: the press, the
    /// pause after it, and the time the door may take to start moving.
    pub open spec fn max_remote_latency_duration(self) -> nat {
        self.pressed_duration + self.wait_duration + self.max_latency_duration
    }

    /// The longest latency is a duration that the machine can count.
    pub open spec fn wf(self) -> bool {
        self.max_remote_latency_duration() <= u64::MAX
    }
}

/// How the remote is pressed. Durations are in milliseconds.
#[derive(Debug, Clone, Copy, PartialEq, Eq)]
pub struct RemoteConfig {
    /// The pin of the line that presses the remote.
    pub pin: GpioPin,
    /// How long the line is held high, which is how long the signal is sent.
    pub pressed_duration: u64,
    /// How long to wait after a press before any remote is pressed again.
    pub wait_duration: u64,
    /// How long the door may take to start moving after a press.
    pub max_latency_duration: u64,
}

impl View for RemoteConfig {
    type V = RemoteConfigView;

    open spec fn view(&self) -> RemoteConfigView {
        RemoteConfigView {
            pin: self.pin,
            pressed_duration: self.pressed_duration as nat,
            wait_duration: self.wait_duration as nat,
            max_latency_duration: self.max_latency_duration as nat,
        }
    }
}

impl RemoteConfig {
    /// Whether the three durations add up to one that the machine can count.
    pub fn is_valid(&self) -> (valid: bool)
        ensures
            valid == self@.wf(),
    {
        match self.pressed_duration.checked_add(self.wait_duration) {
            Some(press) => press.checked_add(self.max_latency_duration).is_some(),
            None => false,
        }
    }

    /// The longest that a press may take to show at the sensor.
    pub fn max_remote_latency_duration(&self) -> (duration: u64)
        requires
            self@.wf(),
        ensures
            duration == self@.max_remote_latency_duration(),
    {
        self.pressed_duration + self.wait_duration + self.max_latency_duration
    }
}

/// Where a remote is in a press.
#[derive(Debug, Clone, Copy, PartialEq, Eq, Structural)]
pub enum Pulse {
    /// No press is under way.
    Idle,
    /// The line is high: the signal is being sent.
    Pressed,
    /// The line is low again; the pause after the press is running.
    Released,
    /// A write to the line has failed. The remote takes no further step.
    Failed,
}

/// What the caller of [`DoorRemote::trigger`] has to do next.
#[derive(Debug, Clone, Copy, PartialEq, Eq, Structural)]
pub enum RemoteStep {
    /// Another remote is sending. Nothing was done: call again later.
    Blocked,
    /// Write the level that the remote now shows to the line. If that works, let
    /// this many milliseconds pass. Then call again, with the outcome of the write.
    Sleep(u64),
    /// The press is over.
    Done,
}

/// What a [`DoorRemote`] is: its line and the level of it, how it is pressed, and
/// where it is in a press.
pub struct DoorRemoteView {
    pub line: u8,
    pub high: bool,
    pub config: RemoteConfigView,
    pub pulse: Pulse,
}

impl DoorRemoteView {
    /// The line is high while the remote is pressed and low while it is idle or
    /// released, and it is the line that the configuration names. Of a remote
    /// whose line has failed, the level is what it was when the write failed.
    pub open spec fn wf(self) -> bool {
        &&& self.pulse is Pressed ==> self.high
        &&& self.pulse is Idle || self.pulse is Released ==> !self.high
        &&& self.line == self.config.pin.bcm()
    }

    /// Whether a press is under way, from the moment the line goes high to the
    /// end of the pause after it.
    pub open spec fn pulsing(self) -> bool {
        self.pulse is Pressed || self.pulse is Released
    }

    /// A remote on the line that `config` names, low and idle.
    pub open spec fn new(config: RemoteConfigView) -> DoorRemoteView {
        DoorRemoteView { line: config.pin.bcm(), high: false, config, pulse: Pulse::Idle }
    }

    /// The remote after a write to its line has failed, and the lock after it:
    /// the line keeps the level it had before the write, the press is given up,
    /// and the lock is given back if the remote was in a press.
    pub open spec fn fail(self, holder: Option<u8>) -> (DoorRemoteView, Option<u8>) {
        (
            DoorRemoteView {
                high: match self.pulse {
                    Pulse::Pressed => false,
                    Pulse::Released => true,
                    _ => self.high,
                },
                pulse: Pulse::Failed,
                ..self
            },
            if self.pulsing() && holder == Some(self.line) {
                None
            } else {
                holder
            },
        )
    }

    /// One step of a press, with the lock held by `holder`, where every write so
    /// far has worked: the remote and the holder after the step, and what the
    /// caller has to do next.
    ///
    /// An idle remote takes the lock and raises its line, or is blocked while
    /// another holds the lock. A pressed remote lowers its line. A released remote
    /// gives the lock back and is idle again. (A remote whose line has failed
    /// takes no step; nothing asks this function for one.)
    pub open spec fn advance(self, holder: Option<u8>) -> (DoorRemoteView, Option<u8>, RemoteStep) {
        match self.pulse {
            Pulse::Idle => {
                if holder is None {
                    (
                        DoorRemoteView { high: true, pulse: Pulse::Pressed, ..self },
                        Some(self.line),
                        RemoteStep::Sleep(self.config.pressed_duration as u64),
                    )
                } else {
                    (self, holder, RemoteStep::Blocked)
                }
            },
            Pulse::Pressed => (
                DoorRemoteView { high: false, pulse: Pulse::Released, ..self },
                holder,
                RemoteStep::Sleep(self.config.wait_duration as u64),
            ),
            Pulse::Released => (
                DoorRemoteView { pulse: Pulse::Idle, ..self },
                if holder == Some(self.line) {
                    None
                } else {
                    holder
                },
                RemoteStep::Done,
            ),
            Pulse::Failed => (self, holder, RemoteStep::Done),
        }
    }

    /// One call of `trigger`, with the lock held by `holder` and `written` telling
    /// whether the write that the call before asked for has worked. A failed
    /// write, now or before, is handed back as the failure of the line: nothing is
    /// written again and no time is asked to pass. Otherwise the press takes its
    /// next step.
    pub open spec fn trigger(self, holder: Option<u8>, written: bool) -> (
        DoorRemoteView,
        Option<u8>,
        GarageResult<RemoteStep>,
    ) {
        if self.pulse is Failed {
            (self, holder, Err(GarageError::Gpio))
        } else if !written {
            (self.fail(holder).0, self.fail(holder).1, Err(GarageError::Gpio))
        } else {
            (self.advance(holder).0, self.advance(holder).1, Ok(self.advance(holder).2))
        }
    }
}

/// The remote of one door: an output line that is raised for the length of a
/// press, under the lock that all remotes share.
///
/// The remote keeps the level of its line; whoever runs it writes that level to
/// the line itself and tells the remote how the write went.
#[derive(Debug, PartialEq, Eq)]
pub struct DoorRemote {
    pin: OutputPin,
    config: RemoteConfig,
    pulse: Pulse,
}

impl View for DoorRemote {
    type V = DoorRemoteView;

    closed spec fn view(&self) -> DoorRemoteView {
        DoorRemoteView {
            line: self.pin.pin,
            high: self.pin.high,
            config: self.config@,
            pulse: self.pulse,
        }
    }
}

impl DoorRemote {
    /// Holds of every remote there is: its line is high while it is pressed and
    /// low while it is idle or released.
    #[verifier::type_invariant]
    pub open spec fn inv(self) -> bool {
        self@.wf()
    }

    /// The remote on the line that `config` names, given how setting that line low
    /// went. Where the line could not be set low there is no remote, and the
    /// failure is handed back.
    pub fn new(config: RemoteConfig, lowered: Result<(), Error>) -> (remote: GarageResult<
        DoorRemote,
    >)
        ensures
            match remote {
                Ok(made) => lowered is Ok && made@ == DoorRemoteView::new(config@),
                Err(error) => lowered is Err && error == GarageError::Gpio,
            },
    {
        if lowered.is_err() {
            return Err(GarageError::Gpio);
        }
        let gpio = match Gpio::new() {
            Ok(gpio) => gpio,
            Err(_) => {
                return Err(GarageError::Gpio);
            },
        };
        let mut pin = match gpio.get(config.pin.bcm_number()) {
            Ok(pin) => pin.into_output(),
            Err(_) => {
                return Err(GarageError::Gpio);
            },
        };
        pin.set_low();
        Ok(DoorRemote { pin, config, pulse: Pulse::Idle })
    }

    /// How the remote is pressed.
    pub fn config(&self) -> (config: &RemoteConfig)
        ensures
            config@ == self@.config,
    {
        &self.config
    }

    /// Whether the line is to be high. It is high while the remote is pressed, and
    /// low whenever the remote is idle or in the pause after a press.
    pub fn is_high(&self) -> (high: bool)
        ensures
            high == self@.high,
            self@.wf(),
    {
        proof {
            use_type_invariant(self);
        }
        self.pin.is_set_high()
    }

    /// Where the remote is in a press.
    pub fn pulse(&self) -> (pulse: Pulse)
        ensures
            pulse == self@.pulse,
            self@.wf(),
    {
        proof {
            use_type_invariant(self);
        }
        self.pulse
    }

    /// Takes the press one step further and tells what to do before the next
    /// step. A whole press is: the lock is taken and the line raised; after the
    /// pressed duration the line is lowered; after the wait duration the lock is
    /// given back. While another remote holds the lock, nothing happens.
    ///
    /// `written` tells how the write went that the call before asked for; a call
    /// that follows no write passes `Ok`. A write that failed ends the press at
    /// once: the failure is handed back, the lock is given back, nothing is
    /// written again, no time is asked to pass, and every later call fails too.
    pub fn trigger(&mut self, mutex: &mut RemoteMutex, written: Result<(), Error>) -> (step:
        GarageResult<RemoteStep>)
        ensures
            (final(self)@, final(mutex)@, step) == old(self)@.trigger(old(mutex)@, written is Ok),
            final(self)@.wf(),
    {
        proof {
            use_type_invariant(&*self);
        }
        match self.pulse {
            Pulse::Failed => {
                return Err(GarageError::Gpio);
            },
            _ => {},
        }
        if written.is_err() {
            let mut pin = self.pin;
            match self.pulse {
                Pulse::Pressed => {
                    pin.set_low();
                    mutex.unlock(self.pin.pin);
                },
                Pulse::Released => {
                    pin.set_high();
                    mutex.unlock(self.pin.pin);
                },
                _ => {},
            }
            *self = DoorRemote { pin, config: self.config, pulse: Pulse::Failed };
            return Err(GarageError::Gpio);
        }
        match self.pulse {
            Pulse::Idle => {
                if mutex.lock(self.pin.pin) {
                    let mut pin = self.pin;
                    pin.set_high();
                    *self = DoorRemote { pin, config: self.config, pulse: Pulse::Pressed };
                    Ok(RemoteStep::Sleep(self.config.pressed_duration))
                } else {
                    Ok(RemoteStep::Blocked)
                }
            },
            Pulse::Pressed => {
                let mut pin = self.pin;
                pin.set_low();
                *self = DoorRemote { pin, config: self.config, pulse: Pulse::Released };
                Ok(RemoteStep::Sleep(self.config.wait_duration))
            },
            Pulse::Released => {
                mutex.unlock(self.pin.pin);
                self.pulse = Pulse::Idle;
                Ok(RemoteStep::Done)
            },
            Pulse::Failed => Ok(RemoteStep::Done),
        }
    }
}

/// Whether at most one remote of `remotes` is in a press, and the lock is held
/// for the line of the one that is.
pub open spec fn one_press_at_a_time(holder: Option<u8>, remotes: Seq<DoorRemoteView>) -> bool {
    &&& forall|i: int|
        0 <= i < remotes.len() && (#[trigger] remotes[i]).pulsing() ==> holder == Some(
            remotes[i].line,
        )
    &&& forall|i: int, j: int|
        0 <= i < remotes.len() && 0 <= j < remotes.len() && (#[trigger] remotes[i]).pulsing() && (
        #[trigger] remotes[j]).pulsing() ==> i == j
}

/// The line of a remote is low whenever no press of it is under way, as long as
/// no write to the line has failed: a new remote is idle with its line low, and
/// whatever step a press takes, the line is high only between the step that
/// raises it and the step that lowers it. A remote none of whose writes fails
/// never comes to have failed.
pub proof fn law_line_low_outside_press(
    config: RemoteConfigView,
    remote: DoorRemoteView,
    holder: Option<u8>,
    written: bool,
)
    requires
        remote.wf(),
    ensures
        DoorRemoteView::new(config).wf(),
        DoorRemoteView::new(config).pulse is Idle,
        remote.pulse is Idle ==> !remote.high,
        remote.high && !(remote.pulse is Failed) ==> remote.pulse is Pressed,
        remote.trigger(holder, written).0.wf(),
        remote.trigger(holder, written).0.line == remote.line,
        written && !(remote.pulse is Failed) ==> !(remote.trigger(holder, written).0.pulse
            is Failed),
{
}

/// A write that failed reaches the caller and ends the press: the call that is
/// told of it hands the failure back, leaves the remote out of any press with the
/// lock given back, and asks for nothing more; so does every call after it.
pub proof fn law_failed_write_reaches_the_caller(remote: DoorRemoteView, holder: Option<u8>)
    ensures
        ({
            let (failed, released, step) = remote.trigger(holder, false);
            &&& step == Err::<RemoteStep, GarageError>(GarageError::Gpio)
            &&& failed.pulse is Failed
            &&& remote.pulsing() && holder == Some(remote.line) ==> released is None
            &&& !remote.pulsing() ==> released == holder
            &&& forall|later: Option<u8>, written: bool| #[trigger]
                failed.trigger(later, written) == (
                    failed,
                    later,
                    Err::<RemoteStep, GarageError>(GarageError::Gpio),
                )
        }),
{
}

/// At most one remote is in a press at any time, however many remotes share the
/// lock, whichever of them takes the next step, and however its last write went:
/// a step of any one remote keeps it so.
pub proof fn law_one_press_at_a_time(
    holder: Option<u8>,
    remotes: Seq<DoorRemoteView>,
    stepping: int,
    written: bool,
)
    requires
        one_press_at_a_time(holder, remotes),
        0 <= stepping < remotes.len(),
    ensures
        ({
            let (after, released, _) = remotes[stepping].trigger(holder, written);
            one_press_at_a_time(released, remotes.update(stepping, after))
        }),
{
}

/// Remotes that are all idle have no press among them, whoever holds the lock.
pub proof fn law_idle_remotes_press_nothing(holder: Option<u8>, remotes: Seq<DoorRemoteView>)
    requires
        forall|i: int| 0 <= i < remotes.len() ==> !(#[trigger] remotes[i]).pulsing(),
    ensures
        one_press_at_a_time(holder, remotes),
{
}

} // verus!
