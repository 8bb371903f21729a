//! A detector on an input line of the board: the line reads high while the door
//! is open.

use crate::config::gpio::GpioPin;
use crate::door::identifier::Identifier;
use crate::door::state::{AssumedTravel, AssumedTravelView, SensorState, State, StateView, TargetState};
use crate::door::state_detector::{DetectedState, Travel};
use crate::error::{GarageError, GarageResult};
use crate::mock_gpio::{Gpio, InputPin};
use vstd::prelude::*;

verus! {

/// How many times the line is read at most to find a stable state.
pub const MAX_READS: usize = 50;

/// How many times in a row the line has to read as it read before. A state is
/// stable with one more reading than this, all the same.
pub const MIN_CONSECUTIVE: usize = 10;

/// How long to let pass between two reads of the line, in milliseconds.
pub const READ_INTERVAL: u64 = 20;

/// The state that one reading of the line stands for: high is open.
pub open spec fn state_of_level(high: bool) -> SensorState {
    if high {
        SensorState::Open
    } else {
        SensorState::Closed
    }
}

/// Whether the readings `levels` are stable at the reading `i`: it is one of the
/// first [`MAX_READS`], and it and the [`MIN_CONSECUTIVE`] readings before it are
/// all the same.
pub open spec fn settled_at(levels: Seq<bool>, i: int) -> bool {
    &&& MIN_CONSECUTIVE <= i < levels.len()
    &&& i < MAX_READS
    &&& forall|k: int| i - MIN_CONSECUTIVE <= k <= i ==> levels[k] == levels[i]
}

/// Whether `state` is the stable state of the readings `levels`: the state of
/// the first reading at which they are stable, or `Stuck` if they never are.
pub open spec fn is_stable_state(levels: Seq<bool>, state: SensorState) -> bool {
    ||| exists|i: int|
        {
            &&& #[trigger] settled_at(levels, i)
            &&& forall|j: int| 0 <= j < i ==> !settled_at(levels, j)
            &&& state == state_of_level(levels[i])
        }
    ||| {
        &&& forall|i: int| !settled_at(levels, i)
        &&& state == SensorState::Stuck
    }
}

/// Where the line is and how long the door needs. Durations are in milliseconds.
#[derive(Debug, Clone, Copy, PartialEq, Eq)]
pub struct GpioStateDetectorConfig {
    /// The pin of the sensor's line.
    pub pin: GpioPin,
    /// How long the door is expected to take from one end to the other.
    pub travel_time: u64,
}

/// What a [`GpioStateDetector`] is.
pub struct GpioStateDetectorView {
    pub line: u8,
    pub travel_time: nat,
    pub current_travel: Option<Travel>,
}

/// The detector on an input line.
#[derive(Debug, PartialEq, Eq)]
pub struct GpioStateDetector {
    pin: InputPin,
    travel_time: u64,
    current_travel: Option<Travel>,
}

impl View for GpioStateDetector {
    type V = GpioStateDetectorView;

    closed spec fn view(&self) -> GpioStateDetectorView {
        GpioStateDetectorView {
            line: self.pin.0,
            travel_time: self.travel_time as nat,
            current_travel: self.current_travel,
        }
    }
}

impl GpioStateDetectorView {
    /// What the detector says at `now` of a door whose line settled in `stable`:
    /// `Stuck` if a travel is under way that has failed, and `stable` otherwise.
    pub open spec fn detect_state(self, stable: SensorState, now: nat) -> SensorState {
        match self.current_travel {
            Some(travel) if travel.is_expired_invalid(stable, self.travel_time, now) => {
                SensorState::Stuck
            },
            _ => stable,
        }
    }
}

impl GpioStateDetector {
    /// The state that one reading of the line stands for, given what stands in
    /// for the line.
    pub fn pin_state(&self, level: Option<&str>) -> (state: DetectedState)
        ensures
            state == state_of_level(level matches Some(text) && text@ == "1"@),
    {
        if self.pin.is_high(level) {
            DetectedState::Open
        } else {
            DetectedState::Closed
        }
    }

    /// The stable state of the line, from readings taken one after the other,
    /// `true` for high: the state of the first reading that is the same as the
    /// [`MIN_CONSECUTIVE`] before it. Readings after the first [`MAX_READS`] are
    /// not looked at. Readings that never settle leave the door possibly stuck.
    pub fn stable_state(&self, levels: &Vec<bool>) -> (state: DetectedState)
        ensures
            is_stable_state(levels@, state),
    {
        let limit = if levels.len() < MAX_READS {
            levels.len()
        } else {
            MAX_READS
        };
        if limit == 0 {
            return DetectedState::Stuck;
        }
        let mut previous: bool = levels[0];
        let mut consecutive: usize = 0;
        let mut i: usize = 1;
        while i < limit
            invariant
                1 <= i <= limit,
                limit <= levels.len(),
                limit <= MAX_READS,
                limit == levels.len() || limit == MAX_READS,
                consecutive < MIN_CONSECUTIVE,
                consecutive < i,
                previous == levels[i - 1],
                forall|k: int| i - 1 - consecutive <= k < i ==> levels[k] == previous,
                i - 1 - consecutive > 0 ==> levels[i - 2 - consecutive] != previous,
                forall|j: int| 0 <= j < i ==> !settled_at(levels@, j),
            decreases limit - i,
        {
            let level = levels[i];
            if level == previous {
                consecutive += 1;
                if consecutive >= MIN_CONSECUTIVE {
                    proof {
                        assert(settled_at(levels@, i as int));
                    }
                    return if level {
                        DetectedState::Open
                    } else {
                        DetectedState::Closed
                    };
                }
            } else {
                consecutive = 0;
                previous = level;
            }
            i += 1;
        }
        DetectedState::Stuck
    }

    /// The detector on the line that `config` names, with no travel under way.
    pub fn with_config(_identifier: Identifier, config: GpioStateDetectorConfig) -> (made:
        GarageResult<GpioStateDetector>)
        ensures
            made matches Ok(detector) && detector@ == (GpioStateDetectorView {
                line: config.pin.bcm(),
                travel_time: config.travel_time as nat,
                current_travel: None,
            }),
    {
        let gpio = match Gpio::new() {
            Ok(gpio) => gpio,
            Err(_) => {
                return Err(GarageError::Gpio);
            },
        };
        let pin = match gpio.get(config.pin.bcm_number()) {
            Ok(pin) => pin.into_input_pullup(),
            Err(_) => {
                return Err(GarageError::Gpio);
            },
        };
        Ok(GpioStateDetector { pin, travel_time: config.travel_time, current_travel: None })
    }

    /// The travel that is under way, if one is.
    pub fn current_travel(&self) -> (travel: Option<Travel>)
        ensures
            travel == self@.current_travel,
    {
        self.current_travel
    }

    /// Notes that the door sets out for `target_state` at `now`, and tells how
    /// long to wait before the door is asked where it is. Only one travel can be
    /// under way.
    pub fn travel(&mut self, target_state: TargetState, now: u64) -> (wait: u64)
        requires
            old(self)@.current_travel is None,
        ensures
            wait == old(self)@.travel_time,
            final(self)@ == (GpioStateDetectorView {
                current_travel: Some(Travel { start_time: now, target_state }),
                ..old(self)@
            }),
    {
        self.current_travel = Some(Travel::new(target_state, now));
        self.travel_time
    }

    /// Where the door is at `now`, from readings of the line taken one after the
    /// other: the stable state of the readings, unless a travel is under way that
    /// has failed, which leaves the door stuck. The travel is over either way.
    pub fn detect_state(&mut self, levels: &Vec<bool>, now: u64) -> (state: DetectedState)
        ensures
            exists|stable: SensorState|
                #[trigger] is_stable_state(levels@, stable) && state == old(self)@.detect_state(
                    stable,
                    now as nat,
                ),
            final(self)@ == (GpioStateDetectorView { current_travel: None, ..old(self)@ }),
    {
        let detected_state = self.stable_state(levels);
        let current_travel = self.current_travel;
        self.current_travel = None;
        if let Some(current_travel) = current_travel {
            if current_travel.expired_invalid(detected_state, self.travel_time, now) {
                return DetectedState::Stuck;
            }
        }
        detected_state
    }

    /// Whether the detector is to be asked again and again: it is.
    pub fn should_check(&self) -> (check: bool)
        ensures
            check,
    {
        true
    }

    /// The state of a door that was moved by hand and is now detected at
    /// `target_state`. The sensor shows when the door is closed, so a door that is
    /// no longer closed has begun to open at `now`.
    pub fn manual_travel_state(&self, target_state: TargetState, now: u64) -> (state: State)
        requires
            now + self@.travel_time <= u64::MAX,
        ensures
            state@ == (match target_state {
                TargetState::Open => StateView::Opening(
                    AssumedTravelView::new(now as nat, self@.travel_time),
                ),
                TargetState::Closed => StateView::Closed,
            }),
    {
        match target_state {
            TargetState::Open => State::Opening(AssumedTravel::new(now, self.travel_time)),
            TargetState::Closed => State::Closed,
        }
    }
}

} // verus!
