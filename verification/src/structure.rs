//! The plain values that the simulator and a safety device exchange.
use vstd::prelude::*;
use crate::scalar::trunc_div;

verus! {

/// The kind of a beacon on the track.
#[derive(Debug)]
pub struct BeaconType(pub u32);

/// The index of a value on the driver's panel.
#[derive(Debug)]
pub struct PanelId(pub u8);

/// The index of a sound.
#[derive(Debug)]
pub struct SoundId(pub u8);

/// A key of the safety device.
pub enum Key {
    S,
    A1,
    A2,
    B1,
    B2,
    C1,
    C2,
    D,
    E,
    F,
    G,
    H,
    I,
    J,
    K,
    L,
}

impl Key {
    /// The number by which the simulator names the key.
    pub open spec fn spec_code(self) -> int {
        match self {
            Key::S => 0,
            Key::A1 => 1,
            Key::A2 => 2,
            Key::B1 => 3,
            Key::B2 => 4,
            Key::C1 => 5,
            Key::C2 => 6,
            Key::D => 7,
            Key::E => 8,
            Key::F => 9,
            Key::G => 10,
            Key::H => 11,
            Key::I => 12,
            Key::J => 13,
            Key::K => 14,
            Key::L => 15,
        }
    }

    /// The number by which the simulator names the key.
    pub fn code(&self) -> (r: i32)
        ensures
            r == self.spec_code(),
    {
        match self {
            Key::S => 0,
            Key::A1 => 1,
            Key::A2 => 2,
            Key::B1 => 3,
            Key::B2 => 4,
            Key::C1 => 5,
            Key::C2 => 6,
            Key::D => 7,
            Key::E => 8,
            Key::F => 9,
            Key::G => 10,
            Key::H => 11,
            Key::I => 12,
            Key::J => 13,
            Key::K => 14,
            Key::L => 15,
        }
    }
}

/// Where the brake handle stands when the game starts.
pub enum HandleInitialPosition {
    HandleRemoved,
    EmergencyBrake,
    ServiceBrake,
}

impl HandleInitialPosition {
    /// The number by which the simulator names the position.
    pub open spec fn spec_code(self) -> int {
        match self {
            HandleInitialPosition::HandleRemoved => 2,
            HandleInitialPosition::EmergencyBrake => 1,
            HandleInitialPosition::ServiceBrake => 0,
        }
    }

    /// The number by which the simulator names the position.
    pub fn code(&self) -> (r: i32)
        ensures
            r == self.spec_code(),
    {
        match self {
            HandleInitialPosition::HandleRemoved => 2,
            HandleInitialPosition::EmergencyBrake => 1,
            HandleInitialPosition::ServiceBrake => 0,
        }
    }
}

/// What to do with a sound.
#[derive(Copy, Clone, Debug)]
pub enum SoundControl {
    Stop,
    Play,
    PlayLooping,
    Continue,
}

impl SoundControl {
    /// The number by which the simulator names the instruction.
    pub open spec fn spec_code(self) -> int {
        match self {
            SoundControl::Stop => -10000,
            SoundControl::Play => 1,
            SoundControl::PlayLooping => 0,
            SoundControl::Continue => 2,
        }
    }

    /// The number by which the simulator names the instruction.
    pub fn code(&self) -> (r: i32)
        ensures
            r == self.spec_code(),
    {
        match self {
            SoundControl::Stop => -10000,
            SoundControl::Play => 1,
            SoundControl::PlayLooping => 0,
            SoundControl::Continue => 2,
        }
    }
}

/// A horn of the train.
#[derive(Copy, Clone, Debug)]
pub enum Horn {
    Primary,
    Secondary,
    Music,
}

impl Horn {
    /// The number by which the simulator names the horn.
    pub open spec fn spec_code(self) -> int {
        match self {
            Horn::Primary => 0,
            Horn::Secondary => 1,
            Horn::Music => 2,
        }
    }

    /// The number by which the simulator names the horn.
    pub fn code(&self) -> (r: i32)
        ensures
            r == self.spec_code(),
    {
        match self {
            Horn::Primary => 0,
            Horn::Secondary => 1,
            Horn::Music => 2,
        }
    }
}

/// What to do with the constant-speed control.
#[derive(Copy, Clone, Debug)]
pub enum ConstantSpeed {
    Continue,
    Enable,
    Disable,
}

impl ConstantSpeed {
    /// The number by which the simulator names the instruction.
    pub open spec fn spec_code(self) -> int {
        match self {
            ConstantSpeed::Continue => 0,
            ConstantSpeed::Enable => 1,
            ConstantSpeed::Disable => 2,
        }
    }

    /// The number by which the simulator names the instruction.
    pub fn code(&self) -> (r: i32)
        ensures
            r == self.spec_code(),
    {
        match self {
            ConstantSpeed::Continue => 0,
            ConstantSpeed::Enable => 1,
            ConstantSpeed::Disable => 2,
        }
    }
}

/// The notch at which a handle stands.
#[derive(Copy, Clone, Ord, PartialOrd, Eq, PartialEq, Debug)]
pub struct NotchPosition(pub i32);

impl NotchPosition {
    /// The notch at which a handle does nothing.
    pub fn neutral() -> (r: NotchPosition)
        ensures
            r.0 == 0,
    {
        NotchPosition(0)
    }
}

/// How many notches a handle has.
#[derive(Copy, Clone, Eq, PartialEq, Debug)]
pub struct NotchCount(pub i32);

impl NotchCount {
    /// The last notch of the handle.
    pub fn full(&self) -> (r: NotchPosition)
        ensures
            r.0 == self.0,
    {
        NotchPosition(self.0)
    }

    /// The notch halfway up the handle, toward the neutral one where the
    /// count is odd.
    pub fn half(&self) -> (r: NotchPosition)
        ensures
            r.0 == trunc_div(self.0 as int, 2),
    {
        NotchPosition(self.0 / 2)
    }
}

/// Where the reverser stands: forward, neutral or backward.
#[derive(Debug)]
pub struct ReverserPosition(pub i32);

/// A pressure in one of the train's air vessels.
#[derive(Debug)]
pub struct Pressure(pub i32);

/// Where the safety device wants the handles of the train to stand.
#[derive(Debug)]
pub struct Handles {
    pub brake: NotchPosition,
    pub power: NotchPosition,
    pub reverser: ReverserPosition,
    pub constant_speed: ConstantSpeed,
}

} // verus!
