//! The types of value that the known messages carry.

use vstd::prelude::*;
use core::convert::Infallible;
use vstd::std_specs::convert::FromSpecImpl;
use crate::message::convert::ValueType;

verus! {

/// A number on the wire that stands for no value of an enumeration.
#[derive(Debug, Clone, Copy, PartialEq, Eq)]
pub struct EnumOutOfRange {
    pub enum_name: &'static str,
    pub value: u8,
}

/// A temperature in tenths of a degree Celsius.
#[derive(Debug, Clone, Copy, PartialEq, Eq, Structural, PartialOrd, Ord)]
pub struct Celsius(pub u16);

impl ValueType for Celsius {
    type Err = Infallible;

    type Repr = u16;

    open spec fn repr_of(&self) -> u16 {
        self.0
    }

    open spec fn of_repr(repr: u16) -> Option<Celsius> {
        Some(Celsius(repr))
    }

    fn try_from_repr(value: u16) -> (r: Result<Self, Infallible>) {
        Ok(Celsius(value))
    }

    fn to_repr(&self) -> (repr: u16) {
        self.0
    }
}

/// A temperature in tenths of a degree Celsius that travels in the high
/// 16 bits of a 32-bit value.
#[derive(Debug, Clone, Copy, PartialEq, Eq, Structural, PartialOrd, Ord)]
pub struct CelsiusLvar(pub u16);

impl From<CelsiusLvar> for Celsius {
    fn from(value: CelsiusLvar) -> (celsius: Self) {
        Celsius(value.0)
    }
}

impl FromSpecImpl<CelsiusLvar> for Celsius {
    open spec fn obeys_from_spec() -> bool {
        true
    }

    open spec fn from_spec(value: CelsiusLvar) -> Celsius {
        Celsius(value.0)
    }
}

impl ValueType for CelsiusLvar {
    type Err = Infallible;

    type Repr = u32;

    open spec fn repr_of(&self) -> u32 {
        (self.0 as u32 * 65536) as u32
    }

    open spec fn of_repr(repr: u32) -> Option<CelsiusLvar> {
        Some(CelsiusLvar((repr / 65536) as u16))
    }

    fn try_from_repr(value: u32) -> (r: Result<Self, Infallible>) {
        Ok(CelsiusLvar((value / 65536) as u16))
    }

    fn to_repr(&self) -> (repr: u32) {
        (self.0 as u32) * 65536
    }
}

#[derive(Debug, Clone, Copy, PartialEq, Eq, Structural)]
pub enum PowerSetting {
    Off,
    On,
    On2,
}

impl ValueType for PowerSetting {
    type Err = EnumOutOfRange;

    type Repr = u8;

    open spec fn repr_of(&self) -> u8 {
        match self {
            PowerSetting::Off => 0,
            PowerSetting::On => 1,
            PowerSetting::On2 => 2,
        }
    }

    open spec fn of_repr(repr: u8) -> Option<PowerSetting> {
        if repr == 0 {
            Some(PowerSetting::Off)
        } else if repr == 1 {
            Some(PowerSetting::On)
        } else if repr == 2 {
            Some(PowerSetting::On2)
        } else {
            None
        }
    }

    fn try_from_repr(repr: u8) -> (r: Result<Self, EnumOutOfRange>) {
        match repr {
            0 => Ok(PowerSetting::Off),
            1 => Ok(PowerSetting::On),
            2 => Ok(PowerSetting::On2),
            _ => Err(EnumOutOfRange { enum_name: "PowerSetting", value: repr }),
        }
    }

    fn to_repr(&self) -> (repr: u8) {
        match self {
            PowerSetting::Off => 0,
            PowerSetting::On => 1,
            PowerSetting::On2 => 2,
        }
    }
}

#[derive(Debug, Clone, Copy, PartialEq, Eq, Structural)]
pub enum OperationMode {
    Auto,
    Cool,
    Dry,
    Fan,
    Heat,
    AutoCool,
    AutoDry,
    AutoFan,
    AutoHeat,
}

impl ValueType for OperationMode {
    type Err = EnumOutOfRange;

    type Repr = u8;

    open spec fn repr_of(&self) -> u8 {
        match self {
            OperationMode::Auto => 0,
            OperationMode::Cool => 1,
            OperationMode::Dry => 2,
            OperationMode::Fan => 3,
            OperationMode::Heat => 4,
            OperationMode::AutoCool => 11,
            OperationMode::AutoDry => 12,
            OperationMode::AutoFan => 13,
            OperationMode::AutoHeat => 14,
        }
    }

    open spec fn of_repr(repr: u8) -> Option<OperationMode> {
        if repr == 0 {
            Some(OperationMode::Auto)
        } else if repr == 1 {
            Some(OperationMode::Cool)
        } else if repr == 2 {
            Some(OperationMode::Dry)
        } else if repr == 3 {
            Some(OperationMode::Fan)
        } else if repr == 4 {
            Some(OperationMode::Heat)
        } else if repr == 11 {
            Some(OperationMode::AutoCool)
        } else if repr == 12 {
            Some(OperationMode::AutoDry)
        } else if repr == 13 {
            Some(OperationMode::AutoFan)
        } else if repr == 14 {
            Some(OperationMode::AutoHeat)
        } else {
            None
        }
    }

    fn try_from_repr(repr: u8) -> (r: Result<Self, EnumOutOfRange>) {
        match repr {
            0 => Ok(OperationMode::Auto),
            1 => Ok(OperationMode::Cool),
            2 => Ok(OperationMode::Dry),
            3 => Ok(OperationMode::Fan),
            4 => Ok(OperationMode::Heat),
            11 => Ok(OperationMode::AutoCool),
            12 => Ok(OperationMode::AutoDry),
            13 => Ok(OperationMode::AutoFan),
            14 => Ok(OperationMode::AutoHeat),
            _ => Err(EnumOutOfRange { enum_name: "OperationMode", value: repr }),
        }
    }

    fn to_repr(&self) -> (repr: u8) {
        match self {
            OperationMode::Auto => 0,
            OperationMode::Cool => 1,
            OperationMode::Dry => 2,
            OperationMode::Fan => 3,
            OperationMode::Heat => 4,
            OperationMode::AutoCool => 11,
            OperationMode::AutoDry => 12,
            OperationMode::AutoFan => 13,
            OperationMode::AutoHeat => 14,
        }
    }
}

#[derive(Debug, Clone, Copy, PartialEq, Eq, Structural)]
pub enum FanSetting {
    Auto,
    Low,
    Medium,
    High,
}

impl ValueType for FanSetting {
    type Err = EnumOutOfRange;

    type Repr = u8;

    open spec fn repr_of(&self) -> u8 {
        match self {
            FanSetting::Auto => 0,
            FanSetting::Low => 1,
            FanSetting::Medium => 2,
            FanSetting::High => 3,
        }
    }

    open spec fn of_repr(repr: u8) -> Option<FanSetting> {
        if repr == 0 {
            Some(FanSetting::Auto)
        } else if repr == 1 {
            Some(FanSetting::Low)
        } else if repr == 2 {
            Some(FanSetting::Medium)
        } else if repr == 3 {
            Some(FanSetting::High)
        } else {
            None
        }
    }

    fn try_from_repr(repr: u8) -> (r: Result<Self, EnumOutOfRange>) {
        match repr {
            0 => Ok(FanSetting::Auto),
            1 => Ok(FanSetting::Low),
            2 => Ok(FanSetting::Medium),
            3 => Ok(FanSetting::High),
            _ => Err(EnumOutOfRange { enum_name: "FanSetting", value: repr }),
        }
    }

    fn to_repr(&self) -> (repr: u8) {
        match self {
            FanSetting::Auto => 0,
            FanSetting::Low => 1,
            FanSetting::Medium => 2,
            FanSetting::High => 3,
        }
    }
}

impl ValueType for bool {
    type Err = EnumOutOfRange;

    type Repr = u8;

    open spec fn repr_of(&self) -> u8 {
        if *self {
            1
        } else {
            0
        }
    }

    open spec fn of_repr(repr: u8) -> Option<bool> {
        if repr == 0 {
            Some(false)
        } else if repr == 1 {
            Some(true)
        } else {
            None
        }
    }

    fn try_from_repr(repr: u8) -> (r: Result<Self, EnumOutOfRange>) {
        match repr {
            0 => Ok(false),
            1 => Ok(true),
            _ => Err(EnumOutOfRange { enum_name: "bool", value: repr }),
        }
    }

    fn to_repr(&self) -> (repr: u8) {
        if *self {
            1
        } else {
            0
        }
    }
}

} // verus!
