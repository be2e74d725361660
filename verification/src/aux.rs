//! What a copter does with its auxiliary switches.
//!
//! A receiver channel can be given an option number; the switch on it is read
//! as low, middle or high, and the vehicle acts on the position. What is
//! decided here is which options the vehicle knows, which of them run at boot,
//! and what each position asks the vehicle to do. Almost every flight-mode
//! option acts on an edge: high enters the mode, while low or middle only hands
//! control back to the flight-mode switch when the aircraft is already in that
//! mode. Flip is the exception: releasing it does not touch the mode switch.

use vstd::prelude::*;

verus! {

/// Reason code of a mode change asked for by an auxiliary switch.
pub const MODE_REASON_AUX_FUNCTION: u8 = 53;

/// Reason code of a mode change asked for by the flight-mode switch.
pub const MODE_REASON_RC_COMMAND: u8 = 1;

/// Mode number of Stabilize.
pub const MODE_STABILIZE: u8 = 0;
/// Mode number of Acro.
pub const MODE_ACRO: u8 = 1;
/// Mode number of AltHold.
pub const MODE_ALT_HOLD: u8 = 2;
/// Mode number of Auto.
pub const MODE_AUTO: u8 = 3;
/// Mode number of Guided.
pub const MODE_GUIDED: u8 = 4;
/// Mode number of Loiter.
pub const MODE_LOITER: u8 = 5;
/// Mode number of RTL.
pub const MODE_RTL: u8 = 6;
/// Mode number of Circle.
pub const MODE_CIRCLE: u8 = 7;
/// Mode number of Land.
pub const MODE_LAND: u8 = 9;
/// Mode number of Drift.
pub const MODE_DRIFT: u8 = 11;
/// Mode number of Flip.
pub const MODE_FLIP: u8 = 14;
/// Mode number of AutoTune.
pub const MODE_AUTOTUNE: u8 = 15;
/// Mode number of PosHold.
pub const MODE_POSHOLD: u8 = 16;
/// Mode number of Brake.
pub const MODE_BRAKE: u8 = 17;
/// Mode number of Throw.
pub const MODE_THROW: u8 = 18;
/// Mode number of Smart RTL.
pub const MODE_SMART_RTL: u8 = 21;
/// Mode number of FlowHold.
pub const MODE_FLOWHOLD: u8 = 22;
/// Mode number of Follow.
pub const MODE_FOLLOW: u8 = 23;
/// Mode number of ZigZag.
pub const MODE_ZIGZAG: u8 = 24;
/// Mode number of Auto RTL.
pub const MODE_AUTO_RTL: u8 = 27;
/// Mode number of Turtle.
pub const MODE_TURTLE: u8 = 28;

/// Throttle-behaviour bit: the throttle stick is sprung to the centre.
pub const THR_BEHAVE_FEEDBACK_FROM_MID_STICK: u8 = 1;

/// Default channel of the flight-mode switch.
pub const CH_MODE_DEFAULT: i8 = 5;

/// Number of positions of the flight-mode switch.
pub const NUM_FLIGHT_MODES: u8 = 6;

/// Number of receiver channels.
pub const NUM_RC_CHANNELS: i8 = 16;

/// Full-scale input of the roll, pitch and yaw sticks, in centidegrees.
pub const ROLL_PITCH_YAW_INPUT_MAX: u16 = 4500;

/// Full-scale input of the throttle stick.
pub const THROTTLE_CONTROL_RANGE: u16 = 1000;

/// Dead zone of the roll and pitch sticks, in microseconds.
pub const DEADZONE_ROLL_PITCH: u16 = 20;

/// Dead zone of a multicopter's throttle stick.
pub const DEADZONE_THROTTLE_MULTICOPTER: u16 = 30;

/// Dead zone of a multicopter's yaw stick.
pub const DEADZONE_YAW_MULTICOPTER: u16 = 20;

/// Dead zone of a helicopter's collective.
pub const DEADZONE_THROTTLE_HELI: u16 = 10;

/// Dead zone of a helicopter's yaw stick.
pub const DEADZONE_YAW_HELI: u16 = 15;

/// Default lowest pulse of a channel, in microseconds.
pub const RC_CHAN_MIN_DEFAULT: u16 = 1100;

/// Default centre pulse of a channel.
pub const RC_CHAN_TRIM_DEFAULT: u16 = 1500;

/// Default highest pulse of a channel.
pub const RC_CHAN_MAX_DEFAULT: u16 = 1900;

/// Default dead zone of a channel.
pub const RC_CHAN_DEADZONE_DEFAULT: u16 = 0;

/// Where a debounced switch stands.
#[derive(Debug, Clone, Copy, PartialEq, Eq, Structural)]
pub enum AuxSwitchPos {
    /// Low.
    Low,
    /// Centre.
    Middle,
    /// High.
    High,
}

/// Calibration of one receiver channel.
#[derive(Debug, Clone, Copy, PartialEq, Eq, Structural)]
pub struct RcChannel {
    /// Lowest pulse, in microseconds.
    pub radio_min: u16,
    /// Centre pulse.
    pub radio_trim: u16,
    /// Highest pulse.
    pub radio_max: u16,
    /// Dead zone around the centre (sticks) or above the lowest pulse
    /// (throttle).
    pub deadzone: u16,
    /// Whether the channel is reversed.
    pub reversed: bool,
}

/// The option numbers a copter channel can be assigned and the vehicle handles.
#[derive(Debug, Clone, Copy, PartialEq, Eq, Structural)]
pub enum CopterAuxFunc {
    /// 2: Flip mode while the switch is high.
    Flip,
    /// 3: Simple mode, two positions: low off, middle or high on.
    SimpleMode,
    /// 4: Return to launch.
    Rtl,
    /// 5: Store the current stick lean as trim.
    SaveTrim,
    /// 7: Record the current position as the next mission waypoint.
    SaveWp,
    /// 10: Use the downward rangefinder.
    Rangefinder,
    /// 12: Point back to the armed heading (not handled by the vehicle).
    ResetToArmedYaw,
    /// 13: Simple and super-simple, three positions.
    SuperSimpleMode,
    /// 14: Acro trainer level.
    AcroTrainer,
    /// 16: Auto mode.
    Auto,
    /// 17: Autotune mode.
    AutotuneMode,
    /// 18: Land mode.
    Land,
    /// 21: Arm the parachute.
    ParachuteEnable,
    /// 22: Release the parachute.
    ParachuteRelease,
    /// 23: Parachute on a three-position switch.
    Parachute3pos,
    /// 25: Body-frame feed-forward of the attitude controller.
    AttconFeedfwd,
    /// 26: Acceleration limiting of the attitude controller.
    AttconAccelLim,
    /// 32: Motor interlock.
    MotorInterlock,
    /// 33: Brake mode.
    Brake,
    /// 37: Throw mode.
    Throw,
    /// 39: Precision loiter over a landing target.
    PrecisionLoiter,
    /// 42: Smart return to launch.
    SmartRtl,
    /// 43: Inverted flight.
    Inverted,
    /// 44: Winch enable.
    WinchEnable,
    /// 45: Winch rate (read elsewhere).
    WinchControl,
    /// 47: First user hook.
    UserFunc1,
    /// 48: Second user hook.
    UserFunc2,
    /// 49: Third user hook.
    UserFunc3,
    /// 52: Acro mode.
    Acro,
    /// 55: Guided mode.
    Guided,
    /// 56: Loiter mode.
    Loiter,
    /// 57: Follow mode.
    Follow,
    /// 60: ZigZag mode.
    Zigzag,
    /// 61: ZigZag: store a destination or return to manual control.
    ZigzagSaveWp,
    /// 68: Stabilize mode.
    Stabilize,
    /// 69: PosHold mode.
    Poshold,
    /// 70: AltHold mode.
    Althold,
    /// 71: FlowHold mode.
    Flowhold,
    /// 72: Circle mode.
    Circle,
    /// 73: Drift mode.
    Drift,
    /// 75: Which surface the rangefinder tracks.
    SurfaceTracking,
    /// 76: Standby.
    Standby,
    /// 83: ZigZag automatic sweeps.
    ZigzagAuto,
    /// 84: Air mode.
    AirMode,
    /// 99: Auto mode's return leg.
    AutoRtl,
    /// 109: The custom controller.
    CustomController,
    /// 151: Turtle mode.
    Turtle,
    /// 152: Reset the simple-mode heading.
    SimpleHeadingReset,
    /// 154: Arm or disarm, arming with air mode.
    ArmDisarmAirMode,
    /// 159: Force the flying state.
    ForceFlying,
    /// 160: Allow weathervaning.
    WeatherVaneEnable,
    /// 161: Start the turbine of a helicopter.
    TurbineStart,
    /// 178: Pause or resume the current mode.
    FlightmodePause,
    /// 180: Fly the tuned or the original gains after an autotune.
    AutotuneTestGains,
    /// 182: Automatic trim of the attitude reference.
    AhrsAutoTrim,
    /// 219: Transmitter tuning, first knob.
    TransmitterTuning,
    /// 220: Transmitter tuning, second knob.
    TransmitterTuning2,
}

/// The option number stored for a function.
pub open spec fn aux_option_number(f: CopterAuxFunc) -> u16 {
    match f {
        CopterAuxFunc::Flip => 2,
        CopterAuxFunc::SimpleMode => 3,
        CopterAuxFunc::Rtl => 4,
        CopterAuxFunc::SaveTrim => 5,
        CopterAuxFunc::SaveWp => 7,
        CopterAuxFunc::Rangefinder => 10,
        CopterAuxFunc::ResetToArmedYaw => 12,
        CopterAuxFunc::SuperSimpleMode => 13,
        CopterAuxFunc::AcroTrainer => 14,
        CopterAuxFunc::Auto => 16,
        CopterAuxFunc::AutotuneMode => 17,
        CopterAuxFunc::Land => 18,
        CopterAuxFunc::ParachuteEnable => 21,
        CopterAuxFunc::ParachuteRelease => 22,
        CopterAuxFunc::Parachute3pos => 23,
        CopterAuxFunc::AttconFeedfwd => 25,
        CopterAuxFunc::AttconAccelLim => 26,
        CopterAuxFunc::MotorInterlock => 32,
        CopterAuxFunc::Brake => 33,
        CopterAuxFunc::Throw => 37,
        CopterAuxFunc::PrecisionLoiter => 39,
        CopterAuxFunc::SmartRtl => 42,
        CopterAuxFunc::Inverted => 43,
        CopterAuxFunc::WinchEnable => 44,
        CopterAuxFunc::WinchControl => 45,
        CopterAuxFunc::UserFunc1 => 47,
        CopterAuxFunc::UserFunc2 => 48,
        CopterAuxFunc::UserFunc3 => 49,
        CopterAuxFunc::Acro => 52,
        CopterAuxFunc::Guided => 55,
        CopterAuxFunc::Loiter => 56,
        CopterAuxFunc::Follow => 57,
        CopterAuxFunc::Zigzag => 60,
        CopterAuxFunc::ZigzagSaveWp => 61,
        CopterAuxFunc::Stabilize => 68,
        CopterAuxFunc::Poshold => 69,
        CopterAuxFunc::Althold => 70,
        CopterAuxFunc::Flowhold => 71,
        CopterAuxFunc::Circle => 72,
        CopterAuxFunc::Drift => 73,
        CopterAuxFunc::SurfaceTracking => 75,
        CopterAuxFunc::Standby => 76,
        CopterAuxFunc::ZigzagAuto => 83,
        CopterAuxFunc::AirMode => 84,
        CopterAuxFunc::AutoRtl => 99,
        CopterAuxFunc::CustomController => 109,
        CopterAuxFunc::Turtle => 151,
        CopterAuxFunc::SimpleHeadingReset => 152,
        CopterAuxFunc::ArmDisarmAirMode => 154,
        CopterAuxFunc::ForceFlying => 159,
        CopterAuxFunc::WeatherVaneEnable => 160,
        CopterAuxFunc::TurbineStart => 161,
        CopterAuxFunc::FlightmodePause => 178,
        CopterAuxFunc::AutotuneTestGains => 180,
        CopterAuxFunc::AhrsAutoTrim => 182,
        CopterAuxFunc::TransmitterTuning => 219,
        CopterAuxFunc::TransmitterTuning2 => 220,
    }
}

/// The function an option number denotes, if the vehicle handles it.
pub open spec fn aux_func_from_option(value: u16) -> Option<CopterAuxFunc> {
    if value == 2 {
        Some(CopterAuxFunc::Flip)
    } else if value == 3 {
        Some(CopterAuxFunc::SimpleMode)
    } else if value == 4 {
        Some(CopterAuxFunc::Rtl)
    } else if value == 5 {
        Some(CopterAuxFunc::SaveTrim)
    } else if value == 7 {
        Some(CopterAuxFunc::SaveWp)
    } else if value == 10 {
        Some(CopterAuxFunc::Rangefinder)
    } else if value == 12 {
        Some(CopterAuxFunc::ResetToArmedYaw)
    } else if value == 13 {
        Some(CopterAuxFunc::SuperSimpleMode)
    } else if value == 14 {
        Some(CopterAuxFunc::AcroTrainer)
    } else if value == 16 {
        Some(CopterAuxFunc::Auto)
    } else if value == 17 {
        Some(CopterAuxFunc::AutotuneMode)
    } else if value == 18 {
        Some(CopterAuxFunc::Land)
    } else if value == 21 {
        Some(CopterAuxFunc::ParachuteEnable)
    } else if value == 22 {
        Some(CopterAuxFunc::ParachuteRelease)
    } else if value == 23 {
        Some(CopterAuxFunc::Parachute3pos)
    } else if value == 25 {
        Some(CopterAuxFunc::AttconFeedfwd)
    } else if value == 26 {
        Some(CopterAuxFunc::AttconAccelLim)
    } else if value == 32 {
        Some(CopterAuxFunc::MotorInterlock)
    } else if value == 33 {
        Some(CopterAuxFunc::Brake)
    } else if value == 37 {
        Some(CopterAuxFunc::Throw)
    } else if value == 39 {
        Some(CopterAuxFunc::PrecisionLoiter)
    } else if value == 42 {
        Some(CopterAuxFunc::SmartRtl)
    } else if value == 43 {
        Some(CopterAuxFunc::Inverted)
    } else if value == 44 {
        Some(CopterAuxFunc::WinchEnable)
    } else if value == 45 {
        Some(CopterAuxFunc::WinchControl)
    } else if value == 47 {
        Some(CopterAuxFunc::UserFunc1)
    } else if value == 48 {
        Some(CopterAuxFunc::UserFunc2)
    } else if value == 49 {
        Some(CopterAuxFunc::UserFunc3)
    } else if value == 52 {
        Some(CopterAuxFunc::Acro)
    } else if value == 55 {
        Some(CopterAuxFunc::Guided)
    } else if value == 56 {
        Some(CopterAuxFunc::Loiter)
    } else if value == 57 {
        Some(CopterAuxFunc::Follow)
    } else if value == 60 {
        Some(CopterAuxFunc::Zigzag)
    } else if value == 61 {
        Some(CopterAuxFunc::ZigzagSaveWp)
    } else if value == 68 {
        Some(CopterAuxFunc::Stabilize)
    } else if value == 69 {
        Some(CopterAuxFunc::Poshold)
    } else if value == 70 {
        Some(CopterAuxFunc::Althold)
    } else if value == 71 {
        Some(CopterAuxFunc::Flowhold)
    } else if value == 72 {
        Some(CopterAuxFunc::Circle)
    } else if value == 73 {
        Some(CopterAuxFunc::Drift)
    } else if value == 75 {
        Some(CopterAuxFunc::SurfaceTracking)
    } else if value == 76 {
        Some(CopterAuxFunc::Standby)
    } else if value == 83 {
        Some(CopterAuxFunc::ZigzagAuto)
    } else if value == 84 {
        Some(CopterAuxFunc::AirMode)
    } else if value == 99 {
        Some(CopterAuxFunc::AutoRtl)
    } else if value == 109 {
        Some(CopterAuxFunc::CustomController)
    } else if value == 151 {
        Some(CopterAuxFunc::Turtle)
    } else if value == 152 {
        Some(CopterAuxFunc::SimpleHeadingReset)
    } else if value == 154 {
        Some(CopterAuxFunc::ArmDisarmAirMode)
    } else if value == 159 {
        Some(CopterAuxFunc::ForceFlying)
    } else if value == 160 {
        Some(CopterAuxFunc::WeatherVaneEnable)
    } else if value == 161 {
        Some(CopterAuxFunc::TurbineStart)
    } else if value == 178 {
        Some(CopterAuxFunc::FlightmodePause)
    } else if value == 180 {
        Some(CopterAuxFunc::AutotuneTestGains)
    } else if value == 182 {
        Some(CopterAuxFunc::AhrsAutoTrim)
    } else if value == 219 {
        Some(CopterAuxFunc::TransmitterTuning)
    } else if value == 220 {
        Some(CopterAuxFunc::TransmitterTuning2)
    } else {
        None
    }
}

impl CopterAuxFunc {
    /// Reads a stored option number. Numbers the vehicle does not handle give
    /// `None`.
    pub fn from_option(value: u16) -> (r: Option<CopterAuxFunc>)
        ensures
            r == aux_func_from_option(value),
    {
        match value {
            2 => Some(CopterAuxFunc::Flip),
            3 => Some(CopterAuxFunc::SimpleMode),
            4 => Some(CopterAuxFunc::Rtl),
            5 => Some(CopterAuxFunc::SaveTrim),
            7 => Some(CopterAuxFunc::SaveWp),
            10 => Some(CopterAuxFunc::Rangefinder),
            12 => Some(CopterAuxFunc::ResetToArmedYaw),
            13 => Some(CopterAuxFunc::SuperSimpleMode),
            14 => Some(CopterAuxFunc::AcroTrainer),
            16 => Some(CopterAuxFunc::Auto),
            17 => Some(CopterAuxFunc::AutotuneMode),
            18 => Some(CopterAuxFunc::Land),
            21 => Some(CopterAuxFunc::ParachuteEnable),
            22 => Some(CopterAuxFunc::ParachuteRelease),
            23 => Some(CopterAuxFunc::Parachute3pos),
            25 => Some(CopterAuxFunc::AttconFeedfwd),
            26 => Some(CopterAuxFunc::AttconAccelLim),
            32 => Some(CopterAuxFunc::MotorInterlock),
            33 => Some(CopterAuxFunc::Brake),
            37 => Some(CopterAuxFunc::Throw),
            39 => Some(CopterAuxFunc::PrecisionLoiter),
            42 => Some(CopterAuxFunc::SmartRtl),
            43 => Some(CopterAuxFunc::Inverted),
            44 => Some(CopterAuxFunc::WinchEnable),
            45 => Some(CopterAuxFunc::WinchControl),
            47 => Some(CopterAuxFunc::UserFunc1),
            48 => Some(CopterAuxFunc::UserFunc2),
            49 => Some(CopterAuxFunc::UserFunc3),
            52 => Some(CopterAuxFunc::Acro),
            55 => Some(CopterAuxFunc::Guided),
            56 => Some(CopterAuxFunc::Loiter),
            57 => Some(CopterAuxFunc::Follow),
            60 => Some(CopterAuxFunc::Zigzag),
            61 => Some(CopterAuxFunc::ZigzagSaveWp),
            68 => Some(CopterAuxFunc::Stabilize),
            69 => Some(CopterAuxFunc::Poshold),
            70 => Some(CopterAuxFunc::Althold),
            71 => Some(CopterAuxFunc::Flowhold),
            72 => Some(CopterAuxFunc::Circle),
            73 => Some(CopterAuxFunc::Drift),
            75 => Some(CopterAuxFunc::SurfaceTracking),
            76 => Some(CopterAuxFunc::Standby),
            83 => Some(CopterAuxFunc::ZigzagAuto),
            84 => Some(CopterAuxFunc::AirMode),
            99 => Some(CopterAuxFunc::AutoRtl),
            109 => Some(CopterAuxFunc::CustomController),
            151 => Some(CopterAuxFunc::Turtle),
            152 => Some(CopterAuxFunc::SimpleHeadingReset),
            154 => Some(CopterAuxFunc::ArmDisarmAirMode),
            159 => Some(CopterAuxFunc::ForceFlying),
            160 => Some(CopterAuxFunc::WeatherVaneEnable),
            161 => Some(CopterAuxFunc::TurbineStart),
            178 => Some(CopterAuxFunc::FlightmodePause),
            180 => Some(CopterAuxFunc::AutotuneTestGains),
            182 => Some(CopterAuxFunc::AhrsAutoTrim),
            219 => Some(CopterAuxFunc::TransmitterTuning),
            220 => Some(CopterAuxFunc::TransmitterTuning2),
            _ => None,
        }
    }

    /// The option number of this function.
    pub fn option(self) -> (r: u16)
        ensures
            r == aux_option_number(self),
    {
        match self {
            CopterAuxFunc::Flip => 2,
            CopterAuxFunc::SimpleMode => 3,
            CopterAuxFunc::Rtl => 4,
            CopterAuxFunc::SaveTrim => 5,
            CopterAuxFunc::SaveWp => 7,
            CopterAuxFunc::Rangefinder => 10,
            CopterAuxFunc::ResetToArmedYaw => 12,
            CopterAuxFunc::SuperSimpleMode => 13,
            CopterAuxFunc::AcroTrainer => 14,
            CopterAuxFunc::Auto => 16,
            CopterAuxFunc::AutotuneMode => 17,
            CopterAuxFunc::Land => 18,
            CopterAuxFunc::ParachuteEnable => 21,
            CopterAuxFunc::ParachuteRelease => 22,
            CopterAuxFunc::Parachute3pos => 23,
            CopterAuxFunc::AttconFeedfwd => 25,
            CopterAuxFunc::AttconAccelLim => 26,
            CopterAuxFunc::MotorInterlock => 32,
            CopterAuxFunc::Brake => 33,
            CopterAuxFunc::Throw => 37,
            CopterAuxFunc::PrecisionLoiter => 39,
            CopterAuxFunc::SmartRtl => 42,
            CopterAuxFunc::Inverted => 43,
            CopterAuxFunc::WinchEnable => 44,
            CopterAuxFunc::WinchControl => 45,
            CopterAuxFunc::UserFunc1 => 47,
            CopterAuxFunc::UserFunc2 => 48,
            CopterAuxFunc::UserFunc3 => 49,
            CopterAuxFunc::Acro => 52,
            CopterAuxFunc::Guided => 55,
            CopterAuxFunc::Loiter => 56,
            CopterAuxFunc::Follow => 57,
            CopterAuxFunc::Zigzag => 60,
            CopterAuxFunc::ZigzagSaveWp => 61,
            CopterAuxFunc::Stabilize => 68,
            CopterAuxFunc::Poshold => 69,
            CopterAuxFunc::Althold => 70,
            CopterAuxFunc::Flowhold => 71,
            CopterAuxFunc::Circle => 72,
            CopterAuxFunc::Drift => 73,
            CopterAuxFunc::SurfaceTracking => 75,
            CopterAuxFunc::Standby => 76,
            CopterAuxFunc::ZigzagAuto => 83,
            CopterAuxFunc::AirMode => 84,
            CopterAuxFunc::AutoRtl => 99,
            CopterAuxFunc::CustomController => 109,
            CopterAuxFunc::Turtle => 151,
            CopterAuxFunc::SimpleHeadingReset => 152,
            CopterAuxFunc::ArmDisarmAirMode => 154,
            CopterAuxFunc::ForceFlying => 159,
            CopterAuxFunc::WeatherVaneEnable => 160,
            CopterAuxFunc::TurbineStart => 161,
            CopterAuxFunc::FlightmodePause => 178,
            CopterAuxFunc::AutotuneTestGains => 180,
            CopterAuxFunc::AhrsAutoTrim => 182,
            CopterAuxFunc::TransmitterTuning => 219,
            CopterAuxFunc::TransmitterTuning2 => 220,
        }
    }

}
/// The mode an option engages when it is a mode-changing switch. Flip is not
/// one of them: it has its own handling.
pub open spec fn aux_change_mode(f: CopterAuxFunc) -> Option<u8> {
    match f {
        CopterAuxFunc::Rtl => Some(MODE_RTL),
        CopterAuxFunc::Auto => Some(MODE_AUTO),
        CopterAuxFunc::AutotuneMode => Some(MODE_AUTOTUNE),
        CopterAuxFunc::Land => Some(MODE_LAND),
        CopterAuxFunc::Brake => Some(MODE_BRAKE),
        CopterAuxFunc::Throw => Some(MODE_THROW),
        CopterAuxFunc::SmartRtl => Some(MODE_SMART_RTL),
        CopterAuxFunc::Acro => Some(MODE_ACRO),
        CopterAuxFunc::Guided => Some(MODE_GUIDED),
        CopterAuxFunc::Loiter => Some(MODE_LOITER),
        CopterAuxFunc::Follow => Some(MODE_FOLLOW),
        CopterAuxFunc::Zigzag => Some(MODE_ZIGZAG),
        CopterAuxFunc::Stabilize => Some(MODE_STABILIZE),
        CopterAuxFunc::Poshold => Some(MODE_POSHOLD),
        CopterAuxFunc::Althold => Some(MODE_ALT_HOLD),
        CopterAuxFunc::Flowhold => Some(MODE_FLOWHOLD),
        CopterAuxFunc::Circle => Some(MODE_CIRCLE),
        CopterAuxFunc::Drift => Some(MODE_DRIFT),
        CopterAuxFunc::AutoRtl => Some(MODE_AUTO_RTL),
        CopterAuxFunc::Turtle => Some(MODE_TURTLE),
        _ => None,
    }
}

impl CopterAuxFunc {
    /// The flight mode this option engages, if it is a mode-changing switch.
    pub fn change_mode_number(self) -> (r: Option<u8>)
        ensures
            r == aux_change_mode(self),
    {
        match self {
            CopterAuxFunc::Rtl => Some(MODE_RTL),
            CopterAuxFunc::Auto => Some(MODE_AUTO),
            CopterAuxFunc::AutotuneMode => Some(MODE_AUTOTUNE),
            CopterAuxFunc::Land => Some(MODE_LAND),
            CopterAuxFunc::Brake => Some(MODE_BRAKE),
            CopterAuxFunc::Throw => Some(MODE_THROW),
            CopterAuxFunc::SmartRtl => Some(MODE_SMART_RTL),
            CopterAuxFunc::Acro => Some(MODE_ACRO),
            CopterAuxFunc::Guided => Some(MODE_GUIDED),
            CopterAuxFunc::Loiter => Some(MODE_LOITER),
            CopterAuxFunc::Follow => Some(MODE_FOLLOW),
            CopterAuxFunc::Zigzag => Some(MODE_ZIGZAG),
            CopterAuxFunc::Stabilize => Some(MODE_STABILIZE),
            CopterAuxFunc::Poshold => Some(MODE_POSHOLD),
            CopterAuxFunc::Althold => Some(MODE_ALT_HOLD),
            CopterAuxFunc::Flowhold => Some(MODE_FLOWHOLD),
            CopterAuxFunc::Circle => Some(MODE_CIRCLE),
            CopterAuxFunc::Drift => Some(MODE_DRIFT),
            CopterAuxFunc::AutoRtl => Some(MODE_AUTO_RTL),
            CopterAuxFunc::Turtle => Some(MODE_TURTLE),
            _ => None,
        }
    }
}

/// Every function the vehicle handles reads back from its own option number.
pub proof fn lemma_option_round_trip(f: CopterAuxFunc)
    ensures
        aux_func_from_option(aux_option_number(f)) == Some(f),
{
}

/// What setting up a channel at boot does with its option.
#[derive(Debug, Clone, Copy, PartialEq, Eq, Structural)]
pub enum InitAuxKind {
    /// Nothing: the option must not act on a switch that is already high at
    /// boot.
    NoInit,
    /// Act on the switch now, so the vehicle matches it before the first
    /// read.
    RunNow,
    /// Leave the option to the generic channel handling.
    DelegateToBase,
}

/// The options that do nothing at boot.
pub open spec fn aux_no_init(f: CopterAuxFunc) -> bool {
    match f {
        CopterAuxFunc::Althold | CopterAuxFunc::Auto | CopterAuxFunc::AutotuneMode
        | CopterAuxFunc::AutotuneTestGains | CopterAuxFunc::Brake | CopterAuxFunc::Circle
        | CopterAuxFunc::Drift | CopterAuxFunc::Flip | CopterAuxFunc::Flowhold
        | CopterAuxFunc::Follow | CopterAuxFunc::Guided | CopterAuxFunc::Land
        | CopterAuxFunc::Loiter | CopterAuxFunc::ParachuteRelease | CopterAuxFunc::Poshold
        | CopterAuxFunc::ResetToArmedYaw | CopterAuxFunc::Rtl | CopterAuxFunc::SaveTrim
        | CopterAuxFunc::SaveWp | CopterAuxFunc::SmartRtl | CopterAuxFunc::Stabilize
        | CopterAuxFunc::Throw | CopterAuxFunc::UserFunc1 | CopterAuxFunc::UserFunc2
        | CopterAuxFunc::UserFunc3 | CopterAuxFunc::WinchControl | CopterAuxFunc::Zigzag
        | CopterAuxFunc::ZigzagAuto | CopterAuxFunc::ZigzagSaveWp | CopterAuxFunc::Acro
        | CopterAuxFunc::AutoRtl | CopterAuxFunc::Turtle | CopterAuxFunc::SimpleHeadingReset
        | CopterAuxFunc::ArmDisarmAirMode | CopterAuxFunc::TurbineStart
        | CopterAuxFunc::FlightmodePause | CopterAuxFunc::AhrsAutoTrim => true,
        _ => false,
    }
}

/// Sorts an option for setting up a channel at boot. `transmitter_tuning_enabled`
/// says whether transmitter tuning is built in; without it the options that
/// would run at boot are left to the generic handling.
pub fn init_aux_kind(func: CopterAuxFunc, transmitter_tuning_enabled: bool) -> (r: InitAuxKind)
    ensures
        aux_no_init(func) ==> r == InitAuxKind::NoInit,
        !aux_no_init(func) && transmitter_tuning_enabled ==> r == InitAuxKind::RunNow,
        !aux_no_init(func) && !transmitter_tuning_enabled ==> r == InitAuxKind::DelegateToBase,
{
    match func {
        CopterAuxFunc::Althold | CopterAuxFunc::Auto | CopterAuxFunc::AutotuneMode
        | CopterAuxFunc::AutotuneTestGains | CopterAuxFunc::Brake | CopterAuxFunc::Circle
        | CopterAuxFunc::Drift | CopterAuxFunc::Flip | CopterAuxFunc::Flowhold
        | CopterAuxFunc::Follow | CopterAuxFunc::Guided | CopterAuxFunc::Land
        | CopterAuxFunc::Loiter | CopterAuxFunc::ParachuteRelease | CopterAuxFunc::Poshold
        | CopterAuxFunc::ResetToArmedYaw | CopterAuxFunc::Rtl | CopterAuxFunc::SaveTrim
        | CopterAuxFunc::SaveWp | CopterAuxFunc::SmartRtl | CopterAuxFunc::Stabilize
        | CopterAuxFunc::Throw | CopterAuxFunc::UserFunc1 | CopterAuxFunc::UserFunc2
        | CopterAuxFunc::UserFunc3 | CopterAuxFunc::WinchControl | CopterAuxFunc::Zigzag
        | CopterAuxFunc::ZigzagAuto | CopterAuxFunc::ZigzagSaveWp | CopterAuxFunc::Acro
        | CopterAuxFunc::AutoRtl | CopterAuxFunc::Turtle | CopterAuxFunc::SimpleHeadingReset
        | CopterAuxFunc::ArmDisarmAirMode | CopterAuxFunc::TurbineStart
        | CopterAuxFunc::FlightmodePause | CopterAuxFunc::AhrsAutoTrim => InitAuxKind::NoInit,
        _ => {
            if transmitter_tuning_enabled {
                InitAuxKind::RunNow
            } else {
                InitAuxKind::DelegateToBase
            }
        },
    }
}

/// Simple-mode setting of the vehicle.
#[derive(Debug, Clone, Copy, PartialEq, Eq, Structural)]
pub enum SimpleMode {
    /// 0: neither simple nor super-simple.
    Off,
    /// 1: simple.
    Simple,
    /// 2: super-simple.
    SuperSimple,
}

/// Air-mode setting of the vehicle.
#[derive(Debug, Clone, Copy, PartialEq, Eq, Structural)]
pub enum AirMode {
    /// 0: not set. The air-mode switch never writes it.
    Unset,
    /// 1: disabled; the switch low.
    Disabled,
    /// 2: enabled; the switch high.
    Enabled,
}

/// Acro trainer level set by its switch.
#[derive(Debug, Clone, Copy, PartialEq, Eq, Structural)]
pub enum AcroTrainer {
    /// 0: off; low.
    Off,
    /// 1: levelling; middle.
    Leveling,
    /// 2: levelling and limited lean; high.
    Limited,
}

/// The parachute on a three-position switch.
#[derive(Debug, Clone, Copy, PartialEq, Eq, Structural)]
pub enum Parachute3Pos {
    /// Low: disabled.
    Disable,
    /// Middle: enabled, not released.
    Enable,
    /// High: enabled and released.
    EnableAndRelease,
}

/// Surface the rangefinder tracks.
#[derive(Debug, Clone, Copy, PartialEq, Eq, Structural)]
pub enum SurfaceTracking {
    /// 0: no tracking; middle.
    Off,
    /// 1: the ground; low.
    Ground,
    /// 2: the ceiling; high.
    Ceiling,
}

/// What the winch switch does.
#[derive(Debug, Clone, Copy, PartialEq, Eq, Structural)]
pub enum WinchEnableAction {
    /// High: hold the line (zero rate).
    Stop,
    /// Low or middle: let the winch go slack.
    Relax,
}

/// What the ZigZag save switch does.
#[derive(Debug, Clone, Copy, PartialEq, Eq, Structural)]
pub enum ZigzagSaveWp {
    /// Low: store or fly to destination A.
    DestinationA,
    /// High: store or fly to destination B.
    DestinationB,
    /// Middle: give control back to the pilot.
    ReturnToManual,
}

/// What the ZigZag auto switch does.
#[derive(Debug, Clone, Copy, PartialEq, Eq, Structural)]
pub enum ZigzagAutoAction {
    /// High: run the sweeps.
    Run,
    /// Low or middle: suspend them.
    Suspend,
}

/// What the pause switch does.
#[derive(Debug, Clone, Copy, PartialEq, Eq, Structural)]
pub enum FlightmodePauseAction {
    /// High: pause the current mode.
    Pause,
    /// Low: resume it.
    Resume,
}

/// What the automatic-trim switch does.
#[derive(Debug, Clone, Copy, PartialEq, Eq, Structural)]
pub enum AhrsAutoTrimAction {
    /// High: start trimming (the mode must still allow it).
    Start,
    /// Low: store the trim, if trimming is running.
    SaveIfRunning,
}

/// What an auxiliary switch asks the vehicle to do.
#[derive(Debug, Clone, Copy, PartialEq, Eq, Structural)]
pub enum AuxLeftover {
    /// Nothing to do.
    Nothing,
    /// Change to a flight mode, for the auxiliary-switch reason.
    SetMode {
        /// The mode number.
        mode: u8,
    },
    /// Hand control back to the flight-mode switch.
    ResetModeSwitch,
    /// Set the simple mode.
    SetSimpleMode(SimpleMode),
    /// Set air mode, and tell Acro when it is built in.
    SetAirMode {
        /// The new air mode.
        air_mode: AirMode,
        /// Whether Acro is told that the switch moved.
        notify_acro: bool,
    },
    /// Force, or stop forcing, the flying state.
    SetForceFlying(bool),
    /// Set the acro trainer.
    SetAcroTrainer(AcroTrainer),
    /// Turn body-frame feed-forward on or off.
    SetAttconFeedfwd(bool),
    /// Turn acceleration limiting on or off.
    SetAttconAccelLim(bool),
    /// Set the motor interlock.
    SetMotorInterlock(bool),
    /// The rangefinder switch is high (the vehicle also needs a downward
    /// sensor).
    SetRangefinderHigh(bool),
    /// Enable or disable the parachute.
    SetParachuteEnabled(bool),
    /// The three-position parachute switch.
    SetParachute3pos(Parachute3Pos),
    /// Enable or disable precision loiter.
    SetPrecisionLoiter(bool),
    /// Enter or leave standby.
    SetStandby(bool),
    /// Choose the tracked surface.
    SetSurfaceTracking(SurfaceTracking),
    /// Stop or relax the winch.
    SetWinchEnable(WinchEnableAction),
    /// Switch the custom controller on or off.
    SetCustomController(bool),
    /// Allow or forbid weathervaning.
    SetWeatherVane(bool),
    /// Ask for or stop inverted flight.
    SetInverted(bool),
    /// Release the parachute.
    ReleaseParachute,
    /// Store the trim (the mode and a zero throttle are still needed).
    SaveTrim,
    /// Store a waypoint (refused in Auto, disarmed, and for a first waypoint
    /// at zero throttle).
    SaveWp,
    /// Call a user hook.
    CallUserFunc {
        /// Which hook: 1, 2 or 3.
        which: u8,
        /// The switch position handed to it.
        pos: AuxSwitchPos,
    },
    /// The ZigZag save switch.
    ZigzagSaveWp(ZigzagSaveWp),
    /// The ZigZag auto switch.
    ZigzagAuto(ZigzagAutoAction),
    /// Reset the simple-mode heading.
    ResetSimpleHeading,
    /// Arm or disarm, arming with air mode.
    ArmDisarmAirMode,
    /// Start or stop the turbine.
    SetTurbineStart(bool),
    /// Pause or resume the mode.
    FlightmodePause(FlightmodePauseAction),
    /// Hand the switch to the autotune gain test.
    AutotuneTestGains(AuxSwitchPos),
    /// Automatic trim.
    AhrsAutoTrim(AhrsAutoTrimAction),
    /// The vehicle owns the option but does nothing with it yet.
    Pending,
    /// Leave the option to the generic channel handling.
    DelegateToBase,
}

/// What a switch asks the vehicle to do.
#[derive(Debug, Clone, Copy, PartialEq, Eq, Structural)]
pub struct AuxDispatch {
    /// The channel's option.
    pub func: CopterAuxFunc,
    /// Where the switch stands.
    pub pos: AuxSwitchPos,
    /// Number of the mode the vehicle is in.
    pub current_mode: u8,
    /// Whether Acro is built in and must hear of air-mode changes.
    pub acro_air_mode_hook: bool,
}

/// A mode-changing switch: high asks for the mode; low or middle hands back to
/// the flight-mode switch only when the vehicle is already in that mode.
pub open spec fn change_mode_outcome(mode: u8, pos: AuxSwitchPos, current_mode: u8) -> AuxLeftover {
    if pos == AuxSwitchPos::High {
        AuxLeftover::SetMode { mode }
    } else if current_mode == mode {
        AuxLeftover::ResetModeSwitch
    } else {
        AuxLeftover::Nothing
    }
}

/// High on, low off, middle leaves the setting alone.
pub open spec fn high_low_hold(pos: AuxSwitchPos) -> Option<bool> {
    match pos {
        AuxSwitchPos::High => Some(true),
        AuxSwitchPos::Low => Some(false),
        AuxSwitchPos::Middle => None,
    }
}

/// What a switch asks for, option by option.
pub open spec fn aux_outcome(d: AuxDispatch) -> AuxLeftover {
    let pos = d.pos;
    let high = pos == AuxSwitchPos::High;
    match aux_change_mode(d.func) {
        Some(mode) => change_mode_outcome(mode, pos, d.current_mode),
        None => match d.func {
            CopterAuxFunc::Flip => if high {
                AuxLeftover::SetMode { mode: MODE_FLIP }
            } else {
                AuxLeftover::Nothing
            },
            CopterAuxFunc::SimpleMode => AuxLeftover::SetSimpleMode(
                if pos == AuxSwitchPos::Low { SimpleMode::Off } else { SimpleMode::Simple },
            ),
            CopterAuxFunc::SuperSimpleMode => AuxLeftover::SetSimpleMode(
                match pos {
                    AuxSwitchPos::Low => SimpleMode::Off,
                    AuxSwitchPos::Middle => SimpleMode::Simple,
                    AuxSwitchPos::High => SimpleMode::SuperSimple,
                },
            ),
            CopterAuxFunc::AirMode => match pos {
                AuxSwitchPos::High => AuxLeftover::SetAirMode {
                    air_mode: AirMode::Enabled,
                    notify_acro: d.acro_air_mode_hook,
                },
                AuxSwitchPos::Low => AuxLeftover::SetAirMode {
                    air_mode: AirMode::Disabled,
                    notify_acro: d.acro_air_mode_hook,
                },
                AuxSwitchPos::Middle => AuxLeftover::Nothing,
            },
            CopterAuxFunc::ForceFlying => match high_low_hold(pos) {
                Some(on) => AuxLeftover::SetForceFlying(on),
                None => AuxLeftover::Nothing,
            },
            CopterAuxFunc::AcroTrainer => AuxLeftover::SetAcroTrainer(
                match pos {
                    AuxSwitchPos::Low => AcroTrainer::Off,
                    AuxSwitchPos::Middle => AcroTrainer::Leveling,
                    AuxSwitchPos::High => AcroTrainer::Limited,
                },
            ),
            CopterAuxFunc::AttconFeedfwd => AuxLeftover::SetAttconFeedfwd(high),
            CopterAuxFunc::AttconAccelLim => AuxLeftover::SetAttconAccelLim(high),
            CopterAuxFunc::MotorInterlock => AuxLeftover::SetMotorInterlock(
                pos != AuxSwitchPos::Low,
            ),
            CopterAuxFunc::Rangefinder => AuxLeftover::SetRangefinderHigh(high),
            CopterAuxFunc::ParachuteEnable => AuxLeftover::SetParachuteEnabled(high),
            CopterAuxFunc::Parachute3pos => AuxLeftover::SetParachute3pos(
                match pos {
                    AuxSwitchPos::Low => Parachute3Pos::Disable,
                    AuxSwitchPos::Middle => Parachute3Pos::Enable,
                    AuxSwitchPos::High => Parachute3Pos::EnableAndRelease,
                },
            ),
            CopterAuxFunc::PrecisionLoiter => match high_low_hold(pos) {
                Some(on) => AuxLeftover::SetPrecisionLoiter(on),
                None => AuxLeftover::Nothing,
            },
            CopterAuxFunc::Standby => AuxLeftover::SetStandby(high),
            CopterAuxFunc::SurfaceTracking => AuxLeftover::SetSurfaceTracking(
                match pos {
                    AuxSwitchPos::Low => SurfaceTracking::Ground,
                    AuxSwitchPos::Middle => SurfaceTracking::Off,
                    AuxSwitchPos::High => SurfaceTracking::Ceiling,
                },
            ),
            CopterAuxFunc::WinchEnable => AuxLeftover::SetWinchEnable(
                if high { WinchEnableAction::Stop } else { WinchEnableAction::Relax },
            ),
            CopterAuxFunc::CustomController => AuxLeftover::SetCustomController(high),
            CopterAuxFunc::WeatherVaneEnable => match high_low_hold(pos) {
                Some(on) => AuxLeftover::SetWeatherVane(on),
                None => AuxLeftover::Nothing,
            },
            CopterAuxFunc::Inverted => match high_low_hold(pos) {
                Some(on) => AuxLeftover::SetInverted(on),
                None => AuxLeftover::Nothing,
            },
            CopterAuxFunc::ParachuteRelease => if high {
                AuxLeftover::ReleaseParachute
            } else {
                AuxLeftover::Nothing
            },
            CopterAuxFunc::WinchControl => AuxLeftover::Nothing,
            CopterAuxFunc::SaveTrim => if high {
                AuxLeftover::SaveTrim
            } else {
                AuxLeftover::Nothing
            },
            CopterAuxFunc::SaveWp => if high {
                AuxLeftover::SaveWp
            } else {
                AuxLeftover::Nothing
            },
            CopterAuxFunc::UserFunc1 => AuxLeftover::CallUserFunc { which: 1, pos },
            CopterAuxFunc::UserFunc2 => AuxLeftover::CallUserFunc { which: 2, pos },
            CopterAuxFunc::UserFunc3 => AuxLeftover::CallUserFunc { which: 3, pos },
            CopterAuxFunc::ZigzagSaveWp => if d.current_mode != MODE_ZIGZAG {
                AuxLeftover::Nothing
            } else {
                AuxLeftover::ZigzagSaveWp(
                    match pos {
                        AuxSwitchPos::Low => ZigzagSaveWp::DestinationA,
                        AuxSwitchPos::Middle => ZigzagSaveWp::ReturnToManual,
                        AuxSwitchPos::High => ZigzagSaveWp::DestinationB,
                    },
                )
            },
            CopterAuxFunc::ZigzagAuto => if d.current_mode != MODE_ZIGZAG {
                AuxLeftover::Nothing
            } else if high {
                AuxLeftover::ZigzagAuto(ZigzagAutoAction::Run)
            } else {
                AuxLeftover::ZigzagAuto(ZigzagAutoAction::Suspend)
            },
            CopterAuxFunc::SimpleHeadingReset => if high {
                AuxLeftover::ResetSimpleHeading
            } else {
                AuxLeftover::Nothing
            },
            CopterAuxFunc::ArmDisarmAirMode => AuxLeftover::ArmDisarmAirMode,
            CopterAuxFunc::TurbineStart => match high_low_hold(pos) {
                Some(on) => AuxLeftover::SetTurbineStart(on),
                None => AuxLeftover::Nothing,
            },
            CopterAuxFunc::FlightmodePause => match pos {
                AuxSwitchPos::High => AuxLeftover::FlightmodePause(FlightmodePauseAction::Pause),
                AuxSwitchPos::Low => AuxLeftover::FlightmodePause(FlightmodePauseAction::Resume),
                AuxSwitchPos::Middle => AuxLeftover::Nothing,
            },
            CopterAuxFunc::AutotuneTestGains => AuxLeftover::AutotuneTestGains(pos),
            CopterAuxFunc::AhrsAutoTrim => match pos {
                AuxSwitchPos::High => AuxLeftover::AhrsAutoTrim(AhrsAutoTrimAction::Start),
                AuxSwitchPos::Low => AuxLeftover::AhrsAutoTrim(AhrsAutoTrimAction::SaveIfRunning),
                AuxSwitchPos::Middle => AuxLeftover::Nothing,
            },
            CopterAuxFunc::ResetToArmedYaw => AuxLeftover::DelegateToBase,
            CopterAuxFunc::TransmitterTuning | CopterAuxFunc::TransmitterTuning2 => AuxLeftover::Nothing,
            _ => AuxLeftover::Pending,
        },
    }
}

/// A mode-changing switch. High always asks for the mode; low or middle only
/// hands control back to the flight-mode switch when the vehicle is already in
/// that mode, so releasing the switch never pulls the aircraft out of a mode
/// the pilot chose on the mode switch.
pub fn do_aux_function_change_mode(mode: u8, pos: AuxSwitchPos, current_mode: u8) -> (r: AuxLeftover)
    ensures
        r == change_mode_outcome(mode, pos, current_mode),
{
    match pos {
        AuxSwitchPos::High => AuxLeftover::SetMode { mode },
        AuxSwitchPos::Low | AuxSwitchPos::Middle => {
            if current_mode == mode {
                AuxLeftover::ResetModeSwitch
            } else {
                AuxLeftover::Nothing
            }
        },
    }
}

/// The air-mode switch: high enables, low disables, middle changes nothing (a
/// switch parked in the centre must not toggle air mode on every read).
pub fn do_aux_function_change_air_mode(pos: AuxSwitchPos) -> (r: Option<AirMode>)
    ensures
        pos == AuxSwitchPos::High ==> r == Some(AirMode::Enabled),
        pos == AuxSwitchPos::Low ==> r == Some(AirMode::Disabled),
        pos == AuxSwitchPos::Middle ==> r == None::<AirMode>,
{
    match pos {
        AuxSwitchPos::High => Some(AirMode::Enabled),
        AuxSwitchPos::Low => Some(AirMode::Disabled),
        AuxSwitchPos::Middle => None,
    }
}

/// The force-flying switch: high forces, low releases, middle holds.
pub fn do_aux_function_change_force_flying(pos: AuxSwitchPos) -> (r: Option<bool>)
    ensures
        r == high_low_hold(pos),
{
    match pos {
        AuxSwitchPos::High => Some(true),
        AuxSwitchPos::Low => Some(false),
        AuxSwitchPos::Middle => None,
    }
}

/// The acro trainer switch: low, middle and high are off, levelling and
/// limited.
pub fn do_aux_function_acro_trainer(pos: AuxSwitchPos) -> (r: AuxLeftover)
    ensures
        r == aux_outcome(AuxDispatch { func: CopterAuxFunc::AcroTrainer, pos, current_mode: 0, acro_air_mode_hook: false }),
{
    AuxLeftover::SetAcroTrainer(
        match pos {
            AuxSwitchPos::Low => AcroTrainer::Off,
            AuxSwitchPos::Middle => AcroTrainer::Leveling,
            AuxSwitchPos::High => AcroTrainer::Limited,
        },
    )
}

/// Whether a switch that is on only when high is on.
pub fn do_aux_function_high_enables(pos: AuxSwitchPos) -> (r: bool)
    ensures
        r == (pos == AuxSwitchPos::High),
{
    match pos {
        AuxSwitchPos::High => true,
        _ => false,
    }
}

/// The motor interlock: on when high or middle.
pub fn do_aux_function_motor_interlock(pos: AuxSwitchPos) -> (r: AuxLeftover)
    ensures
        r == AuxLeftover::SetMotorInterlock(pos != AuxSwitchPos::Low),
{
    AuxLeftover::SetMotorInterlock(
        match pos {
            AuxSwitchPos::High | AuxSwitchPos::Middle => true,
            AuxSwitchPos::Low => false,
        },
    )
}

/// The three-position parachute switch.
pub fn do_aux_function_parachute_3pos(pos: AuxSwitchPos) -> (r: AuxLeftover)
    ensures
        pos == AuxSwitchPos::Low ==> r == AuxLeftover::SetParachute3pos(Parachute3Pos::Disable),
        pos == AuxSwitchPos::Middle ==> r == AuxLeftover::SetParachute3pos(Parachute3Pos::Enable),
        pos == AuxSwitchPos::High ==> r == AuxLeftover::SetParachute3pos(
            Parachute3Pos::EnableAndRelease,
        ),
{
    AuxLeftover::SetParachute3pos(
        match pos {
            AuxSwitchPos::Low => Parachute3Pos::Disable,
            AuxSwitchPos::Middle => Parachute3Pos::Enable,
            AuxSwitchPos::High => Parachute3Pos::EnableAndRelease,
        },
    )
}

/// A switch where high turns on, low turns off and middle leaves the setting
/// alone (precision loiter, weathervaning, inverted flight).
pub fn do_aux_function_high_low_hold(pos: AuxSwitchPos) -> (r: Option<bool>)
    ensures
        r == high_low_hold(pos),
{
    match pos {
        AuxSwitchPos::High => Some(true),
        AuxSwitchPos::Low => Some(false),
        AuxSwitchPos::Middle => None,
    }
}

/// Standby: on when high, off otherwise.
pub fn do_aux_function_standby(pos: AuxSwitchPos) -> (r: AuxLeftover)
    ensures
        r == AuxLeftover::SetStandby(pos == AuxSwitchPos::High),
{
    AuxLeftover::SetStandby(do_aux_function_high_enables(pos))
}

/// Surface tracking: low the ground, middle off, high the ceiling.
pub fn do_aux_function_surface_tracking(pos: AuxSwitchPos) -> (r: AuxLeftover)
    ensures
        pos == AuxSwitchPos::Low ==> r == AuxLeftover::SetSurfaceTracking(SurfaceTracking::Ground),
        pos == AuxSwitchPos::Middle ==> r == AuxLeftover::SetSurfaceTracking(SurfaceTracking::Off),
        pos == AuxSwitchPos::High ==> r == AuxLeftover::SetSurfaceTracking(
            SurfaceTracking::Ceiling,
        ),
{
    AuxLeftover::SetSurfaceTracking(
        match pos {
            AuxSwitchPos::Low => SurfaceTracking::Ground,
            AuxSwitchPos::Middle => SurfaceTracking::Off,
            AuxSwitchPos::High => SurfaceTracking::Ceiling,
        },
    )
}

/// The winch: high holds the line, low or middle lets it go slack.
pub fn do_aux_function_winch_enable(pos: AuxSwitchPos) -> (r: AuxLeftover)
    ensures
        r == AuxLeftover::SetWinchEnable(
            if pos == AuxSwitchPos::High { WinchEnableAction::Stop } else { WinchEnableAction::Relax },
        ),
{
    AuxLeftover::SetWinchEnable(
        match pos {
            AuxSwitchPos::High => WinchEnableAction::Stop,
            AuxSwitchPos::Low | AuxSwitchPos::Middle => WinchEnableAction::Relax,
        },
    )
}

/// Releases the parachute when high; low and middle do nothing.
pub fn do_aux_function_parachute_release(pos: AuxSwitchPos) -> (r: AuxLeftover)
    ensures
        r == (if pos == AuxSwitchPos::High { AuxLeftover::ReleaseParachute } else { AuxLeftover::Nothing }),
{
    if do_aux_function_high_enables(pos) {
        AuxLeftover::ReleaseParachute
    } else {
        AuxLeftover::Nothing
    }
}

/// Stores the trim when high.
pub fn do_aux_function_save_trim(pos: AuxSwitchPos) -> (r: AuxLeftover)
    ensures
        r == (if pos == AuxSwitchPos::High { AuxLeftover::SaveTrim } else { AuxLeftover::Nothing }),
{
    if do_aux_function_high_enables(pos) {
        AuxLeftover::SaveTrim
    } else {
        AuxLeftover::Nothing
    }
}

/// Stores a waypoint when high.
pub fn do_aux_function_save_wp(pos: AuxSwitchPos) -> (r: AuxLeftover)
    ensures
        r == (if pos == AuxSwitchPos::High { AuxLeftover::SaveWp } else { AuxLeftover::Nothing }),
{
    if do_aux_function_high_enables(pos) {
        AuxLeftover::SaveWp
    } else {
        AuxLeftover::Nothing
    }
}

/// The ZigZag save switch. It acts only while ZigZag is engaged: from any
/// other mode it stores nothing and changes nothing.
pub fn do_aux_function_zigzag_save_wp(pos: AuxSwitchPos, current_mode: u8) -> (r: AuxLeftover)
    ensures
        r == aux_outcome(AuxDispatch { func: CopterAuxFunc::ZigzagSaveWp, pos, current_mode, acro_air_mode_hook: false }),
{
    if current_mode != MODE_ZIGZAG {
        return AuxLeftover::Nothing;
    }
    AuxLeftover::ZigzagSaveWp(
        match pos {
            AuxSwitchPos::Low => ZigzagSaveWp::DestinationA,
            AuxSwitchPos::Middle => ZigzagSaveWp::ReturnToManual,
            AuxSwitchPos::High => ZigzagSaveWp::DestinationB,
        },
    )
}

/// The ZigZag auto switch, acting only while ZigZag is engaged.
pub fn do_aux_function_zigzag_auto(pos: AuxSwitchPos, current_mode: u8) -> (r: AuxLeftover)
    ensures
        r == aux_outcome(AuxDispatch { func: CopterAuxFunc::ZigzagAuto, pos, current_mode, acro_air_mode_hook: false }),
{
    if current_mode != MODE_ZIGZAG {
        return AuxLeftover::Nothing;
    }
    AuxLeftover::ZigzagAuto(
        match pos {
            AuxSwitchPos::High => ZigzagAutoAction::Run,
            AuxSwitchPos::Low | AuxSwitchPos::Middle => ZigzagAutoAction::Suspend,
        },
    )
}

/// Resets the simple-mode heading when high.
pub fn do_aux_function_simple_heading_reset(pos: AuxSwitchPos) -> (r: AuxLeftover)
    ensures
        r == (if pos == AuxSwitchPos::High { AuxLeftover::ResetSimpleHeading } else { AuxLeftover::Nothing }),
{
    if do_aux_function_high_enables(pos) {
        AuxLeftover::ResetSimpleHeading
    } else {
        AuxLeftover::Nothing
    }
}

/// Turbine start: high starts, low stops, middle holds.
pub fn do_aux_function_turbine_start(pos: AuxSwitchPos) -> (r: AuxLeftover)
    ensures
        r == (match high_low_hold(pos) {
            Some(on) => AuxLeftover::SetTurbineStart(on),
            None => AuxLeftover::Nothing,
        }),
{
    match pos {
        AuxSwitchPos::High => AuxLeftover::SetTurbineStart(true),
        AuxSwitchPos::Low => AuxLeftover::SetTurbineStart(false),
        AuxSwitchPos::Middle => AuxLeftover::Nothing,
    }
}

/// Pause: high pauses, low resumes, middle does nothing.
pub fn do_aux_function_flightmode_pause(pos: AuxSwitchPos) -> (r: AuxLeftover)
    ensures
        r == aux_outcome(AuxDispatch { func: CopterAuxFunc::FlightmodePause, pos, current_mode: 0, acro_air_mode_hook: false }),
{
    match pos {
        AuxSwitchPos::High => AuxLeftover::FlightmodePause(FlightmodePauseAction::Pause),
        AuxSwitchPos::Low => AuxLeftover::FlightmodePause(FlightmodePauseAction::Resume),
        AuxSwitchPos::Middle => AuxLeftover::Nothing,
    }
}

/// Automatic trim: high starts it, low stores it if running, middle does
/// nothing.
pub fn do_aux_function_ahrs_auto_trim(pos: AuxSwitchPos) -> (r: AuxLeftover)
    ensures
        r == aux_outcome(AuxDispatch { func: CopterAuxFunc::AhrsAutoTrim, pos, current_mode: 0, acro_air_mode_hook: false }),
{
    match pos {
        AuxSwitchPos::High => AuxLeftover::AhrsAutoTrim(AhrsAutoTrimAction::Start),
        AuxSwitchPos::Low => AuxLeftover::AhrsAutoTrim(AhrsAutoTrimAction::SaveIfRunning),
        AuxSwitchPos::Middle => AuxLeftover::Nothing,
    }
}

/// What a switch asks the vehicle to do, for every option the vehicle handles.
pub fn do_aux_function(dispatch: AuxDispatch) -> (r: AuxLeftover)
    ensures
        r == aux_outcome(dispatch),
{
    if let Some(mode) = dispatch.func.change_mode_number() {
        return do_aux_function_change_mode(mode, dispatch.pos, dispatch.current_mode);
    }
    let pos = dispatch.pos;
    match dispatch.func {
        CopterAuxFunc::Flip => {
            if do_aux_function_high_enables(pos) {
                AuxLeftover::SetMode { mode: MODE_FLIP }
            } else {
                AuxLeftover::Nothing
            }
        },
        CopterAuxFunc::SimpleMode => AuxLeftover::SetSimpleMode(
            match pos {
                AuxSwitchPos::Low => SimpleMode::Off,
                AuxSwitchPos::Middle | AuxSwitchPos::High => SimpleMode::Simple,
            },
        ),
        CopterAuxFunc::SuperSimpleMode => AuxLeftover::SetSimpleMode(
            match pos {
                AuxSwitchPos::Low => SimpleMode::Off,
                AuxSwitchPos::Middle => SimpleMode::Simple,
                AuxSwitchPos::High => SimpleMode::SuperSimple,
            },
        ),
        CopterAuxFunc::AirMode => match do_aux_function_change_air_mode(pos) {
            Some(air_mode) => AuxLeftover::SetAirMode {
                air_mode,
                notify_acro: dispatch.acro_air_mode_hook,
            },
            None => AuxLeftover::Nothing,
        },
        CopterAuxFunc::ForceFlying => match do_aux_function_change_force_flying(pos) {
            Some(force) => AuxLeftover::SetForceFlying(force),
            None => AuxLeftover::Nothing,
        },
        CopterAuxFunc::AcroTrainer => do_aux_function_acro_trainer(pos),
        CopterAuxFunc::AttconFeedfwd => AuxLeftover::SetAttconFeedfwd(
            do_aux_function_high_enables(pos),
        ),
        CopterAuxFunc::AttconAccelLim => AuxLeftover::SetAttconAccelLim(
            do_aux_function_high_enables(pos),
        ),
        CopterAuxFunc::MotorInterlock => do_aux_function_motor_interlock(pos),
        CopterAuxFunc::Rangefinder => AuxLeftover::SetRangefinderHigh(
            do_aux_function_high_enables(pos),
        ),
        CopterAuxFunc::ParachuteEnable => AuxLeftover::SetParachuteEnabled(
            do_aux_function_high_enables(pos),
        ),
        CopterAuxFunc::Parachute3pos => do_aux_function_parachute_3pos(pos),
        CopterAuxFunc::PrecisionLoiter => match do_aux_function_high_low_hold(pos) {
            Some(on) => AuxLeftover::SetPrecisionLoiter(on),
            None => AuxLeftover::Nothing,
        },
        CopterAuxFunc::Standby => do_aux_function_standby(pos),
        CopterAuxFunc::SurfaceTracking => do_aux_function_surface_tracking(pos),
        CopterAuxFunc::WinchEnable => do_aux_function_winch_enable(pos),
        CopterAuxFunc::CustomController => AuxLeftover::SetCustomController(
            do_aux_function_high_enables(pos),
        ),
        CopterAuxFunc::WeatherVaneEnable => match do_aux_function_high_low_hold(pos) {
            Some(on) => AuxLeftover::SetWeatherVane(on),
            None => AuxLeftover::Nothing,
        },
        CopterAuxFunc::Inverted => match do_aux_function_high_low_hold(pos) {
            Some(on) => AuxLeftover::SetInverted(on),
            None => AuxLeftover::Nothing,
        },
        CopterAuxFunc::ParachuteRelease => do_aux_function_parachute_release(pos),
        CopterAuxFunc::WinchControl => AuxLeftover::Nothing,
        CopterAuxFunc::SaveTrim => do_aux_function_save_trim(pos),
        CopterAuxFunc::SaveWp => do_aux_function_save_wp(pos),
        CopterAuxFunc::UserFunc1 => AuxLeftover::CallUserFunc { which: 1, pos },
        CopterAuxFunc::UserFunc2 => AuxLeftover::CallUserFunc { which: 2, pos },
        CopterAuxFunc::UserFunc3 => AuxLeftover::CallUserFunc { which: 3, pos },
        CopterAuxFunc::ZigzagSaveWp => do_aux_function_zigzag_save_wp(pos, dispatch.current_mode),
        CopterAuxFunc::ZigzagAuto => do_aux_function_zigzag_auto(pos, dispatch.current_mode),
        CopterAuxFunc::SimpleHeadingReset => do_aux_function_simple_heading_reset(pos),
        CopterAuxFunc::ArmDisarmAirMode => AuxLeftover::ArmDisarmAirMode,
        CopterAuxFunc::TurbineStart => do_aux_function_turbine_start(pos),
        CopterAuxFunc::FlightmodePause => do_aux_function_flightmode_pause(pos),
        CopterAuxFunc::AutotuneTestGains => AuxLeftover::AutotuneTestGains(pos),
        CopterAuxFunc::AhrsAutoTrim => do_aux_function_ahrs_auto_trim(pos),
        CopterAuxFunc::ResetToArmedYaw => AuxLeftover::DelegateToBase,
        CopterAuxFunc::TransmitterTuning | CopterAuxFunc::TransmitterTuning2 => AuxLeftover::Nothing,
        _ => AuxLeftover::Pending,
    }
}

/// What a channel's option does at boot: the options that must not fire from a
/// switch left high do nothing, the others act on the switch at once (or go to
/// the generic handling when transmitter tuning is not built in).
pub open spec fn init_outcome(d: AuxDispatch, transmitter_tuning_enabled: bool) -> AuxLeftover {
    if aux_no_init(d.func) {
        AuxLeftover::Nothing
    } else if transmitter_tuning_enabled {
        aux_outcome(d)
    } else {
        AuxLeftover::DelegateToBase
    }
}

/// Sets up a channel's option at boot.
pub fn init_aux_function(dispatch: AuxDispatch, transmitter_tuning_enabled: bool) -> (r: AuxLeftover)
    ensures
        r == init_outcome(dispatch, transmitter_tuning_enabled),
{
    match init_aux_kind(dispatch.func, transmitter_tuning_enabled) {
        InitAuxKind::NoInit => AuxLeftover::Nothing,
        InitAuxKind::RunNow => do_aux_function(dispatch),
        InitAuxKind::DelegateToBase => AuxLeftover::DelegateToBase,
    }
}

/// Acts on a raw option number. Numbers the vehicle does not handle go to the
/// generic channel handling.
pub fn do_aux_function_option(
    option: u16,
    pos: AuxSwitchPos,
    current_mode: u8,
    acro_air_mode_hook: bool,
) -> (r: AuxLeftover)
    ensures
        r == (match aux_func_from_option(option) {
            Some(func) => aux_outcome(AuxDispatch { func, pos, current_mode, acro_air_mode_hook }),
            None => AuxLeftover::DelegateToBase,
        }),
{
    match CopterAuxFunc::from_option(option) {
        Some(func) => do_aux_function(AuxDispatch { func, pos, current_mode, acro_air_mode_hook }),
        None => AuxLeftover::DelegateToBase,
    }
}

/// A mode-changing switch acts on the edge: high asks for its mode whatever
/// mode the vehicle is in, and low or middle never asks for a mode; it hands
/// back to the mode switch exactly when the vehicle is in the switch's mode.
pub proof fn lemma_mode_switch_options_act_on_edges(d: AuxDispatch, mode: u8)
    requires
        aux_change_mode(d.func) == Some(mode),
    ensures
        d.pos == AuxSwitchPos::High ==> aux_outcome(d) == (AuxLeftover::SetMode { mode }),
        d.pos != AuxSwitchPos::High ==> (aux_outcome(d) == AuxLeftover::ResetModeSwitch
            <==> d.current_mode == mode),
        d.pos != AuxSwitchPos::High ==> !(aux_outcome(d) is SetMode),
{
}

/// Releasing the Flip switch never touches the flight-mode switch.
pub proof fn lemma_flip_release_keeps_mode(d: AuxDispatch)
    requires
        d.func == CopterAuxFunc::Flip,
    ensures
        aux_outcome(d) != AuxLeftover::ResetModeSwitch,
        d.pos == AuxSwitchPos::High ==> aux_outcome(d) == (AuxLeftover::SetMode { mode: MODE_FLIP }),
        d.pos != AuxSwitchPos::High ==> aux_outcome(d) == AuxLeftover::Nothing,
{
}

/// Simple mode is a two-position switch; super-simple a three-position one.
/// Only the super-simple switch ever selects super-simple, and both agree on
/// low and middle.
pub proof fn lemma_simple_switch_maps(pos: AuxSwitchPos, current_mode: u8, hook: bool)
    ensures
        aux_outcome(AuxDispatch { func: CopterAuxFunc::SimpleMode, pos, current_mode, acro_air_mode_hook: hook })
            != AuxLeftover::SetSimpleMode(SimpleMode::SuperSimple),
        pos != AuxSwitchPos::High ==> aux_outcome(AuxDispatch { func: CopterAuxFunc::SimpleMode, pos, current_mode, acro_air_mode_hook: hook })
            == aux_outcome(AuxDispatch { func: CopterAuxFunc::SuperSimpleMode, pos, current_mode, acro_air_mode_hook: hook }),
{
}

/// An option that does nothing at boot does nothing at boot whatever the
/// switch says.
pub proof fn lemma_no_init_options_stay_quiet(d: AuxDispatch, transmitter_tuning_enabled: bool)
    requires
        aux_no_init(d.func),
    ensures
        init_outcome(d, transmitter_tuning_enabled) == AuxLeftover::Nothing,
{
}

/// Every mode-changing option and Flip is one of those that do nothing at
/// boot: a switch left high never changes mode on power-up.
pub proof fn lemma_boot_never_changes_mode(d: AuxDispatch, transmitter_tuning_enabled: bool)
    ensures
        !(init_outcome(d, transmitter_tuning_enabled) is SetMode),
        init_outcome(d, transmitter_tuning_enabled) != AuxLeftover::ResetModeSwitch,
{
}

/// Whether the radio failsafe is active.
pub fn in_rc_failsafe(radio_failsafe: bool) -> (r: bool)
    ensures
        r == radio_failsafe,
{
    radio_failsafe
}

/// Whether the pilot's input can be used: not while the radio failsafe is
/// active or counting down, else what the generic check says.
pub fn has_valid_input(radio_failsafe: bool, radio_counter: u8, base_has_valid: bool) -> (r: bool)
    ensures
        r == (!radio_failsafe && radio_counter == 0 && base_has_valid),
{
    if in_rc_failsafe(radio_failsafe) {
        return false;
    }
    if radio_counter != 0 {
        return false;
    }
    base_has_valid
}

/// Whether the generic throttle arming check runs: not on a sprung throttle,
/// where a centred stick is a valid idle.
pub fn arming_check_throttle(throttle_behavior: u8, base_check: bool) -> (r: bool)
    ensures
        r == ((throttle_behavior & THR_BEHAVE_FEEDBACK_FROM_MID_STICK) == 0 && base_check),
{
    if (throttle_behavior & THR_BEHAVE_FEEDBACK_FROM_MID_STICK) != 0 {
        false
    } else {
        base_check
    }
}

/// The stick a copter arms with.
#[derive(Debug, Clone, Copy, PartialEq, Eq, Structural)]
pub enum ArmingChannel {
    /// The yaw stick.
    Yaw,
}

/// A copter arms with the yaw stick.
pub fn get_arming_channel() -> (r: ArmingChannel)
    ensures
        r == ArmingChannel::Yaw,
{
    ArmingChannel::Yaw
}

/// What moving the flight-mode switch asks for.
#[derive(Debug, Clone, Copy, PartialEq, Eq, Structural)]
pub enum ModeSwitchLeftover {
    /// The position is outside the switch's range.
    Invalid,
    /// Change to the position's mode, for the mode-switch reason. The simple
    /// setting applies only once the mode change succeeded.
    Engage {
        /// The mode number.
        mode: u8,
        /// The simple setting stored for the position, or `None` when an
        /// auxiliary switch owns simple mode.
        simple: Option<SimpleMode>,
    },
}

/// The simple setting stored for a switch position: super-simple wins over
/// simple when both bits are set.
pub open spec fn stored_simple_mode(pos: u8, super_simple: u8, simple_modes: u8) -> SimpleMode {
    if super_simple & (1u8 << pos) != 0 {
        SimpleMode::SuperSimple
    } else if simple_modes & (1u8 << pos) != 0 {
        SimpleMode::Simple
    } else {
        SimpleMode::Off
    }
}

/// The simple setting stored for one position of the flight-mode switch.
pub fn eeprom_simple_mode(pos: u8, super_simple: u8, simple_modes: u8) -> (r: SimpleMode)
    requires
        pos < 8,
    ensures
        r == stored_simple_mode(pos, super_simple, simple_modes),
{
    if (super_simple & (1u8 << pos)) != 0 {
        SimpleMode::SuperSimple
    } else if (simple_modes & (1u8 << pos)) != 0 {
        SimpleMode::Simple
    } else {
        SimpleMode::Off
    }
}

/// The flight-mode switch moved to `new_pos`. Positions outside
/// `0..=num_flight_modes` are refused. When no auxiliary switch owns simple
/// mode, the setting stored for this position goes with the mode.
pub fn mode_switch_changed(
    new_pos: i8,
    num_flight_modes: u8,
    flight_mode: u8,
    simple_aux: bool,
    supersimple_aux: bool,
    super_simple_bits: u8,
    simple_modes_bits: u8,
) -> (r: ModeSwitchLeftover)
    requires
        new_pos < 0 || new_pos > num_flight_modes || simple_aux || supersimple_aux || new_pos < 8,
    ensures
        (new_pos < 0 || new_pos > num_flight_modes) ==> r == ModeSwitchLeftover::Invalid,
        (0 <= new_pos <= num_flight_modes && (simple_aux || supersimple_aux)) ==> r == (
        ModeSwitchLeftover::Engage { mode: flight_mode, simple: None }),
        (0 <= new_pos <= num_flight_modes && !simple_aux && !supersimple_aux) ==> r == (
        ModeSwitchLeftover::Engage {
            mode: flight_mode,
            simple: Some(stored_simple_mode(new_pos as u8, super_simple_bits, simple_modes_bits)),
        }),
{
    if new_pos < 0 || (new_pos as u8) > num_flight_modes {
        return ModeSwitchLeftover::Invalid;
    }
    let simple = if !simple_aux && !supersimple_aux {
        Some(eeprom_simple_mode(new_pos as u8, super_simple_bits, simple_modes_bits))
    } else {
        None
    };
    ModeSwitchLeftover::Engage { mode: flight_mode, simple }
}

/// The channel the flight-mode switch is on, as configured.
pub fn flight_mode_channel_number(flight_mode_chan: i8) -> (r: i8)
    ensures
        r == flight_mode_chan,
{
    flight_mode_chan
}

/// The receiver index (from 0) of the flight-mode channel. Channels at or
/// below 0 and at or above the channel count are refused, so the last channel
/// is never the mode switch.
pub fn flight_mode_channel(flight_mode_chan: i8) -> (r: Option<usize>)
    ensures
        0 < flight_mode_chan < NUM_RC_CHANNELS ==> r == Some((flight_mode_chan - 1) as usize),
        !(0 < flight_mode_chan < NUM_RC_CHANNELS) ==> r == None::<usize>,
{
    let chan = flight_mode_channel_number(flight_mode_chan);
    if chan <= 0 || chan >= NUM_RC_CHANNELS {
        None
    } else {
        Some((chan - 1) as usize)
    }
}

/// How a stick's input is scaled.
#[derive(Debug, Clone, Copy, PartialEq, Eq, Structural)]
pub enum ControlType {
    /// Centidegrees either side of the centre.
    Angle,
    /// From zero above the lowest pulse and its dead zone up to full scale.
    Range,
}

/// One stick: the channel's calibration and how its input is scaled.
#[derive(Debug, Clone, Copy, PartialEq, Eq, Structural)]
pub struct CopterRcChannel {
    /// Calibration.
    pub cal: RcChannel,
    /// Scaling.
    pub type_in: ControlType,
    /// Full-scale input.
    pub high_in: u16,
}

impl CopterRcChannel {
    /// An angle stick on a channel with default calibration and the given dead
    /// zone.
    pub fn angle(high_in: u16, deadzone: u16) -> (r: CopterRcChannel)
        ensures
            r.cal == (RcChannel {
                radio_min: RC_CHAN_MIN_DEFAULT,
                radio_trim: RC_CHAN_TRIM_DEFAULT,
                radio_max: RC_CHAN_MAX_DEFAULT,
                deadzone,
                reversed: false,
            }),
            r.type_in == ControlType::Angle,
            r.high_in == high_in,
    {
        let mut cal = RcChannel {
            radio_min: RC_CHAN_MIN_DEFAULT,
            radio_trim: RC_CHAN_TRIM_DEFAULT,
            radio_max: RC_CHAN_MAX_DEFAULT,
            deadzone: RC_CHAN_DEADZONE_DEFAULT,
            reversed: false,
        };
        cal.deadzone = deadzone;
        CopterRcChannel { cal, type_in: ControlType::Angle, high_in }
    }

    /// A range stick on a channel with default calibration and the given dead
    /// zone.
    pub fn range(high_in: u16, deadzone: u16) -> (r: CopterRcChannel)
        ensures
            r.cal == (RcChannel {
                radio_min: RC_CHAN_MIN_DEFAULT,
                radio_trim: RC_CHAN_TRIM_DEFAULT,
                radio_max: RC_CHAN_MAX_DEFAULT,
                deadzone,
                reversed: false,
            }),
            r.type_in == ControlType::Range,
            r.high_in == high_in,
    {
        let mut cal = RcChannel {
            radio_min: RC_CHAN_MIN_DEFAULT,
            radio_trim: RC_CHAN_TRIM_DEFAULT,
            radio_max: RC_CHAN_MAX_DEFAULT,
            deadzone: RC_CHAN_DEADZONE_DEFAULT,
            reversed: false,
        };
        cal.deadzone = deadzone;
        CopterRcChannel { cal, type_in: ControlType::Range, high_in }
    }
}

/// The four sticks after setup.
#[derive(Debug, Clone, Copy, PartialEq, Eq, Structural)]
pub struct CopterStickMap {
    /// Roll.
    pub roll: CopterRcChannel,
    /// Pitch.
    pub pitch: CopterRcChannel,
    /// Yaw.
    pub yaw: CopterRcChannel,
    /// Throttle.
    pub throttle: CopterRcChannel,
}

/// Dead zones of roll, pitch, throttle and yaw. A helicopter has tighter
/// collective and yaw windows.
pub open spec fn dead_zones(heli: bool) -> (u16, u16, u16, u16) {
    if heli {
        (DEADZONE_ROLL_PITCH, DEADZONE_ROLL_PITCH, DEADZONE_THROTTLE_HELI, DEADZONE_YAW_HELI)
    } else {
        (
            DEADZONE_ROLL_PITCH,
            DEADZONE_ROLL_PITCH,
            DEADZONE_THROTTLE_MULTICOPTER,
            DEADZONE_YAW_MULTICOPTER,
        )
    }
}

/// Dead zones of roll, pitch, throttle and yaw.
pub fn default_dead_zones(heli: bool) -> (r: (u16, u16, u16, u16))
    ensures
        r == dead_zones(heli),
{
    if heli {
        (DEADZONE_ROLL_PITCH, DEADZONE_ROLL_PITCH, DEADZONE_THROTTLE_HELI, DEADZONE_YAW_HELI)
    } else {
        (
            DEADZONE_ROLL_PITCH,
            DEADZONE_ROLL_PITCH,
            DEADZONE_THROTTLE_MULTICOPTER,
            DEADZONE_YAW_MULTICOPTER,
        )
    }
}

/// The sticks after setup: roll, pitch and yaw are angle sticks of 4500
/// centidegrees, throttle a range stick of 1000, each with its dead zone.
pub fn init_rc_in_map(heli: bool) -> (r: CopterStickMap)
    ensures
        r.roll.type_in == ControlType::Angle && r.roll.high_in == ROLL_PITCH_YAW_INPUT_MAX
            && r.roll.cal.deadzone == dead_zones(heli).0,
        r.pitch.type_in == ControlType::Angle && r.pitch.high_in == ROLL_PITCH_YAW_INPUT_MAX
            && r.pitch.cal.deadzone == dead_zones(heli).1,
        r.throttle.type_in == ControlType::Range && r.throttle.high_in == THROTTLE_CONTROL_RANGE
            && r.throttle.cal.deadzone == dead_zones(heli).2,
        r.yaw.type_in == ControlType::Angle && r.yaw.high_in == ROLL_PITCH_YAW_INPUT_MAX
            && r.yaw.cal.deadzone == dead_zones(heli).3,
        r.roll.cal.radio_min == RC_CHAN_MIN_DEFAULT && r.roll.cal.radio_max == RC_CHAN_MAX_DEFAULT
            && r.roll.cal.radio_trim == RC_CHAN_TRIM_DEFAULT && !r.roll.cal.reversed,
        r.pitch.cal.radio_min == RC_CHAN_MIN_DEFAULT && r.pitch.cal.radio_max == RC_CHAN_MAX_DEFAULT
            && r.pitch.cal.radio_trim == RC_CHAN_TRIM_DEFAULT && !r.pitch.cal.reversed,
        r.yaw.cal.radio_min == RC_CHAN_MIN_DEFAULT && r.yaw.cal.radio_max == RC_CHAN_MAX_DEFAULT
            && r.yaw.cal.radio_trim == RC_CHAN_TRIM_DEFAULT && !r.yaw.cal.reversed,
        r.throttle.cal.radio_min == RC_CHAN_MIN_DEFAULT && r.throttle.cal.radio_max
            == RC_CHAN_MAX_DEFAULT && r.throttle.cal.radio_trim == RC_CHAN_TRIM_DEFAULT
            && !r.throttle.cal.reversed,
{
    let (roll_dz, pitch_dz, thr_dz, yaw_dz) = default_dead_zones(heli);
    CopterStickMap {
        roll: CopterRcChannel::angle(ROLL_PITCH_YAW_INPUT_MAX, roll_dz),
        pitch: CopterRcChannel::angle(ROLL_PITCH_YAW_INPUT_MAX, pitch_dz),
        yaw: CopterRcChannel::angle(ROLL_PITCH_YAW_INPUT_MAX, yaw_dz),
        throttle: CopterRcChannel::range(THROTTLE_CONTROL_RANGE, thr_dz),
    }
}

/// Integer division rounding towards zero: the quotient of the magnitudes,
/// negative when exactly one of the two is negative.
pub open spec fn div_toward_zero(a: int, b: int) -> int {
    let q = abs(a) / abs(b);
    if (a < 0) != (b < 0) {
        -q
    } else {
        q
    }
}

/// Magnitude of an integer.
pub open spec fn abs(a: int) -> int {
    if a < 0 {
        -a
    } else {
        a
    }
}

/// A value clamped into the range of `i16`.
pub open spec fn saturate_i16(v: int) -> i16 {
    if v > i16::MAX {
        i16::MAX
    } else if v < i16::MIN {
        i16::MIN
    } else {
        v as i16
    }
}

/// The numerator of the centre-stick input of a range stick: full scale times
/// how far the centre pulse sits above the bottom of the travel.
pub open spec fn control_mid_numerator(ch: CopterRcChannel) -> int {
    ch.high_in * ((ch.cal.radio_min + ch.cal.radio_max) / 2 - (ch.cal.radio_min + ch.cal.deadzone))
}

/// The denominator: the travel above the bottom and its dead zone.
pub open spec fn control_mid_denominator(ch: CopterRcChannel) -> int {
    ch.cal.radio_max - (ch.cal.radio_min + ch.cal.deadzone)
}

/// The input a centred stick gives, in whole units: 0 for an angle stick; for a
/// range stick the centre pulse `(min + max) / 2` scaled like any other pulse,
/// rounding towards zero, and 0 when the travel above the dead zone is empty.
pub open spec fn control_mid(ch: CopterRcChannel) -> i16 {
    if ch.type_in == ControlType::Angle || control_mid_denominator(ch) == 0 {
        0
    } else {
        saturate_i16(div_toward_zero(control_mid_numerator(ch), control_mid_denominator(ch)))
    }
}

/// The centre-stick input of a channel. The product of full scale and offset
/// must fit in 32 bits, and the quotient too, as they do for every real
/// channel.
pub fn get_control_mid(ch: &CopterRcChannel) -> (r: i16)
    requires
        ch.type_in == ControlType::Range ==> i32::MIN <= control_mid_numerator(*ch) <= i32::MAX,
        ch.type_in == ControlType::Range ==> !(control_mid_numerator(*ch) == i32::MIN
            && control_mid_denominator(*ch) == -1),
    ensures
        r == control_mid(*ch),
{
    match ch.type_in {
        ControlType::Angle => 0,
        ControlType::Range => {
            let r_in: i32 = (ch.cal.radio_min as i32 + ch.cal.radio_max as i32) / 2;
            let radio_trim_low: i32 = ch.cal.radio_min as i32 + ch.cal.deadzone as i32;
            let denom: i32 = ch.cal.radio_max as i32 - radio_trim_low;
            if denom == 0 {
                return 0;
            }
            let num: i32 = ch.high_in as i32 * (r_in - radio_trim_low);
            let num_abs: u64 = if num < 0 { (-(num as i64)) as u64 } else { num as u64 };
            let denom_abs: u64 = if denom < 0 { (-(denom as i64)) as u64 } else { denom as u64 };
            let q: u64 = num_abs / denom_abs;
            assert(q <= num_abs) by (nonlinear_arith)
                requires
                    denom_abs >= 1,
                    q == num_abs / denom_abs,
            ;
            let value: i64 = if (num < 0) != (denom < 0) { -(q as i64) } else { q as i64 };
            if value > i16::MAX as i64 {
                i16::MAX
            } else if value < i16::MIN as i64 {
                i16::MIN
            } else {
                value as i16
            }
        },
    }
}

/// The throttle's centre input, or the value toy mode puts in its place.
pub fn get_throttle_mid(throttle: &CopterRcChannel, toy_mode_mid: Option<i16>) -> (r: i16)
    requires
        throttle.type_in == ControlType::Range ==> i32::MIN <= control_mid_numerator(*throttle)
            <= i32::MAX,
        throttle.type_in == ControlType::Range ==> !(control_mid_numerator(*throttle) == i32::MIN
            && control_mid_denominator(*throttle) == -1),
    ensures
        r == (match toy_mode_mid {
            Some(mid) => mid,
            None => control_mid(*throttle),
        }),
{
    match toy_mode_mid {
        Some(mid) => mid,
        None => get_control_mid(throttle),
    }
}

/// What storing the trim asks of the attitude reference.
#[derive(Debug, Clone, Copy, PartialEq, Eq, Structural)]
pub struct SaveTrimLeftover {
    /// Whether automatic trim runs afterwards (never).
    pub auto_trim_running: bool,
    /// Whether the stick lean is sampled as the trim. Not when automatic trim
    /// was running: its steps are already applied, and sampling again would
    /// double them.
    pub need_pilot_lean: bool,
    /// Whether the trim is written to storage and logged.
    pub persist: bool,
}

/// Stores the trim, stopping automatic trim.
pub fn save_trim(auto_trim_running: bool) -> (r: SaveTrimLeftover)
    ensures
        r == (SaveTrimLeftover {
            auto_trim_running: false,
            need_pilot_lean: !auto_trim_running,
            persist: true,
        }),
{
    SaveTrimLeftover { auto_trim_running: false, need_pilot_lean: !auto_trim_running, persist: true }
}

/// Why automatic trim stopped instead of taking a step.
#[derive(Debug, Clone, Copy, PartialEq, Eq, Structural)]
pub enum AutoTrimCancelReason {
    /// The mode does not allow it.
    ModeDisallows,
    /// The vehicle may have landed; trimming starts and stops in the air.
    LandCompleteMaybe,
}

/// Cancels automatic trim without storing anything.
pub fn auto_trim_cancel() -> (r: SaveTrimLeftover)
    ensures
        r == (SaveTrimLeftover { auto_trim_running: false, need_pilot_lean: false, persist: false }),
{
    SaveTrimLeftover { auto_trim_running: false, need_pilot_lean: false, persist: false }
}

/// What one pass of automatic trim does; the size of the step is worked out
/// by the caller from the attitude target.
#[derive(Debug, Clone, Copy, PartialEq, Eq, Structural)]
pub enum AutoTrimStep {
    /// Not running: nothing to do.
    Idle,
    /// Stop trimming.
    Cancel {
        /// Why.
        reason: AutoTrimCancelReason,
    },
    /// Add a twentieth of the attitude target to the trim, without storing it.
    Apply,
}

/// One pass of automatic trim.
pub fn auto_trim_step(running: bool, allows_auto_trim: bool, land_complete_maybe: bool) -> (r: AutoTrimStep)
    ensures
        !running ==> r == AutoTrimStep::Idle,
        running && !allows_auto_trim ==> r == (AutoTrimStep::Cancel { reason: AutoTrimCancelReason::ModeDisallows }),
        running && allows_auto_trim && land_complete_maybe ==> r == (AutoTrimStep::Cancel { reason: AutoTrimCancelReason::LandCompleteMaybe }),
        running && allows_auto_trim && !land_complete_maybe ==> r == AutoTrimStep::Apply,
{
    if !running {
        return AutoTrimStep::Idle;
    }
    if !allows_auto_trim {
        return AutoTrimStep::Cancel { reason: AutoTrimCancelReason::ModeDisallows };
    }
    if land_complete_maybe {
        return AutoTrimStep::Cancel { reason: AutoTrimCancelReason::LandCompleteMaybe };
    }
    AutoTrimStep::Apply
}

} // verus!
