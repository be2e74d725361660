//! Radio and ground-station failsafes: when a lost ground-station link counts
//! as lost, and which action a radio or ground-station loss asks for.
//!
//! The link check acts on an edge, with strict comparisons on both sides: an
//! age exactly equal to the timeout changes nothing. A disabled failsafe, and a
//! ground station that has never been heard, change nothing either.
//!
//! The two action tables share most of their numbering, but an unknown
//! parameter value means Land on the radio side and RTL on the ground-station
//! side, and the override ladders differ: only the ground-station side refuses
//! to act when disarmed, and only it can leave a pilot-flown mode alone.

use vstd::prelude::*;

verus! {

/// What a failsafe asks the vehicle to do.
#[derive(Debug, Clone, Copy, PartialEq, Eq, Structural)]
pub enum FailsafeAction {
    /// 0: no mode change.
    NoAction,
    /// 1: land, after a pause.
    Land,
    /// 2: RTL, or land if RTL cannot start.
    Rtl,
    /// 3: Smart RTL, or RTL.
    SmartRtl,
    /// 4: Smart RTL, or land.
    SmartRtlLand,
    /// 5: terminate. Neither table asks for it.
    Terminate,
    /// 6: jump to the mission's landing sequence, or RTL.
    AutoDoLandStart,
    /// 7: brake, or land.
    BrakeLand,
}

/// Bits of the failsafe options parameter.
#[derive(Debug, Clone, Copy, PartialEq, Eq, Structural)]
pub enum FailsafeOption {
    /// Bit 0: a radio failsafe lets a running mission go on.
    RcContinueIfAuto,
    /// Bit 1: a ground-station failsafe lets a running mission go on.
    GcsContinueIfAuto,
    /// Bit 2: a radio failsafe lets Guided go on.
    RcContinueIfGuided,
    /// Bit 3: either failsafe lets a landing go on.
    ContinueIfLanding,
    /// Bit 4: a ground-station failsafe leaves a pilot-flown mode alone.
    GcsContinueIfPilotControl,
    /// Bit 5: the failsafe also releases the gripper.
    ReleaseGripper,
}

/// The bit of an option.
pub open spec fn failsafe_option_bit(opt: FailsafeOption) -> u32 {
    match opt {
        FailsafeOption::RcContinueIfAuto => 1,
        FailsafeOption::GcsContinueIfAuto => 2,
        FailsafeOption::RcContinueIfGuided => 4,
        FailsafeOption::ContinueIfLanding => 8,
        FailsafeOption::GcsContinueIfPilotControl => 16,
        FailsafeOption::ReleaseGripper => 32,
    }
}

impl FailsafeOption {
    /// The bit of this option in the options parameter.
    pub fn bit(self) -> (r: u32)
        ensures
            r == failsafe_option_bit(self),
    {
        match self {
            FailsafeOption::RcContinueIfAuto => 1,
            FailsafeOption::GcsContinueIfAuto => 2,
            FailsafeOption::RcContinueIfGuided => 4,
            FailsafeOption::ContinueIfLanding => 8,
            FailsafeOption::GcsContinueIfPilotControl => 16,
            FailsafeOption::ReleaseGripper => 32,
        }
    }
}

/// Values of the radio failsafe parameter.
#[derive(Debug, Clone, Copy, PartialEq, Eq, Structural)]
pub enum FsThrEnable {
    /// 0: disabled.
    Disabled,
    /// 1: always RTL. The default.
    AlwaysRtl,
    /// 2: formerly "continue mission"; now RTL.
    ContinueMission,
    /// 3: always land.
    AlwaysLand,
    /// 4: Smart RTL or RTL.
    AlwaysSmartrtlOrRtl,
    /// 5: Smart RTL or land.
    AlwaysSmartrtlOrLand,
    /// 6: the mission's landing sequence or RTL.
    AutoRtlOrRtl,
    /// 7: brake or land.
    BrakeOrLand,
}

/// Values of the ground-station failsafe parameter.
#[derive(Debug, Clone, Copy, PartialEq, Eq, Structural)]
pub enum FsGcsEnable {
    /// 0: disabled. The default.
    Disabled,
    /// 1: always RTL.
    AlwaysRtl,
    /// 2: formerly "continue mission"; now RTL.
    ContinueMission,
    /// 3: Smart RTL or RTL.
    AlwaysSmartrtlOrRtl,
    /// 4: Smart RTL or land.
    AlwaysSmartrtlOrLand,
    /// 5: always land.
    AlwaysLand,
    /// 6: the mission's landing sequence or RTL.
    AutoRtlOrRtl,
    /// 7: brake or land.
    BrakeOrLand,
}

/// Default ground-station timeout, in milliseconds (five seconds).
pub const FS_GCS_TIMEOUT_DEFAULT_MS: u32 = 5000;

/// Mode number of Stabilize.
pub const MODE_STABILIZE: u8 = 0;
/// Mode number of Acro.
pub const MODE_ACRO: u8 = 1;
/// Mode number of Auto.
pub const MODE_AUTO: u8 = 3;
/// Mode number of Auto RTL.
pub const MODE_AUTO_RTL: u8 = 27;

impl FsThrEnable {
    /// Reads the radio failsafe parameter; unknown values give `None`.
    pub fn from_param(value: u8) -> (r: Option<FsThrEnable>)
        ensures
            r == FsThrEnable::from_param_spec(value),
    {
        match value {
            0 => Some(FsThrEnable::Disabled),
            1 => Some(FsThrEnable::AlwaysRtl),
            2 => Some(FsThrEnable::ContinueMission),
            3 => Some(FsThrEnable::AlwaysLand),
            4 => Some(FsThrEnable::AlwaysSmartrtlOrRtl),
            5 => Some(FsThrEnable::AlwaysSmartrtlOrLand),
            6 => Some(FsThrEnable::AutoRtlOrRtl),
            7 => Some(FsThrEnable::BrakeOrLand),
            _ => None,
        }
    }

    /// The default: always RTL.
    pub fn default_param() -> (r: FsThrEnable)
        ensures
            r == FsThrEnable::AlwaysRtl,
    {
        FsThrEnable::AlwaysRtl
    }

    /// The setting a parameter value denotes.
    pub open spec fn from_param_spec(value: u8) -> Option<FsThrEnable> {
        if value == 0 {
            Some(FsThrEnable::Disabled)
        } else if value == 1 {
            Some(FsThrEnable::AlwaysRtl)
        } else if value == 2 {
            Some(FsThrEnable::ContinueMission)
        } else if value == 3 {
            Some(FsThrEnable::AlwaysLand)
        } else if value == 4 {
            Some(FsThrEnable::AlwaysSmartrtlOrRtl)
        } else if value == 5 {
            Some(FsThrEnable::AlwaysSmartrtlOrLand)
        } else if value == 6 {
            Some(FsThrEnable::AutoRtlOrRtl)
        } else if value == 7 {
            Some(FsThrEnable::BrakeOrLand)
        } else {
            None
        }
    }
}

impl FsGcsEnable {
    /// Reads the ground-station failsafe parameter; unknown values give
    /// `None`.
    pub fn from_param(value: u8) -> (r: Option<FsGcsEnable>)
        ensures
            r == FsGcsEnable::from_param_spec(value),
    {
        match value {
            0 => Some(FsGcsEnable::Disabled),
            1 => Some(FsGcsEnable::AlwaysRtl),
            2 => Some(FsGcsEnable::ContinueMission),
            3 => Some(FsGcsEnable::AlwaysSmartrtlOrRtl),
            4 => Some(FsGcsEnable::AlwaysSmartrtlOrLand),
            5 => Some(FsGcsEnable::AlwaysLand),
            6 => Some(FsGcsEnable::AutoRtlOrRtl),
            7 => Some(FsGcsEnable::BrakeOrLand),
            _ => None,
        }
    }

    /// The setting a parameter value denotes.
    pub open spec fn from_param_spec(value: u8) -> Option<FsGcsEnable> {
        if value == 0 {
            Some(FsGcsEnable::Disabled)
        } else if value == 1 {
            Some(FsGcsEnable::AlwaysRtl)
        } else if value == 2 {
            Some(FsGcsEnable::ContinueMission)
        } else if value == 3 {
            Some(FsGcsEnable::AlwaysSmartrtlOrRtl)
        } else if value == 4 {
            Some(FsGcsEnable::AlwaysSmartrtlOrLand)
        } else if value == 5 {
            Some(FsGcsEnable::AlwaysLand)
        } else if value == 6 {
            Some(FsGcsEnable::AutoRtlOrRtl)
        } else if value == 7 {
            Some(FsGcsEnable::BrakeOrLand)
        } else {
            None
        }
    }

    /// The default: disabled.
    pub fn default_param() -> (r: FsGcsEnable)
        ensures
            r == FsGcsEnable::Disabled,
    {
        FsGcsEnable::Disabled
    }

    /// Whether the link check looks at the heartbeat at all.
    pub fn is_enabled(self) -> (r: bool)
        ensures
            r == (self != FsGcsEnable::Disabled),
    {
        match self {
            FsGcsEnable::Disabled => false,
            _ => true,
        }
    }
}

/// Whether an option is set.
pub open spec fn option_set(fs_options: u32, opt: FailsafeOption) -> bool {
    fs_options & failsafe_option_bit(opt) != 0
}

/// Whether an option is set in the options parameter.
pub fn failsafe_option(fs_options: u32, opt: FailsafeOption) -> (r: bool)
    ensures
        r == option_set(fs_options, opt),
{
    fs_options & opt.bit() != 0
}

/// The radio table: what each radio failsafe setting asks for, before the
/// overrides. Unknown values mean Land.
pub open spec fn radio_table(failsafe_throttle: u8) -> FailsafeAction {
    if failsafe_throttle == 0 {
        FailsafeAction::NoAction
    } else if failsafe_throttle == 1 || failsafe_throttle == 2 {
        FailsafeAction::Rtl
    } else if failsafe_throttle == 3 {
        FailsafeAction::Land
    } else if failsafe_throttle == 4 {
        FailsafeAction::SmartRtl
    } else if failsafe_throttle == 5 {
        FailsafeAction::SmartRtlLand
    } else if failsafe_throttle == 6 {
        FailsafeAction::AutoDoLandStart
    } else if failsafe_throttle == 7 {
        FailsafeAction::BrakeLand
    } else {
        FailsafeAction::Land
    }
}

/// The ground-station table. Unknown values mean RTL, not Land.
pub open spec fn gcs_table(failsafe_gcs: u8) -> FailsafeAction {
    if failsafe_gcs == 0 {
        FailsafeAction::NoAction
    } else if failsafe_gcs == 1 || failsafe_gcs == 2 {
        FailsafeAction::Rtl
    } else if failsafe_gcs == 3 {
        FailsafeAction::SmartRtl
    } else if failsafe_gcs == 4 {
        FailsafeAction::SmartRtlLand
    } else if failsafe_gcs == 5 {
        FailsafeAction::Land
    } else if failsafe_gcs == 6 {
        FailsafeAction::AutoDoLandStart
    } else if failsafe_gcs == 7 {
        FailsafeAction::BrakeLand
    } else {
        FailsafeAction::Rtl
    }
}

/// What the radio failsafe setting asks for, before the overrides.
pub fn radio_param_action(failsafe_throttle: u8) -> (r: FailsafeAction)
    ensures
        r == radio_table(failsafe_throttle),
{
    match failsafe_throttle {
        0 => FailsafeAction::NoAction,
        1 | 2 => FailsafeAction::Rtl,
        3 => FailsafeAction::Land,
        4 => FailsafeAction::SmartRtl,
        5 => FailsafeAction::SmartRtlLand,
        6 => FailsafeAction::AutoDoLandStart,
        7 => FailsafeAction::BrakeLand,
        _ => FailsafeAction::Land,
    }
}

/// What the ground-station failsafe setting asks for, before the overrides.
pub fn gcs_param_action(failsafe_gcs: u8) -> (r: FailsafeAction)
    ensures
        r == gcs_table(failsafe_gcs),
{
    match failsafe_gcs {
        0 => FailsafeAction::NoAction,
        1 | 2 => FailsafeAction::Rtl,
        3 => FailsafeAction::SmartRtl,
        4 => FailsafeAction::SmartRtlLand,
        5 => FailsafeAction::Land,
        6 => FailsafeAction::AutoDoLandStart,
        7 => FailsafeAction::BrakeLand,
        _ => FailsafeAction::Rtl,
    }
}

/// What the ground-station link check reads. The timeout arrives in whole
/// milliseconds, already clamped from the parameter's seconds.
#[derive(Debug, Clone, Copy, PartialEq, Eq, Structural)]
pub struct GcsFailsafeInputs {
    /// The ground-station failsafe parameter.
    pub enable: u8,
    /// The clock, in milliseconds.
    pub now_ms: u32,
    /// When the ground station was last heard; 0 until the first heartbeat.
    pub last_seen_ms: u32,
    /// The timeout, in milliseconds.
    pub timeout_ms: u32,
    /// Whether the failsafe is already latched.
    pub already_gcs: bool,
}

impl Default for GcsFailsafeInputs {
    fn default() -> (r: GcsFailsafeInputs)
        ensures
            r == (GcsFailsafeInputs {
                enable: 0,
                now_ms: 0,
                last_seen_ms: 0,
                timeout_ms: FS_GCS_TIMEOUT_DEFAULT_MS,
                already_gcs: false,
            }),
    {
        GcsFailsafeInputs {
            enable: 0,
            now_ms: 0,
            last_seen_ms: 0,
            timeout_ms: FS_GCS_TIMEOUT_DEFAULT_MS,
            already_gcs: false,
        }
    }
}

/// What the link check does to the latch.
#[derive(Debug, Clone, Copy, PartialEq, Eq, Structural)]
pub enum GcsFailsafeEdge {
    /// Leave it.
    Hold,
    /// Latch it and run the failsafe.
    Trigger,
    /// Clear it and run the recovery.
    Recover,
}

/// What the link check does: nothing when disabled or never heard; recover
/// when latched and heard within the timeout; trigger when clear and not
/// heard for longer than it; nothing otherwise, an age equal to the timeout
/// included.
pub open spec fn gcs_edge(inp: GcsFailsafeInputs) -> GcsFailsafeEdge {
    let age = (if inp.now_ms >= inp.last_seen_ms {
        inp.now_ms - inp.last_seen_ms
    } else {
        inp.now_ms - inp.last_seen_ms + 0x1_0000_0000
    });
    if inp.enable == 0 || inp.last_seen_ms == 0 {
        GcsFailsafeEdge::Hold
    } else if age < inp.timeout_ms && inp.already_gcs {
        GcsFailsafeEdge::Recover
    } else if age > inp.timeout_ms && !inp.already_gcs {
        GcsFailsafeEdge::Trigger
    } else {
        GcsFailsafeEdge::Hold
    }
}

/// The ground-station link check.
pub fn failsafe_gcs_check(inp: &GcsFailsafeInputs) -> (r: GcsFailsafeEdge)
    ensures
        r == gcs_edge(*inp),
{
    if inp.enable == 0 {
        return GcsFailsafeEdge::Hold;
    }
    if inp.last_seen_ms == 0 {
        return GcsFailsafeEdge::Hold;
    }
    let age_ms = inp.now_ms.wrapping_sub(inp.last_seen_ms);
    let timeout_ms = inp.timeout_ms;
    if age_ms < timeout_ms && inp.already_gcs {
        GcsFailsafeEdge::Recover
    } else if age_ms > timeout_ms && !inp.already_gcs {
        GcsFailsafeEdge::Trigger
    } else {
        GcsFailsafeEdge::Hold
    }
}

/// The latch after the check has acted.
pub open spec fn latch_after(inp: GcsFailsafeInputs) -> bool {
    match gcs_edge(inp) {
        GcsFailsafeEdge::Hold => inp.already_gcs,
        GcsFailsafeEdge::Trigger => true,
        GcsFailsafeEdge::Recover => false,
    }
}

/// The check is strict on both sides: a heartbeat exactly as old as the
/// timeout neither triggers nor recovers.
pub proof fn lemma_gcs_timeout_is_strict(inp: GcsFailsafeInputs)
    requires
        inp.now_ms >= inp.last_seen_ms,
        inp.now_ms - inp.last_seen_ms == inp.timeout_ms,
    ensures
        gcs_edge(inp) == GcsFailsafeEdge::Hold,
{
}

/// The check is an edge: once it has acted, running it again on the same
/// clock does nothing more.
pub proof fn lemma_gcs_edge_fires_once(inp: GcsFailsafeInputs)
    ensures
        gcs_edge(GcsFailsafeInputs { already_gcs: latch_after(inp), ..inp }) == GcsFailsafeEdge::Hold,
{
}

/// What the radio failsafe reads.
#[derive(Debug, Clone, Copy, PartialEq, Eq, Structural)]
pub struct RadioFailsafeInputs {
    /// The radio failsafe parameter.
    pub failsafe_throttle: u8,
    /// Whether the vehicle should simply disarm.
    pub should_disarm: bool,
    /// Whether the mode is landing.
    pub is_landing: bool,
    /// Whether the battery failsafe already asks for a landing or more.
    pub battery_requires_land: bool,
    /// Whether the mode is Auto.
    pub mode_is_auto: bool,
    /// Whether the mode is a guided one.
    pub in_guided_mode: bool,
    /// The failsafe options.
    pub fs_options: u32,
}

impl Default for RadioFailsafeInputs {
    fn default() -> (r: RadioFailsafeInputs)
        ensures
            r == (RadioFailsafeInputs {
                failsafe_throttle: 1,
                should_disarm: false,
                is_landing: false,
                battery_requires_land: false,
                mode_is_auto: false,
                in_guided_mode: false,
                fs_options: 0,
            }),
    {
        RadioFailsafeInputs {
            failsafe_throttle: 1,
            should_disarm: false,
            is_landing: false,
            battery_requires_land: false,
            mode_is_auto: false,
            in_guided_mode: false,
            fs_options: 0,
        }
    }
}

/// The radio failsafe's action: disarming wins; a landing goes on when the
/// battery needs it or the options say so; a mission or Guided goes on when
/// the options say so; otherwise the table decides.
pub open spec fn radio_action(inp: RadioFailsafeInputs) -> FailsafeAction {
    if inp.should_disarm {
        FailsafeAction::NoAction
    } else if inp.is_landing && inp.battery_requires_land {
        FailsafeAction::Land
    } else if inp.is_landing && option_set(inp.fs_options, FailsafeOption::ContinueIfLanding) {
        FailsafeAction::Land
    } else if inp.mode_is_auto && option_set(inp.fs_options, FailsafeOption::RcContinueIfAuto) {
        FailsafeAction::NoAction
    } else if inp.in_guided_mode && option_set(inp.fs_options, FailsafeOption::RcContinueIfGuided) {
        FailsafeAction::NoAction
    } else {
        radio_table(inp.failsafe_throttle)
    }
}

/// The action a radio failsafe asks for.
pub fn failsafe_radio_on_event(inp: &RadioFailsafeInputs) -> (r: FailsafeAction)
    ensures
        r == radio_action(*inp),
        inp.should_disarm ==> r == FailsafeAction::NoAction,
        !inp.should_disarm && inp.is_landing && (inp.battery_requires_land || inp.fs_options
            & 8u32 != 0) ==> r == FailsafeAction::Land,
        !inp.should_disarm && !inp.is_landing && inp.mode_is_auto && inp.fs_options & 1u32 != 0
            ==> r == FailsafeAction::NoAction,
        !inp.should_disarm && !inp.is_landing && inp.in_guided_mode && inp.fs_options & 4u32
            != 0 ==> r == FailsafeAction::NoAction,
{
    let mut desired = radio_param_action(inp.failsafe_throttle);
    if inp.should_disarm {
        desired = FailsafeAction::NoAction;
    } else if inp.is_landing && inp.battery_requires_land {
        desired = FailsafeAction::Land;
    } else if inp.is_landing && failsafe_option(inp.fs_options, FailsafeOption::ContinueIfLanding) {
        desired = FailsafeAction::Land;
    } else if inp.mode_is_auto && failsafe_option(inp.fs_options, FailsafeOption::RcContinueIfAuto) {
        desired = FailsafeAction::NoAction;
    } else if inp.in_guided_mode && failsafe_option(
        inp.fs_options,
        FailsafeOption::RcContinueIfGuided,
    ) {
        desired = FailsafeAction::NoAction;
    }
    desired
}

/// What the ground-station failsafe reads.
#[derive(Debug, Clone, Copy, PartialEq, Eq, Structural)]
pub struct GcsFailsafeActionInputs {
    /// The ground-station failsafe parameter.
    pub failsafe_gcs: u8,
    /// Whether the motors are armed.
    pub armed: bool,
    /// Whether the vehicle should simply disarm.
    pub should_disarm: bool,
    /// Whether the mode is landing.
    pub is_landing: bool,
    /// Whether the battery failsafe already asks for a landing or more.
    pub battery_requires_land: bool,
    /// Whether the mode is Auto.
    pub mode_is_auto: bool,
    /// Whether the mode flies itself.
    pub is_autopilot: bool,
    /// The failsafe options.
    pub fs_options: u32,
}

impl Default for GcsFailsafeActionInputs {
    fn default() -> (r: GcsFailsafeActionInputs)
        ensures
            r == (GcsFailsafeActionInputs {
                failsafe_gcs: 1,
                armed: true,
                should_disarm: false,
                is_landing: false,
                battery_requires_land: false,
                mode_is_auto: false,
                is_autopilot: false,
                fs_options: 0,
            }),
    {
        GcsFailsafeActionInputs {
            failsafe_gcs: 1,
            armed: true,
            should_disarm: false,
            is_landing: false,
            battery_requires_land: false,
            mode_is_auto: false,
            is_autopilot: false,
            fs_options: 0,
        }
    }
}

/// The ground-station failsafe's action: nothing when disarmed or about to
/// disarm; a landing goes on when the battery needs it or the options say so;
/// a mission goes on, and a pilot-flown mode is left alone, when the options
/// say so; otherwise the table decides.
pub open spec fn gcs_action(inp: GcsFailsafeActionInputs) -> FailsafeAction {
    if !inp.armed {
        FailsafeAction::NoAction
    } else if inp.should_disarm {
        FailsafeAction::NoAction
    } else if inp.is_landing && inp.battery_requires_land {
        FailsafeAction::Land
    } else if inp.is_landing && option_set(inp.fs_options, FailsafeOption::ContinueIfLanding) {
        FailsafeAction::Land
    } else if inp.mode_is_auto && option_set(inp.fs_options, FailsafeOption::GcsContinueIfAuto) {
        FailsafeAction::NoAction
    } else if option_set(inp.fs_options, FailsafeOption::GcsContinueIfPilotControl)
        && !inp.is_autopilot {
        FailsafeAction::NoAction
    } else {
        gcs_table(inp.failsafe_gcs)
    }
}

/// The action a ground-station failsafe asks for.
pub fn failsafe_gcs_on_event(inp: &GcsFailsafeActionInputs) -> (r: FailsafeAction)
    ensures
        r == gcs_action(*inp),
        !inp.armed || inp.should_disarm ==> r == FailsafeAction::NoAction,
        inp.armed && !inp.should_disarm && inp.is_landing && (inp.battery_requires_land
            || inp.fs_options & 8u32 != 0) ==> r == FailsafeAction::Land,
        inp.armed && !inp.should_disarm && !inp.is_landing && inp.mode_is_auto && inp.fs_options
            & 2u32 != 0 ==> r == FailsafeAction::NoAction,
        inp.armed && !inp.should_disarm && !inp.is_landing && !inp.is_autopilot && inp.fs_options
            & 16u32 != 0 ==> r == FailsafeAction::NoAction,
{
    let mut desired = gcs_param_action(inp.failsafe_gcs);
    if !inp.armed {
        desired = FailsafeAction::NoAction;
    } else if inp.should_disarm {
        desired = FailsafeAction::NoAction;
    } else if inp.is_landing && inp.battery_requires_land {
        desired = FailsafeAction::Land;
    } else if inp.is_landing && failsafe_option(inp.fs_options, FailsafeOption::ContinueIfLanding) {
        desired = FailsafeAction::Land;
    } else if inp.mode_is_auto && failsafe_option(inp.fs_options, FailsafeOption::GcsContinueIfAuto) {
        desired = FailsafeAction::NoAction;
    } else if failsafe_option(inp.fs_options, FailsafeOption::GcsContinueIfPilotControl)
        && !inp.is_autopilot {
        desired = FailsafeAction::NoAction;
    }
    desired
}

/// Whether a failsafe should simply disarm: always during the arming delay;
/// in Stabilize and Acro on a zero throttle or once landed; in Auto and Auto
/// RTL only when landed before the mission started; elsewhere once landed.
pub open spec fn disarm_on_failsafe(
    in_arming_delay: bool,
    mode: u8,
    throttle_zero: bool,
    land_complete: bool,
    auto_armed: bool,
) -> bool {
    if in_arming_delay {
        true
    } else if mode == MODE_STABILIZE || mode == MODE_ACRO {
        throttle_zero || land_complete
    } else if mode == MODE_AUTO || mode == MODE_AUTO_RTL {
        !auto_armed && land_complete
    } else {
        land_complete
    }
}

/// Whether a failsafe should simply disarm the vehicle.
pub fn should_disarm_on_failsafe(
    in_arming_delay: bool,
    mode: u8,
    throttle_zero: bool,
    land_complete: bool,
    auto_armed: bool,
) -> (r: bool)
    ensures
        r == disarm_on_failsafe(in_arming_delay, mode, throttle_zero, land_complete, auto_armed),
{
    if in_arming_delay {
        return true;
    }
    match mode {
        MODE_STABILIZE | MODE_ACRO => throttle_zero || land_complete,
        MODE_AUTO | MODE_AUTO_RTL => !auto_armed && land_complete,
        _ => land_complete,
    }
}

/// The two tables agree on RTL for the values 1 and 2 and on nothing for 0,
/// and differ on every value neither knows: Land for the radio, RTL for the
/// ground station.
pub proof fn lemma_tables_share_rtl_and_differ_on_unknown(value: u8)
    ensures
        value == 0 ==> radio_table(value) == FailsafeAction::NoAction && gcs_table(value)
            == FailsafeAction::NoAction,
        (value == 1 || value == 2) ==> radio_table(value) == FailsafeAction::Rtl && gcs_table(value)
            == FailsafeAction::Rtl,
        value > 7 ==> radio_table(value) == FailsafeAction::Land && gcs_table(value)
            == FailsafeAction::Rtl,
{
}

/// Neither table, and no override, ever asks for termination.
pub proof fn lemma_failsafes_never_terminate(
    radio: RadioFailsafeInputs,
    gcs: GcsFailsafeActionInputs,
)
    ensures
        radio_action(radio) != FailsafeAction::Terminate,
        gcs_action(gcs) != FailsafeAction::Terminate,
{
}

/// A landing already under way never turns into a climb-away when the battery
/// needs it: both failsafes keep landing unless the vehicle should disarm (or,
/// on the ground-station side, is disarmed).
pub proof fn lemma_landing_with_low_battery_keeps_landing(
    radio: RadioFailsafeInputs,
    gcs: GcsFailsafeActionInputs,
)
    requires
        radio.is_landing && radio.battery_requires_land && !radio.should_disarm,
        gcs.is_landing && gcs.battery_requires_land && !gcs.should_disarm && gcs.armed,
    ensures
        radio_action(radio) == FailsafeAction::Land,
        gcs_action(gcs) == FailsafeAction::Land,
{
}

/// A landing goes on when the options ask for it: with the continue-if-landing
/// bit set, a radio failsafe during a landing asks to land, and so does a
/// ground-station failsafe while armed, unless the vehicle should simply
/// disarm; setting the continue-in-mission and continue-in-Guided bits as
/// well changes nothing. Should the vehicle disarm, neither failsafe asks for
/// an action, and a disarmed vehicle gets none from the ground station.
pub proof fn lemma_continue_if_landing_keeps_landing(
    radio: RadioFailsafeInputs,
    gcs: GcsFailsafeActionInputs,
)
    ensures
        !radio.should_disarm && radio.is_landing && radio.fs_options & 8u32 != 0 ==> radio_action(
            radio,
        ) == FailsafeAction::Land,
        gcs.armed && !gcs.should_disarm && gcs.is_landing && gcs.fs_options & 8u32 != 0
            ==> gcs_action(gcs) == FailsafeAction::Land,
        radio.should_disarm ==> radio_action(radio) == FailsafeAction::NoAction,
        !gcs.armed || gcs.should_disarm ==> gcs_action(gcs) == FailsafeAction::NoAction,
        !radio.should_disarm && radio.is_landing && radio.fs_options & 8u32 != 0 ==> radio_action(
            radio,
        ) == radio_action(RadioFailsafeInputs { fs_options: radio.fs_options | 5u32, ..radio }),
{
    let o = radio.fs_options;
    assert((o | 5u32) & 8u32 == o & 8u32) by (bit_vector);
}

/// A mission or Guided flight goes on through a radio failsafe when its
/// option bit is set and no landing is under way; a mission goes on through a
/// ground-station failsafe in the same way, and a pilot-flown mode is left
/// alone when that bit is set.
pub proof fn lemma_continue_options_keep_flying(
    radio: RadioFailsafeInputs,
    gcs: GcsFailsafeActionInputs,
)
    ensures
        !radio.should_disarm && !radio.is_landing && radio.mode_is_auto && radio.fs_options & 1u32
            != 0 ==> radio_action(radio) == FailsafeAction::NoAction,
        !radio.should_disarm && !radio.is_landing && radio.in_guided_mode && radio.fs_options
            & 4u32 != 0 ==> radio_action(radio) == FailsafeAction::NoAction,
        gcs.armed && !gcs.should_disarm && !gcs.is_landing && gcs.mode_is_auto && gcs.fs_options
            & 2u32 != 0 ==> gcs_action(gcs) == FailsafeAction::NoAction,
        gcs.armed && !gcs.should_disarm && !gcs.is_landing && !gcs.is_autopilot && gcs.fs_options
            & 16u32 != 0 ==> gcs_action(gcs) == FailsafeAction::NoAction,
{
}

} // verus!
