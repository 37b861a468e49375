//! Default MPTF handler: the variable table and the fan-control policy.
//!
//! Temperatures in degrees Celsius (`f32`) are carried by their bit pattern
//! (`f32::to_bits`); the comparisons of the current temperature against the
//! thresholds are handed in as [`TempOrder`] values.

pub mod uid;

use crate::comms::{EndpointID, External, Internal};
use crate::thermal_service::{fan, mptf, sensor};
use hash32::{BuildHasherDefault, FnvHasher};
use heapless::{FnvIndexMap, IndexMap};
use vstd::prelude::*;

verus! {

/// `heapless::IndexMap`, opaque: what it holds is given by
/// [`uid_table_contents`].
#[verifier::external_type_specification]
#[verifier::external_body]
#[verifier::reject_recursive_types(K)]
#[verifier::reject_recursive_types(V)]
#[verifier::reject_recursive_types(S)]
pub struct ExIndexMap<K, V, S, const N: usize>(IndexMap<K, V, S, N>);

/// `hash32::BuildHasherDefault`, the hasher builder of `FnvIndexMap`.
#[verifier::external_type_specification]
#[verifier::external_body]
#[verifier::reject_recursive_types(H)]
pub struct ExBuildHasherDefault<H>(BuildHasherDefault<H>);

/// `hash32::FnvHasher`, the hasher of `FnvIndexMap`.
#[verifier::external_type_specification]
#[verifier::external_body]
pub struct ExFnvHasher(FnvHasher);

/// Capacity of the variable table: heapless index maps hold a power-of-two
/// number of entries, and 16 leaves room for the nine variables.
pub const UID_TABLE_CAPACITY: usize = 16;

/// What the variable table maps each id (by its characters) to.
pub uninterp spec fn uid_table_contents(t: FnvIndexMap<&'static str, u32, UID_TABLE_CAPACITY>) -> Map<Seq<char>, u32>;

/// A table with no entries.
pub open spec fn empty_table() -> Map<Seq<char>, u32> {
    Map::empty()
}

/// `FnvIndexMap::new`: an empty map.
#[verifier::external_body]
fn table_new() -> (r: FnvIndexMap<&'static str, u32, UID_TABLE_CAPACITY>)
    ensures
        uid_table_contents(r) == empty_table(),
{
    FnvIndexMap::new()
}

/// `IndexMap::insert`: a key already present keeps its place and gets the
/// new value (the old one is returned); a new key is added when fewer than
/// `UID_TABLE_CAPACITY` entries are held, else the pair is handed back and nothing changes.
#[verifier::external_body]
fn table_insert(t: &mut FnvIndexMap<&'static str, u32, UID_TABLE_CAPACITY>, key: &'static str, value: u32) -> (r:
    Result<Option<u32>, (&'static str, u32)>)
    ensures
        uid_table_contents(*old(t)).dom().contains(key@) ==> (r matches Ok(Some(v)) && v
            == uid_table_contents(*old(t))[key@]) && uid_table_contents(*final(t))
            == uid_table_contents(*old(t)).insert(key@, value),
        !uid_table_contents(*old(t)).dom().contains(key@) && uid_table_contents(*old(t)).len() < UID_TABLE_CAPACITY
            ==> (r matches Ok(None)) && uid_table_contents(*final(t)) == uid_table_contents(
            *old(t),
        ).insert(key@, value),
        !uid_table_contents(*old(t)).dom().contains(key@) && uid_table_contents(*old(t)).len() >= UID_TABLE_CAPACITY
            ==> (r matches Err((k, v)) && k == key && v == value) && uid_table_contents(*final(t))
            == uid_table_contents(*old(t)),
    no_unwind
{
    t.insert(key, value)
}

/// `IndexMap::get`: the value stored under an equal key, if any.
#[verifier::external_body]
fn table_get(t: &FnvIndexMap<&'static str, u32, UID_TABLE_CAPACITY>, key: &str) -> (r: Option<u32>)
    ensures
        r == (if uid_table_contents(*t).dom().contains(key@) {
            Some(uid_table_contents(*t)[key@])
        } else {
            None
        }),
{
    t.get(key).copied()
}

/// `IndexMap::contains_key`: whether an equal key is present.
#[verifier::external_body]
fn table_contains_key(t: &FnvIndexMap<&'static str, u32, UID_TABLE_CAPACITY>, key: &str) -> (r: bool)
    ensures
        r == uid_table_contents(*t).dom().contains(key@),
{
    t.contains_key(key)
}

/// The variable table a new handler starts with.
pub open spec fn default_uid_table() -> Map<Seq<char>, u32> {
    Map::empty()
        .insert(uid::CRT_TEMP@, 3631)
        .insert(uid::PROC_HOT_TEMP@, 3731)
        .insert(uid::PROFILE_TYPE@, 0)
        .insert(uid::FAN_ON_TEMP@, 3431)
        .insert(uid::FAN_RAMP_TEMP@, 3481)
        .insert(uid::FAN_MAX_TEMP@, 3531)
        .insert(uid::FAN_MIN_RPM@, 0)
        .insert(uid::FAN_MAX_RPM@, 0)
        .insert(uid::FAN_CURRENT_RPM@, 0)
}

/// The ids of the variable table.
pub open spec fn known_uids() -> Set<Seq<char>> {
    default_uid_table().dom()
}

/// State of the fan-control policy.
#[derive(Debug, Clone, Copy, PartialEq, Eq, Structural)]
pub enum FanState {
    Off,
    On,
    Ramping,
    Max,
}

/// How the current temperature compares with a threshold.
#[derive(Debug, Clone, Copy, PartialEq, Eq, Structural)]
pub enum TempOrder {
    /// Below the threshold.
    Below,
    /// Equal to the threshold.
    Equal,
    /// Above the threshold.
    Above,
    /// Not comparable (a NaN reading).
    Unordered,
}

/// `temp >= threshold`.
pub open spec fn at_or_above(o: TempOrder) -> bool {
    o is Equal || o is Above
}

/// `temp < threshold`.
pub open spec fn below(o: TempOrder) -> bool {
    o is Below
}

/// A step of the fan-control policy, taken on the fan with id 0.
#[derive(Debug, Clone, Copy, PartialEq, Eq, Structural)]
pub enum FanAction {
    /// Ask the fan for its minimum speed, then set the fan to it.
    SetMinRpm,
    /// Set the fan speed to 0.
    TurnOff,
    /// Set the fan speed along the ramp curve for the current temperature.
    Ramp,
    /// Ask the fan for its maximum speed, then set the fan to it.
    SetMaxRpm,
}

/// The fan state after one policy round, given how the temperature
/// compares with the fan-on, ramp and maximum temperatures.
pub open spec fn next_fan_state(s: FanState, on: TempOrder, ramp: TempOrder, max: TempOrder) -> FanState {
    match s {
        FanState::Off => if at_or_above(on) {
            FanState::On
        } else {
            FanState::Off
        },
        FanState::On => if at_or_above(ramp) {
            FanState::Ramping
        } else if below(on) {
            FanState::Off
        } else {
            FanState::On
        },
        FanState::Ramping => if below(ramp) {
            FanState::On
        } else if below(max) {
            FanState::Ramping
        } else {
            FanState::Max
        },
        FanState::Max => if below(max) {
            FanState::Ramping
        } else {
            FanState::Max
        },
    }
}

/// The fan steps of one policy round, in order.
pub open spec fn fan_actions(s: FanState, on: TempOrder, ramp: TempOrder, max: TempOrder) -> Seq<FanAction> {
    match s {
        FanState::Off => if at_or_above(on) {
            seq![FanAction::SetMinRpm]
        } else {
            seq![]
        },
        FanState::On => if at_or_above(ramp) {
            seq![]
        } else if below(on) {
            seq![FanAction::TurnOff]
        } else {
            seq![]
        },
        FanState::Ramping => if below(ramp) {
            seq![FanAction::SetMinRpm]
        } else if below(max) {
            seq![FanAction::Ramp]
        } else {
            seq![FanAction::SetMaxRpm]
        },
        FanState::Max => seq![],
    }
}

/// The notifications one temperature check sends, in order: `ProcHot` to
/// the host when the temperature is at or above the processor-hot
/// temperature; `Critical` to the host and to the power service when it is
/// at or above the critical temperature.
pub open spec fn spec_notifications(proc_hot: TempOrder, crt: TempOrder) -> Seq<
    (EndpointID, mptf::Notify),
> {
    (if at_or_above(proc_hot) {
        seq![(EndpointID::External(External::Host), mptf::Notify::ProcHot)]
    } else {
        seq![]
    }) + (if at_or_above(crt) {
        seq![
            (EndpointID::External(External::Host), mptf::Notify::Critical),
            (EndpointID::Internal(Internal::Power), mptf::Notify::Critical),
        ]
    } else {
        seq![]
    })
}

/// The notifications one temperature check sends, given how the
/// temperature compares with the processor-hot and the critical
/// temperatures (see [`spec_notifications`]).
pub fn notifications(proc_hot: TempOrder, crt: TempOrder) -> (r: Vec<(EndpointID, mptf::Notify)>)
    ensures
        r@ == spec_notifications(proc_hot, crt),
{
    let mut r: Vec<(EndpointID, mptf::Notify)> = Vec::new();
    match proc_hot {
        TempOrder::Equal | TempOrder::Above => {
            r.push((EndpointID::External(External::Host), mptf::Notify::ProcHot));
        },
        _ => {},
    }
    match crt {
        TempOrder::Equal | TempOrder::Above => {
            r.push((EndpointID::External(External::Host), mptf::Notify::Critical));
            r.push((EndpointID::Internal(Internal::Power), mptf::Notify::Critical));
        },
        _ => {},
    }
    assert(r@ =~= spec_notifications(proc_hot, crt));
    r
}

/// The notification a threshold alert from the sensor sends: the host is
/// told a threshold was crossed, whichever it was.
pub fn threshold_notification(alert: sensor::Alert) -> (r: (EndpointID, mptf::Notify))
    ensures
        r == (EndpointID::External(External::Host), mptf::Notify::Threshold),
{
    match alert {
        sensor::Alert::ThresholdLow | sensor::Alert::ThresholdHigh => (
            EndpointID::External(External::Host),
            mptf::Notify::Threshold,
        ),
    }
}

/// The minimum speed a fan reply carries, if it is a `MinRpm` reply.
pub fn min_rpm_of(reply: Result<fan::Response, fan::Error>) -> (r: Option<u16>)
    ensures
        r == (match reply {
            Ok(fan::Response::MinRpm(rpm)) => Some(rpm),
            _ => None::<u16>,
        }),
{
    match reply {
        Ok(fan::Response::MinRpm(rpm)) => Some(rpm),
        _ => None,
    }
}

/// The maximum speed a fan reply carries, if it is a `MaxRpm` reply.
pub fn max_rpm_of(reply: Result<fan::Response, fan::Error>) -> (r: Option<u16>)
    ensures
        r == (match reply {
            Ok(fan::Response::MaxRpm(rpm)) => Some(rpm),
            _ => None::<u16>,
        }),
{
    match reply {
        Ok(fan::Response::MaxRpm(rpm)) => Some(rpm),
        _ => None,
    }
}

/// The speed of the ramp curve: the speed range divided by the whole part
/// of the temperature.
pub open spec fn spec_ramp_rpm(min_rpm: u16, max_rpm: u16, temp_whole: u16) -> int {
    (max_rpm - min_rpm) / (temp_whole as int)
}

/// The speed of the ramp curve: the speed range divided by the whole part
/// of the temperature (`temp as u16`).
pub fn ramp_rpm(min_rpm: u16, max_rpm: u16, temp_whole: u16) -> (r: u16)
    requires
        min_rpm <= max_rpm,
        temp_whole > 0,
    ensures
        r == spec_ramp_rpm(min_rpm, max_rpm, temp_whole),
{
    (max_rpm - min_rpm) / temp_whole
}

/// Law: the host is told of a processor-hot temperature exactly when the
/// temperature is at or above the processor-hot temperature, and the power
/// service is told of a critical temperature exactly when it is at or above
/// the critical one; each notification is sent at most once per check.
pub proof fn lemma_notifications(proc_hot: TempOrder, crt: TempOrder)
    ensures
        spec_notifications(proc_hot, crt).contains(
            (EndpointID::External(External::Host), mptf::Notify::ProcHot),
        ) <==> at_or_above(proc_hot),
        spec_notifications(proc_hot, crt).contains(
            (EndpointID::External(External::Host), mptf::Notify::Critical),
        ) <==> at_or_above(crt),
        spec_notifications(proc_hot, crt).contains(
            (EndpointID::Internal(Internal::Power), mptf::Notify::Critical),
        ) <==> at_or_above(crt),
        spec_notifications(proc_hot, crt).len() == (if at_or_above(proc_hot) { 1int } else { 0 })
            + (if at_or_above(crt) { 2int } else { 0 }),
        forall|k: int|
            0 <= k < spec_notifications(proc_hot, crt).len() ==> {
                let m = #[trigger] spec_notifications(proc_hot, crt)[k];
                ||| m == (EndpointID::External(External::Host), mptf::Notify::ProcHot)
                ||| m == (EndpointID::External(External::Host), mptf::Notify::Critical)
                ||| m == (EndpointID::Internal(Internal::Power), mptf::Notify::Critical)
            },
        forall|i: int, j: int|
            0 <= i < j < spec_notifications(proc_hot, crt).len() ==> spec_notifications(
                proc_hot,
                crt,
            )[i] != spec_notifications(proc_hot, crt)[j],
{
    let n = spec_notifications(proc_hot, crt);
    let host_hot = (EndpointID::External(External::Host), mptf::Notify::ProcHot);
    let host_crt = (EndpointID::External(External::Host), mptf::Notify::Critical);
    let power_crt = (EndpointID::Internal(Internal::Power), mptf::Notify::Critical);
    if at_or_above(proc_hot) {
        assert(n[0] == host_hot);
    }
    if at_or_above(crt) {
        assert(n[n.len() - 2] == host_crt);
        assert(n[n.len() - 1] == power_crt);
    }
    if n.contains(host_hot) {
        let i = choose|i: int| 0 <= i < n.len() && n[i] == host_hot;
        assert(at_or_above(proc_hot));
    }
    if n.contains(host_crt) {
        let i = choose|i: int| 0 <= i < n.len() && n[i] == host_crt;
        assert(at_or_above(crt));
    }
    if n.contains(power_crt) {
        let i = choose|i: int| 0 <= i < n.len() && n[i] == power_crt;
        assert(at_or_above(crt));
    }
}

/// What a ramp response needs to know from the fan's replies: the minimum
/// and the maximum speed, if the replies carry them.
pub open spec fn spec_ramp_limits(min_reply: Result<fan::Response, fan::Error>, max_reply: Result<
    fan::Response,
    fan::Error,
>) -> Option<(u16, u16)> {
    match (min_reply, max_reply) {
        (Ok(fan::Response::MinRpm(lo)), Ok(fan::Response::MaxRpm(hi))) => Some((lo, hi)),
        _ => None,
    }
}

/// The speed a ramp response sets, from the fan's reply to the minimum-speed
/// request (checked first: the maximum is asked only when it carries a
/// speed), its reply to the maximum-speed request and the whole part of the
/// temperature; `Err(())` when a reply does not carry the speed asked for.
pub fn ramp_target(
    min_reply: Result<fan::Response, fan::Error>,
    max_reply: Result<fan::Response, fan::Error>,
    temp_whole: u16,
) -> (r: Result<u16, ()>)
    requires
        spec_ramp_limits(min_reply, max_reply) matches Some((lo, hi)) ==> lo <= hi && temp_whole > 0,
    ensures
        match spec_ramp_limits(min_reply, max_reply) {
            Some((lo, hi)) => r == Ok::<u16, ()>(spec_ramp_rpm(lo, hi, temp_whole) as u16),
            None => r == Err::<u16, ()>(()),
        },
{
    let lo = match min_rpm_of(min_reply) {
        Some(rpm) => rpm,
        None => return Err(()),
    };
    let hi = match max_rpm_of(max_reply) {
        Some(rpm) => rpm,
        None => return Err(()),
    };
    Ok(ramp_rpm(lo, hi, temp_whole))
}

/// Law: the ramp speed is the whole number of times the temperature fits
/// into the speed range: never more than the range, the whole range at 1
/// degree, and no faster at a higher temperature.
pub proof fn lemma_ramp_speed(lo: u16, hi: u16, t: u16, t2: u16)
    requires
        lo <= hi,
        0 < t <= t2,
    ensures
        0 <= spec_ramp_rpm(lo, hi, t) <= hi - lo,
        spec_ramp_rpm(lo, hi, t) * t <= hi - lo < (spec_ramp_rpm(lo, hi, t) + 1) * t,
        t == 1 ==> spec_ramp_rpm(lo, hi, t) == hi - lo,
        spec_ramp_rpm(lo, hi, t2) <= spec_ramp_rpm(lo, hi, t),
{
    let d: int = hi - lo;
    assert(0 <= d / (t as int) <= d && (d / (t as int)) * t <= d < (d / (t as int) + 1) * t)
        by (nonlinear_arith)
        requires
            0 <= d,
            0 < t,
    ;
    assert(d / (t2 as int) <= d / (t as int)) by (nonlinear_arith)
        requires
            0 <= d,
            0 < t <= t2,
    {
        vstd::arithmetic::div_mod::lemma_div_is_ordered_by_denominator(d, t as int, t2 as int);
    }
}

/// Law: the ramp limits are known exactly when the fan replied with its
/// minimum speed to the first request and its maximum speed to the second,
/// and they are those two speeds.
pub proof fn lemma_ramp_limits(min_reply: Result<fan::Response, fan::Error>, max_reply: Result<fan::Response, fan::Error>)
    ensures
        spec_ramp_limits(min_reply, max_reply) is Some <==> (min_reply matches Ok(
            fan::Response::MinRpm(_),
        ) && max_reply matches Ok(fan::Response::MaxRpm(_))),
        min_reply matches Ok(fan::Response::MinRpm(lo)) ==> (max_reply matches Ok(
            fan::Response::MaxRpm(hi),
        ) ==> spec_ramp_limits(min_reply, max_reply) == Some((lo, hi))),
{
}

/// Law: the fan is switched off only from the `On` state, and only by a
/// `TurnOff` step.
pub proof fn lemma_off_only_from_on(s: FanState, on: TempOrder, ramp: TempOrder, max: TempOrder)
    ensures
        s != FanState::Off && next_fan_state(s, on, ramp, max) == FanState::Off ==> s == FanState::On
            && fan_actions(s, on, ramp, max) == seq![FanAction::TurnOff],
        fan_actions(s, on, ramp, max).contains(FanAction::TurnOff) ==> s == FanState::On
            && next_fan_state(s, on, ramp, max) == FanState::Off,
{
    if fan_actions(s, on, ramp, max).contains(FanAction::TurnOff) {
        let i = choose|i: int|
            0 <= i < fan_actions(s, on, ramp, max).len() && fan_actions(s, on, ramp, max)[i]
                == FanAction::TurnOff;
        assert(fan_actions(s, on, ramp, max)[i] == FanAction::TurnOff);
    }
}

/// Law: the fan reaches full speed only from the ramping state (or stays
/// there), and reaching it always sets the maximum speed.
pub proof fn lemma_max_only_from_ramping(s: FanState, on: TempOrder, ramp: TempOrder, max: TempOrder)
    ensures
        next_fan_state(s, on, ramp, max) == FanState::Max ==> s == FanState::Ramping || s
            == FanState::Max,
        s == FanState::Ramping && next_fan_state(s, on, ramp, max) == FanState::Max
            ==> fan_actions(s, on, ramp, max).last() == FanAction::SetMaxRpm,
{
}

/// Law: a fan that is off stays off, with nothing done, while the
/// temperature is below the fan-on temperature; once it reaches it, the fan
/// is set to its minimum speed and turned on.
pub proof fn lemma_off_turns_on_at_on_temp(on: TempOrder, ramp: TempOrder, max: TempOrder)
    ensures
        below(on) ==> next_fan_state(FanState::Off, on, ramp, max) == FanState::Off && fan_actions(
            FanState::Off,
            on,
            ramp,
            max,
        ).len() == 0,
        at_or_above(on) ==> next_fan_state(FanState::Off, on, ramp, max) == FanState::On
            && fan_actions(FanState::Off, on, ramp, max) == seq![FanAction::SetMinRpm],
{
}

/// Law: a running fan keeps its state, with nothing done, while the
/// temperature stays between the fan-on and the ramp temperatures.
pub proof fn lemma_on_holds_between_thresholds(on: TempOrder, ramp: TempOrder, max: TempOrder)
    requires
        at_or_above(on),
        below(ramp),
    ensures
        next_fan_state(FanState::On, on, ramp, max) == FanState::On,
        fan_actions(FanState::On, on, ramp, max).len() == 0,
{
}

/// Law: every policy round in the ramping state takes exactly one speed
/// step: back to the minimum speed (and to `On`) below the ramp
/// temperature, along the ramp curve below the maximum temperature, and to
/// full speed (and `Max`) otherwise.
pub proof fn lemma_ramping_sets_speed(on: TempOrder, ramp: TempOrder, max: TempOrder)
    ensures
        fan_actions(FanState::Ramping, on, ramp, max).len() == 1,
        below(ramp) ==> fan_actions(FanState::Ramping, on, ramp, max)[0] == FanAction::SetMinRpm
            && next_fan_state(FanState::Ramping, on, ramp, max) == FanState::On,
        !below(ramp) && below(max) ==> fan_actions(FanState::Ramping, on, ramp, max)[0]
            == FanAction::Ramp && next_fan_state(FanState::Ramping, on, ramp, max)
            == FanState::Ramping,
        !below(ramp) && !below(max) ==> fan_actions(FanState::Ramping, on, ramp, max)[0]
            == FanAction::SetMaxRpm && next_fan_state(FanState::Ramping, on, ramp, max)
            == FanState::Max,
{
}

/// Law: whenever a policy round sets the fan speed, the last speed it sets
/// is the one the state it ends in stands for: minimum speed for `On`, off
/// for `Off`, the ramp curve for `Ramping` and full speed for `Max`.
pub proof fn lemma_last_speed_matches_state(s: FanState, on: TempOrder, ramp: TempOrder, max: TempOrder)
    requires
        fan_actions(s, on, ramp, max).len() > 0,
    ensures
        fan_actions(s, on, ramp, max).last() == match next_fan_state(s, on, ramp, max) {
            FanState::Off => FanAction::TurnOff,
            FanState::On => FanAction::SetMinRpm,
            FanState::Ramping => FanAction::Ramp,
            FanState::Max => FanAction::SetMaxRpm,
        },
{
}

/// Law: a running fan starts ramping exactly when the temperature reaches
/// the ramp temperature, is turned off (by a `TurnOff` step) exactly when
/// it is below both the ramp and the fan-on temperatures, and otherwise
/// stays on with nothing done; a fan that is off is turned on (at minimum
/// speed) exactly when the temperature reaches the fan-on temperature, and
/// otherwise stays off with nothing done.
pub proof fn lemma_on_and_off_transitions(on: TempOrder, ramp: TempOrder, max: TempOrder)
    ensures
        next_fan_state(FanState::On, on, ramp, max) == FanState::Ramping <==> at_or_above(ramp),
        next_fan_state(FanState::On, on, ramp, max) == FanState::Off <==> !at_or_above(ramp)
            && below(on),
        next_fan_state(FanState::On, on, ramp, max) != FanState::Max,
        fan_actions(FanState::On, on, ramp, max) == if next_fan_state(FanState::On, on, ramp, max)
            == FanState::Off {
            seq![FanAction::TurnOff]
        } else {
            Seq::<FanAction>::empty()
        },
        next_fan_state(FanState::Off, on, ramp, max) == FanState::On <==> at_or_above(on),
        next_fan_state(FanState::Off, on, ramp, max) == FanState::On || next_fan_state(
            FanState::Off,
            on,
            ramp,
            max,
        ) == FanState::Off,
        fan_actions(FanState::Off, on, ramp, max) == if at_or_above(on) {
            seq![FanAction::SetMinRpm]
        } else {
            Seq::<FanAction>::empty()
        },
{
    assert(fan_actions(FanState::On, on, ramp, max) =~= if next_fan_state(FanState::On, on, ramp, max)
        == FanState::Off {
        seq![FanAction::TurnOff]
    } else {
        Seq::<FanAction>::empty()
    });
    assert(fan_actions(FanState::Off, on, ramp, max) =~= if at_or_above(on) {
        seq![FanAction::SetMinRpm]
    } else {
        Seq::<FanAction>::empty()
    });
}

/// Law: from full speed, a temperature below the maximum temperature always
/// leaves `Max` for `Ramping`; the fan stays at `Max` only while the
/// temperature is not below the maximum. Neither takes a fan step.
pub proof fn lemma_max_leaves_below_max(on: TempOrder, ramp: TempOrder, max: TempOrder)
    ensures
        below(max) ==> next_fan_state(FanState::Max, on, ramp, max) == FanState::Ramping,
        next_fan_state(FanState::Max, on, ramp, max) == FanState::Max <==> !below(max),
        fan_actions(FanState::Max, on, ramp, max).len() == 0,
{
}

/// The fan state after `k` policy rounds at the same temperature.
pub open spec fn after_rounds(s: FanState, on: TempOrder, ramp: TempOrder, max: TempOrder, k: nat) -> FanState
    decreases k,
{
    if k == 0 {
        s
    } else {
        after_rounds(next_fan_state(s, on, ramp, max), on, ramp, max, (k - 1) as nat)
    }
}

/// How many rounds a cold fan needs from `s` to be off.
spec fn rounds_to_off(s: FanState) -> nat {
    match s {
        FanState::Off => 0,
        FanState::On => 1,
        FanState::Ramping => 2,
        FanState::Max => 3,
    }
}

/// How many rounds a hot fan needs from `s` to be at full speed.
spec fn rounds_to_max(s: FanState) -> nat {
    match s {
        FanState::Off => 3,
        FanState::On => 2,
        FanState::Ramping => 1,
        FanState::Max => 0,
    }
}

proof fn lemma_cooling_rounds(s: FanState, on: TempOrder, ramp: TempOrder, max: TempOrder, k: nat)
    requires
        below(on),
        below(ramp),
        below(max),
        k >= rounds_to_off(s),
    ensures
        after_rounds(s, on, ramp, max, k) == FanState::Off,
    decreases k,
{
    if k > 0 {
        lemma_cooling_rounds(next_fan_state(s, on, ramp, max), on, ramp, max, (k - 1) as nat);
    }
}

proof fn lemma_heating_rounds(s: FanState, on: TempOrder, ramp: TempOrder, max: TempOrder, k: nat)
    requires
        at_or_above(on),
        at_or_above(ramp),
        at_or_above(max),
        k >= rounds_to_max(s),
    ensures
        after_rounds(s, on, ramp, max, k) == FanState::Max,
    decreases k,
{
    if k > 0 {
        lemma_heating_rounds(next_fan_state(s, on, ramp, max), on, ramp, max, (k - 1) as nat);
    }
}

/// Law: while the temperature stays below the fan-on, ramp and maximum
/// temperatures, the fan is off after at most three rounds, whatever state
/// it starts in, and stays off.
pub proof fn lemma_cooling_turns_fan_off(s: FanState, on: TempOrder, ramp: TempOrder, max: TempOrder, k: nat)
    requires
        below(on),
        below(ramp),
        below(max),
        k >= 3,
    ensures
        after_rounds(s, on, ramp, max, k) == FanState::Off,
{
    lemma_cooling_rounds(s, on, ramp, max, k);
}

/// Law: while the temperature stays at or above the fan-on, ramp and
/// maximum temperatures, the fan is at full speed after at most three
/// rounds, whatever state it starts in, and stays there.
pub proof fn lemma_heating_reaches_max(s: FanState, on: TempOrder, ramp: TempOrder, max: TempOrder, k: nat)
    requires
        at_or_above(on),
        at_or_above(ramp),
        at_or_above(max),
        k >= 3,
    ensures
        after_rounds(s, on, ramp, max, k) == FanState::Max,
{
    lemma_heating_rounds(s, on, ramp, max, k);
}

/// Handler state.
pub struct State {
    /// Cached, most recently measured temperature (degrees Celsius, bits)
    cur_temp: u32,
    /// Current fan state
    fan_state: FanState,
    /// Threshold timeout and low and high thresholds (degrees Celsius, bits)
    thresholds: (u32, u32, u32),
    cooling_policy: u32,
    acoustic_lim: u32,
    power_lim: u32,
    /// Values of the MPTF variables, by id
    uid_table: FnvIndexMap<&'static str, u32, UID_TABLE_CAPACITY>,
}

/// Abstract handler state.
pub struct StateView {
    pub cur_temp: u32,
    pub fan_state: FanState,
    pub thresholds: (u32, u32, u32),
    pub cooling_policy: u32,
    pub acoustic_lim: u32,
    pub power_lim: u32,
    pub uid_table: Map<Seq<char>, u32>,
}

impl State {
    pub closed spec fn view(&self) -> StateView {
        StateView {
            cur_temp: self.cur_temp,
            fan_state: self.fan_state,
            thresholds: self.thresholds,
            cooling_policy: self.cooling_policy,
            acoustic_lim: self.acoustic_lim,
            power_lim: self.power_lim,
            uid_table: uid_table_contents(self.uid_table),
        }
    }

    /// The variable table always holds exactly the known ids.
    #[verifier::type_invariant]
    spec fn table_keys_fixed(self) -> bool {
        uid_table_contents(self.uid_table).dom() == known_uids()
    }

    /// The state a new handler starts with.
    pub fn new() -> (r: Self)
        ensures
            r.view() == (StateView {
                cur_temp: 0,
                fan_state: FanState::Off,
                thresholds: (0, 0, 0),
                cooling_policy: 0,
                acoustic_lim: 0,
                power_lim: 0,
                uid_table: default_uid_table(),
            }),
    {
        let mut t = table_new();
        let _ = table_insert(&mut t, uid::CRT_TEMP, 3631);
        let _ = table_insert(&mut t, uid::PROC_HOT_TEMP, 3731);
        let _ = table_insert(&mut t, uid::PROFILE_TYPE, 0);
        let _ = table_insert(&mut t, uid::FAN_ON_TEMP, 3431);
        let _ = table_insert(&mut t, uid::FAN_RAMP_TEMP, 3481);
        let _ = table_insert(&mut t, uid::FAN_MAX_TEMP, 3531);
        let _ = table_insert(&mut t, uid::FAN_MIN_RPM, 0);
        let _ = table_insert(&mut t, uid::FAN_MAX_RPM, 0);
        let _ = table_insert(&mut t, uid::FAN_CURRENT_RPM, 0);
        assert(uid_table_contents(t) =~= default_uid_table());
        State {
            cur_temp: 0,
            fan_state: FanState::Off,
            thresholds: (0, 0, 0),
            cooling_policy: 0,
            acoustic_lim: 0,
            power_lim: 0,
            uid_table: t,
        }
    }

    /// The cached temperature.
    pub fn cur_temp(&self) -> (r: u32)
        ensures
            r == self.view().cur_temp,
    {
        self.cur_temp
    }

    /// Caches the temperature the sensor replied with; a failed or
    /// unexpected reply keeps the cached one.
    pub fn update_cur_temp(&mut self, reply: Result<sensor::Response, sensor::Error>)
        ensures
            final(self).view() == (StateView {
                cur_temp: match reply {
                    Ok(sensor::Response::Temp(t)) => t,
                    _ => old(self).view().cur_temp,
                },
                ..old(self).view()
            }),
    {
        proof {
            use_type_invariant(&*self);
        }
        if let Ok(sensor::Response::Temp(t)) = reply {
            self.cur_temp = t;
        }
    }

    /// The current fan state.
    pub fn fan_state(&self) -> (r: FanState)
        ensures
            r == self.view().fan_state,
    {
        self.fan_state
    }

    /// The threshold timeout and the low and high thresholds.
    pub fn thresholds(&self) -> (r: (u32, u32, u32))
        ensures
            r == self.view().thresholds,
    {
        self.thresholds
    }

    /// Records the threshold timeout and the low and high thresholds.
    pub fn set_thresholds(&mut self, timeout: u32, low: u32, high: u32)
        ensures
            final(self).view() == (StateView { thresholds: (timeout, low, high), ..old(self).view() }),
    {
        proof {
            use_type_invariant(&*self);
        }
        self.thresholds = (timeout, low, high);
    }

    /// The cooling policy and the acoustic and power limits.
    pub fn scp(&self) -> (r: (u32, u32, u32))
        ensures
            r == (self.view().cooling_policy, self.view().acoustic_lim, self.view().power_lim),
    {
        (self.cooling_policy, self.acoustic_lim, self.power_lim)
    }

    /// EC_THM_SET_SCP: records the cooling mode and the acoustic and power
    /// limits.
    pub fn set_scp(&mut self, mode: mptf::Dword, acoustic_lim: mptf::Dword, power_lim: mptf::Dword) -> (r: Result<mptf::Response, mptf::Error>)
        ensures
            r == Ok::<mptf::Response, mptf::Error>(mptf::Response::SetScp),
            final(self).view() == (StateView {
                cooling_policy: mode,
                acoustic_lim,
                power_lim,
                ..old(self).view()
            }),
    {
        proof {
            use_type_invariant(&*self);
        }
        self.cooling_policy = mode;
        self.acoustic_lim = acoustic_lim;
        self.power_lim = power_lim;
        Ok(mptf::Response::SetScp)
    }

    /// The value of a variable, if `uid` is a known id.
    pub fn var(&self, uid: &str) -> (r: Option<u32>)
        ensures
            r == (if self.view().uid_table.dom().contains(uid@) {
                Some(self.view().uid_table[uid@])
            } else {
                None
            }),
            r is Some <==> known_uids().contains(uid@),
    {
        proof {
            use_type_invariant(self);
        }
        table_get(&self.uid_table, uid)
    }

    /// The critical temperature (deciKelvin).
    pub fn crt_temp(&self) -> (r: u32)
        ensures
            r == self.view().uid_table[uid::CRT_TEMP@],
    {
        self.known_var(uid::CRT_TEMP)
    }

    /// The processor-hot temperature (deciKelvin).
    pub fn proc_hot_temp(&self) -> (r: u32)
        ensures
            r == self.view().uid_table[uid::PROC_HOT_TEMP@],
    {
        self.known_var(uid::PROC_HOT_TEMP)
    }

    /// The temperature at which the fan turns on (deciKelvin).
    pub fn fan_on_temp(&self) -> (r: u32)
        ensures
            r == self.view().uid_table[uid::FAN_ON_TEMP@],
    {
        self.known_var(uid::FAN_ON_TEMP)
    }

    /// The temperature at which the fan starts ramping (deciKelvin).
    pub fn fan_ramp_temp(&self) -> (r: u32)
        ensures
            r == self.view().uid_table[uid::FAN_RAMP_TEMP@],
    {
        self.known_var(uid::FAN_RAMP_TEMP)
    }

    /// The temperature at which the fan runs at full speed (deciKelvin).
    pub fn fan_max_temp(&self) -> (r: u32)
        ensures
            r == self.view().uid_table[uid::FAN_MAX_TEMP@],
    {
        self.known_var(uid::FAN_MAX_TEMP)
    }

    /// The value of a known variable.
    fn known_var(&self, uid: &str) -> (r: u32)
        requires
            known_uids().contains(uid@),
        ensures
            r == self.view().uid_table[uid@],
    {
        match self.var(uid) {
            Some(v) => v,
            None => 0,
        }
    }

    /// EC_THM_GET_VAR: the value of a variable, or `InvalidParameter` for an
    /// unknown id.
    pub fn get_var(&self, uid: mptf::Uid) -> (r: Result<mptf::Response, mptf::Error>)
        ensures
            known_uids().contains(uid@) ==> r == Ok::<mptf::Response, mptf::Error>(
                mptf::Response::GetVar(self.view().uid_table[uid@]),
            ),
            !known_uids().contains(uid@) ==> r == Err::<mptf::Response, mptf::Error>(
                mptf::Error::InvalidParameter,
            ),
    {
        match self.var(uid) {
            Some(val) => Ok(mptf::Response::GetVar(val)),
            None => Err(mptf::Error::InvalidParameter),
        }
    }

    /// EC_THM_SET_VAR: sets a known variable, or answers `InvalidParameter`
    /// and changes nothing for an unknown id.
    pub fn set_var(&mut self, uid: mptf::Uid, val: mptf::Dword) -> (r: Result<mptf::Response, mptf::Error>)
        ensures
            known_uids().contains(uid@) ==> r == Ok::<mptf::Response, mptf::Error>(
                mptf::Response::SetVar,
            ) && final(self).view() == (StateView {
                uid_table: old(self).view().uid_table.insert(uid@, val),
                ..old(self).view()
            }),
            !known_uids().contains(uid@) ==> r == Err::<mptf::Response, mptf::Error>(
                mptf::Error::InvalidParameter,
            ) && final(self).view() == old(self).view(),
    {
        proof {
            use_type_invariant(&*self);
        }
        if table_contains_key(&self.uid_table, uid) {
            assert(uid_table_contents(self.uid_table).insert(uid@, val).dom() =~= known_uids());
            let _ = table_insert(&mut self.uid_table, uid, val);
            Ok(mptf::Response::SetVar)
        } else {
            Err(mptf::Error::InvalidParameter)
        }
    }

    /// One round of the fan-control policy: moves the fan state and returns
    /// the fan steps to take, given how the temperature compares with the
    /// fan-on, ramp and maximum temperatures.
    pub fn step_fan_state(&mut self, on: TempOrder, ramp: TempOrder, max: TempOrder) -> (r: Vec<FanAction>)
        ensures
            r@ == fan_actions(old(self).view().fan_state, on, ramp, max),
            final(self).view() == (StateView {
                fan_state: next_fan_state(old(self).view().fan_state, on, ramp, max),
                ..old(self).view()
            }),
    {
        proof {
            use_type_invariant(&*self);
        }
        let mut actions: Vec<FanAction> = Vec::new();
        let ge_on = match on {
            TempOrder::Equal | TempOrder::Above => true,
            _ => false,
        };
        let ge_ramp = match ramp {
            TempOrder::Equal | TempOrder::Above => true,
            _ => false,
        };
        let lt_on = match on {
            TempOrder::Below => true,
            _ => false,
        };
        let lt_ramp = match ramp {
            TempOrder::Below => true,
            _ => false,
        };
        let lt_max = match max {
            TempOrder::Below => true,
            _ => false,
        };
        match self.fan_state {
            FanState::Off => {
                if ge_on {
                    actions.push(FanAction::SetMinRpm);
                    self.fan_state = FanState::On;
                }
            },
            FanState::On => {
                if ge_ramp {
                    self.fan_state = FanState::Ramping;
                } else if lt_on {
                    actions.push(FanAction::TurnOff);
                    self.fan_state = FanState::Off;
                }
            },
            FanState::Ramping => {
                if lt_ramp {
                    actions.push(FanAction::SetMinRpm);
                    self.fan_state = FanState::On;
                } else if lt_max {
                    actions.push(FanAction::Ramp);
                } else {
                    actions.push(FanAction::SetMaxRpm);
                    self.fan_state = FanState::Max;
                }
            },
            FanState::Max => {
                if lt_max {
                    self.fan_state = FanState::Ramping;
                }
            },
        }
        assert(actions@ =~= fan_actions(old(self).view().fan_state, on, ramp, max));
        actions
    }
}

/// Law: a known variable reads back the value last written to it, and
/// writing a variable leaves the other variables as they were.
pub proof fn lemma_set_then_get_var(table: Map<Seq<char>, u32>, uid: Seq<char>, other: Seq<char>, val: u32)
    requires
        table.dom() == known_uids(),
        known_uids().contains(uid),
    ensures
        table.insert(uid, val).dom() == known_uids(),
        table.insert(uid, val)[uid] == val,
        other != uid ==> table.insert(uid, val)[other] == table[other],
{
    assert(table.insert(uid, val).dom() =~= known_uids());
}

/// The known ids are pairwise different: they differ in one of their first
/// two characters.
proof fn lemma_uids_distinct()
    ensures
        uid::CRT_TEMP@[0] == '2' && uid::CRT_TEMP@[1] == '1',
        uid::PROC_HOT_TEMP@[0] == '2' && uid::PROC_HOT_TEMP@[1] == '2',
        uid::PROFILE_TYPE@[0] == '2' && uid::PROFILE_TYPE@[1] == '3',
        uid::FAN_ON_TEMP@[0] == 'b' && uid::FAN_ON_TEMP@[1] == 'a',
        uid::FAN_RAMP_TEMP@[0] == '3' && uid::FAN_RAMP_TEMP@[1] == 'a',
        uid::FAN_MAX_TEMP@[0] == 'd' && uid::FAN_MAX_TEMP@[1] == 'c',
        uid::FAN_MIN_RPM@[0] == 'd' && uid::FAN_MIN_RPM@[1] == 'b',
        uid::FAN_MAX_RPM@[0] == '5' && uid::FAN_MAX_RPM@[1] == 'c',
        uid::FAN_CURRENT_RPM@[0] == 'a' && uid::FAN_CURRENT_RPM@[1] == 'd',
{
    reveal_strlit("218246e7-baf6-45f1-aa13-07e4845256b8");
    reveal_strlit("22dc52d2-fd0b-47ab-95b8-26552f9831a5");
    reveal_strlit("23b4a025-cdfd-4af9-a411-37a24c574615");
    reveal_strlit("ba17b567-c368-48d5-bc6f-a312a41583c1");
    reveal_strlit("3a62688c-d95b-4d2d-bacc-90d7a5816bcd");
    reveal_strlit("dcb758b1-f0fd-4ec7-b2c0-ef1e2a547b76");
    reveal_strlit("db261c77-934b-45e2-9742-256c62badb7a");
    reveal_strlit("5cf839df-8be7-42b9-9ac5-3403ca2c8a6a");
    reveal_strlit("adf95492-0776-4ffc-84f3-b6c8b5269683");
}

/// Law: a new handler's table holds exactly the nine known ids, with the
/// default critical temperature of 90 degrees Celsius (3631 dK), the
/// processor-hot temperature of 100 degrees Celsius (3731 dK) and fan
/// temperatures of 70, 75 and 80 degrees Celsius.
pub proof fn lemma_default_table()
    ensures
        default_uid_table().dom().len() == 9,
        default_uid_table()[uid::CRT_TEMP@] == 3631,
        default_uid_table()[uid::PROC_HOT_TEMP@] == 3731,
        default_uid_table()[uid::FAN_ON_TEMP@] == 3431,
        default_uid_table()[uid::FAN_RAMP_TEMP@] == 3481,
        default_uid_table()[uid::FAN_MAX_TEMP@] == 3531,
{
    lemma_uids_distinct();
}

} // verus!
