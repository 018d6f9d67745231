//! Which device's clock is set, and that none is set twice.
//!
//! The set of handled devices only grows: a device enters it when its clock
//! was set or when it is configured to be left alone, and an advertisement
//! of a device in it is passed over.

use std::collections::{HashMap, HashSet};
use vstd::prelude::*;
use vstd::string::*;
use crate::address::{format_bluetooth_address, formatted_address};
use crate::advertisement::{decode_advertisement, decoded, Advertisement, AdvertisementKind};
use crate::clock::get_unix_epoc;
use crate::config::DeviceConfig;
use crate::log::{failure, log_sync_error, log_sync_progress, log_view, progress, SyncLogKind};
use crate::protocol::{sync_xiaomi_clock, Connecting, SyncRequest};

verus! {

broadcast use vstd::std_specs::hash::group_hash_axioms;

/// What an advertisement asks of the coordinator.
#[derive(Clone, Copy, Debug, PartialEq, Eq, Structural)]
pub enum SyncDecision {
    /// Not a temperature or humidity reading: nothing to do.
    Ignore,
    /// The device was handled before: nothing to do.
    AlreadyHandled { address: u64 },
    /// The device is configured to be left alone: it counts as handled.
    Omit { address: u64 },
    /// The device's clock is to be set.
    Attempt { address: u64 },
}

/// The device whose clock a reading may cause to be set. Battery levels
/// may come from other devices and cause nothing.
pub open spec fn sync_address(kind: AdvertisementKind) -> Option<u64> {
    match kind {
        AdvertisementKind::Temperature(v) => Some(v.address),
        AdvertisementKind::Humidity(v) => Some(v.address),
        _ => None,
    }
}

/// Whether `address` is configured to be left alone.
pub open spec fn is_omitted(config: Map<u64, DeviceConfig>, address: u64) -> bool {
    config.contains_key(address) && config[address].omit == Some(true)
}

/// What a reading asks for, given the configuration and the devices
/// handled so far.
pub open spec fn decision(
    config: Map<u64, DeviceConfig>,
    handled: Set<u64>,
    kind: AdvertisementKind,
) -> SyncDecision {
    match sync_address(kind) {
        None => SyncDecision::Ignore,
        Some(address) => if handled.contains(address) {
            SyncDecision::AlreadyHandled { address }
        } else if is_omitted(config, address) {
            SyncDecision::Omit { address }
        } else {
            SyncDecision::Attempt { address }
        },
    }
}

/// The request made for `address` at the time `epoch`: timezone and offset
/// as configured, both absent for a device that is not configured.
pub open spec fn request_at(config: Map<u64, DeviceConfig>, address: u64, epoch: u64)
    -> SyncRequest {
    if config.contains_key(address) {
        SyncRequest {
            address,
            timezone_diff_hour: config[address].diff_hour_at(epoch),
            offset_seconds: config[address].offset_seconds,
        }
    } else {
        SyncRequest { address, timezone_diff_hour: None, offset_seconds: None }
    }
}

/// What `sync_device_args_at` does on a decision, from the state before to
/// the state after and the result.
pub open spec fn coordinated(
    config: Map<u64, DeviceConfig>,
    decided: SyncDecision,
    epoch: u64,
    handled_before: Set<u64>,
    handled_after: Set<u64>,
    log_before: Seq<SyncLogKind>,
    log_after: Seq<SyncLogKind>,
    run: Option<Connecting>,
) -> bool {
    match decided {
        SyncDecision::Ignore => run is None && handled_after == handled_before && log_after
            == log_before,
        SyncDecision::AlreadyHandled { address } => run is None && handled_after == handled_before
            && log_after == log_before,
        SyncDecision::Omit { address } => run is None && handled_after == handled_before.insert(
            address,
        ) && log_view(log_after) == log_view(log_before).push(
            progress(address, "Configured as Omit"@),
        ),
        SyncDecision::Attempt { address } => run == Some(
            Connecting { request: request_at(config, address, epoch) },
        ) && handled_after == handled_before && log_view(log_after) == log_view(log_before).push(
            progress(address, "Connecting..."@),
        ),
    }
}

/// Decides what the reading `kind` asks for.
pub fn decide(config: &HashMap<u64, DeviceConfig>, handled: &HashSet<u64>, kind: AdvertisementKind)
    -> (decided: SyncDecision)
    ensures
        decided == decision(config@, handled@, kind),
{
    let address: u64 = match kind {
        AdvertisementKind::Temperature(v) => v.address,
        AdvertisementKind::Humidity(v) => v.address,
        _ => {
            return SyncDecision::Ignore;
        },
    };
    if handled.contains(&address) {
        return SyncDecision::AlreadyHandled { address };
    }
    let omit: bool = match config.get(&address) {
        Some(device) => match device.omit {
            Some(flag) => flag,
            None => false,
        },
        None => false,
    };
    if omit {
        SyncDecision::Omit { address }
    } else {
        SyncDecision::Attempt { address }
    }
}

/// Takes one advertisement at the time `epoch`, in seconds since 1970.
///
/// A device handled before, and anything but a temperature or humidity
/// reading, changes nothing. A device configured to be left alone becomes
/// handled, with one report, "Configured as Omit". For any other device a
/// run begins, with timezone and offset as configured: the result is its
/// first stage, and the device is not handled yet.
pub fn sync_device_args_at(
    config: &HashMap<u64, DeviceConfig>,
    handled_devices: &mut HashSet<u64>,
    log: &mut Vec<SyncLogKind>,
    args: &Option<Advertisement>,
    epoch: u64,
) -> (run: Option<Connecting>)
    ensures
        coordinated(
            config@,
            decision(config@, old(handled_devices)@, decoded(*args)),
            epoch,
            old(handled_devices)@,
            final(handled_devices)@,
            old(log)@,
            final(log)@,
            run,
        ),
        old(handled_devices)@.subset_of(final(handled_devices)@),
{
    match decide(config, handled_devices, decode_advertisement(args)) {
        SyncDecision::Ignore => None,
        SyncDecision::AlreadyHandled { address } => None,
        SyncDecision::Omit { address } => {
            handled_devices.insert(address);
            log_sync_progress(log, address, "Configured as Omit");
            None
        },
        SyncDecision::Attempt { address } => {
            let mut timezone_hour: Option<i8> = None;
            let mut offset_seconds: Option<i32> = None;
            if let Some(device) = config.get(&address) {
                timezone_hour = device.get_timezone_diff_hour_at(epoch);
                offset_seconds = device.offset_seconds;
            }
            Some(sync_xiaomi_clock(log, address, timezone_hour, offset_seconds))
        },
    }
}

/// Takes one advertisement now: as `sync_device_args_at`, at the time that
/// the machine's clock shows.
pub fn sync_device_args(
    config: &HashMap<u64, DeviceConfig>,
    handled_devices: &mut HashSet<u64>,
    log: &mut Vec<SyncLogKind>,
    args: &Option<Advertisement>,
) -> (run: Option<Connecting>)
    ensures
        exists|epoch: u64|
            coordinated(
                config@,
                decision(config@, old(handled_devices)@, decoded(*args)),
                epoch,
                old(handled_devices)@,
                final(handled_devices)@,
                old(log)@,
                final(log)@,
                run,
            ),
        old(handled_devices)@.subset_of(final(handled_devices)@),
{
    let now = get_unix_epoc();
    sync_device_args_at(config, handled_devices, log, args, now)
}

/// Takes the end of a run for `address`. A clock that was set makes the
/// device handled. A run that failed is reported with its reason, and the
/// device stays as it was: its next advertisement begins another run.
pub fn finish_sync(
    handled_devices: &mut HashSet<u64>,
    log: &mut Vec<SyncLogKind>,
    address: u64,
    outcome: &Result<(), String>,
)
    ensures
        match *outcome {
            Ok(_) => final(handled_devices)@ == old(handled_devices)@.insert(address)
                && final(log)@ == old(log)@,
            Err(reason) => final(handled_devices)@ == old(handled_devices)@
                && log_view(final(log)@) == log_view(old(log)@).push(failure(address, reason@)),
        },
        old(handled_devices)@.subset_of(final(handled_devices)@),
{
    match outcome {
        Ok(_) => {
            handled_devices.insert(address);
        },
        Err(reason) => {
            log_sync_error(log, address, reason.as_str());
        },
    }
}

/// A device is acted on once. After its clock was set, or after it was
/// passed over as configured, it is among the handled devices for good;
/// every further temperature or humidity reading of it is then answered
/// with `AlreadyHandled`: no run begins, nothing is reported and the
/// handled devices stay as they are.
pub proof fn lemma_handled_once(
    config: Map<u64, DeviceConfig>,
    handled: Set<u64>,
    kind: AdvertisementKind,
    address: u64,
    epoch: u64,
    handled_after: Set<u64>,
    log_before: Seq<SyncLogKind>,
    log_after: Seq<SyncLogKind>,
    run: Option<Connecting>,
)
    requires
        sync_address(kind) == Some(address),
        handled.contains(address),
        coordinated(
            config,
            decision(config, handled, kind),
            epoch,
            handled,
            handled_after,
            log_before,
            log_after,
            run,
        ),
    ensures
        decision(config, handled, kind) == (SyncDecision::AlreadyHandled { address }),
        run is None,
        handled_after == handled,
        log_after == log_before,
{
}

/// Of two advertisements with the same temperature or humidity reading,
/// only the first can begin a run, if that run sets the clock: whatever the
/// first one asked for, the device is handled when the run that it began,
/// if any, has ended well, and the second changes nothing.
pub proof fn lemma_second_advertisement_is_passed_over(
    config: Map<u64, DeviceConfig>,
    kind: AdvertisementKind,
    address: u64,
    first_epoch: u64,
    second_epoch: u64,
    handled_at_first: Set<u64>,
    handled_after_first: Set<u64>,
    handled_at_second: Set<u64>,
    handled_after_second: Set<u64>,
    log_at_first: Seq<SyncLogKind>,
    log_after_first: Seq<SyncLogKind>,
    log_at_second: Seq<SyncLogKind>,
    log_after_second: Seq<SyncLogKind>,
    first_run: Option<Connecting>,
    second_run: Option<Connecting>,
)
    requires
        sync_address(kind) == Some(address),
        coordinated(
            config,
            decision(config, handled_at_first, kind),
            first_epoch,
            handled_at_first,
            handled_after_first,
            log_at_first,
            log_after_first,
            first_run,
        ),
        first_run is Some ==> handled_at_second == handled_after_first.insert(address),
        first_run is None ==> handled_at_second == handled_after_first,
        coordinated(
            config,
            decision(config, handled_at_second, kind),
            second_epoch,
            handled_at_second,
            handled_after_second,
            log_at_second,
            log_after_second,
            second_run,
        ),
    ensures
        handled_at_second.contains(address),
        second_run is None,
        handled_after_second == handled_at_second,
        log_after_second == log_at_second,
{
}

/// A device configured to be left alone never has a run begun for it. Its
/// first temperature or humidity reading makes it handled, with the one
/// report "Configured as Omit"; every later one changes nothing.
pub proof fn lemma_omitted_never_attempted(
    config: Map<u64, DeviceConfig>,
    handled: Set<u64>,
    kind: AdvertisementKind,
    address: u64,
    epoch: u64,
    handled_after: Set<u64>,
    log_before: Seq<SyncLogKind>,
    log_after: Seq<SyncLogKind>,
    run: Option<Connecting>,
)
    requires
        sync_address(kind) == Some(address),
        is_omitted(config, address),
        coordinated(
            config,
            decision(config, handled, kind),
            epoch,
            handled,
            handled_after,
            log_before,
            log_after,
            run,
        ),
    ensures
        run is None,
        handled_after == handled.insert(address),
        !handled.contains(address) ==> log_view(log_after) == log_view(log_before).push(
            progress(address, "Configured as Omit"@),
        ),
        handled.contains(address) ==> log_after == log_before,
{
    if handled.contains(address) {
        assert(handled.insert(address) =~= handled);
    }
}

/// Only a temperature or humidity reading can begin a run; a battery
/// level, and what is no reading, is passed over.
pub proof fn lemma_only_readings_count(
    config: Map<u64, DeviceConfig>,
    handled: Set<u64>,
    kind: AdvertisementKind,
)
    ensures
        !(kind is Temperature || kind is Humidity) ==> decision(config, handled, kind)
            == SyncDecision::Ignore,
{
}

/// The name to show for `address`: the configured one, else the address
/// itself as text.
pub open spec fn shown_name(config: Map<u64, DeviceConfig>, address: u64) -> Seq<char> {
    if config.contains_key(address) && config[address].name is Some {
        config[address].name->0@
    } else {
        formatted_address(address)
    }
}

/// Gives the name to show for the device `address`.
pub fn display_name(config: &HashMap<u64, DeviceConfig>, address: u64) -> (name: String)
    ensures
        name@ == shown_name(config@, address),
{
    if let Some(device) = config.get(&address) {
        if let Some(name) = &device.name {
            return name.clone();
        }
    }
    format_bluetooth_address(address)
}

} // verus!
