//! The clock synchronisation of one device, stage by stage.
//!
//! A run goes through `Connecting`, `ServiceLookup`, `CharacteristicLookup`,
//! `ComputeTime` and `Writing`, in this order and never back. Each stage is a
//! value; the caller does what the stage asks of the radio and hands the
//! outcome to the stage's method, which gives the next stage or the reason
//! for which the run ends.

use vstd::prelude::*;
use vstd::string::*;
use crate::log::{log_sync_progress, log_view, progress, SyncLogKind};
use crate::text::{
    decimal, decimal_string, magnitude, padded_decimal, padded_decimal_string, signed_decimal,
    signed_decimal_string,
};

verus! {

/// Identifier of the clock service of the device.
pub const LYWSD02_SERVICE_UUID: u128 = 0xEBE0CCB07A0A4B0C8A1A6FF2997DA3A6;

/// Identifier of the time characteristic within the clock service.
pub const LYWSD02_CHARACTERISTIC_TIME_UUID: u128 = 0xEBE0CCB77A0A4B0C8A1A6FF2997DA3A6;

/// The timezone written where none is given, or one out of range: UTC+9.
pub const DEFAULT_TIMEZONE: i8 = 9;

/// What is to be synchronised: the device, and how its clock is to differ
/// from UTC.
#[derive(Clone, Copy, Debug, PartialEq, Eq, Structural)]
pub struct SyncRequest {
    pub address: u64,
    /// Hours between the device's timezone and UTC.
    pub timezone_diff_hour: Option<i8>,
    /// Seconds to add to the clock.
    pub offset_seconds: Option<i32>,
}

/// What the radio answered to a query for services or characteristics.
#[derive(Clone, Copy, Debug, PartialEq, Eq, Structural)]
pub enum LookupReply {
    /// The query itself failed.
    TransportError,
    /// The query was answered: whether with the status of success, and how
    /// many matches it returned.
    Answered { success: bool, count: u32 },
}

/// The time and timezone to write to the device.
#[derive(Clone, Copy, Debug, PartialEq, Eq, Structural)]
pub struct ClockSetting {
    /// Seconds since 1970-01-01T00:00:00Z.
    pub epoch: u64,
    /// Hours between the timezone and UTC.
    pub timezone: i8,
    /// Whether the offset went into `epoch`.
    pub adjusted: bool,
}

/// The stage in which the device is being opened.
#[derive(Clone, Copy, Debug, PartialEq, Eq, Structural)]
pub struct Connecting {
    pub request: SyncRequest,
}

/// The stage in which the clock service is being looked up.
#[derive(Clone, Copy, Debug, PartialEq, Eq, Structural)]
pub struct ServiceLookup {
    pub request: SyncRequest,
}

/// The stage in which the time characteristic is being looked up.
#[derive(Clone, Copy, Debug, PartialEq, Eq, Structural)]
pub struct CharacteristicLookup {
    pub request: SyncRequest,
}

/// The stage in which the time to write is being determined.
#[derive(Clone, Copy, Debug, PartialEq, Eq, Structural)]
pub struct ComputeTime {
    pub request: SyncRequest,
}

/// The stage in which the time is being written.
#[derive(Clone, Copy, Debug, PartialEq, Eq, Structural)]
pub struct Writing {
    pub request: SyncRequest,
    pub setting: ClockSetting,
}

/// Whether `r` is a failure with the reason `reason`.
pub open spec fn fails_with<T>(r: Result<T, String>, reason: Seq<char>) -> bool {
    r matches Err(e) && e@ == reason
}

/// The timezone that is written for a requested one: the requested one if
/// it lies within a day of UTC, else the default.
pub open spec fn chosen_timezone(requested: Option<i8>) -> i8 {
    match requested {
        Some(tz) => if -24 <= tz <= 24 {
            tz
        } else {
            DEFAULT_TIMEZONE
        },
        None => DEFAULT_TIMEZONE,
    }
}

/// Whether the offset goes into the time. The sum is taken as a signed
/// 64-bit number and has to be strictly positive: an epoch or a sum beyond
/// that range does not count as positive.
pub open spec fn offset_commits(epoch: u64, offset: Option<i32>) -> bool {
    offset matches Some(d) && epoch <= i64::MAX && 0 < epoch + d <= i64::MAX
}

/// The time that is written: the sum where the offset goes in, else `epoch`.
pub open spec fn committed_epoch(epoch: u64, offset: Option<i32>) -> u64 {
    if offset_commits(epoch, offset) {
        (epoch + offset->0) as u64
    } else {
        epoch
    }
}

/// The setting that a request gives at the time `epoch`.
pub open spec fn setting_at(epoch: u64, request: SyncRequest) -> ClockSetting {
    ClockSetting {
        epoch: committed_epoch(epoch, request.offset_seconds),
        timezone: chosen_timezone(request.timezone_diff_hour),
        adjusted: offset_commits(epoch, request.offset_seconds),
    }
}

/// Determines the time and timezone to write.
///
/// A timezone outside -24 to 24 hours gives way to the default, UTC+9. An
/// offset that would bring the time to zero or below is left out, and the
/// time stays as it is.
pub fn compute_time(
    epoch: u64,
    timezone_diff_hour: Option<i8>,
    offset_seconds: Option<i32>,
) -> (setting: ClockSetting)
    ensures
        setting.timezone == chosen_timezone(timezone_diff_hour),
        setting.adjusted == offset_commits(epoch, offset_seconds),
        setting.epoch == committed_epoch(epoch, offset_seconds),
{
    let mut timezone: i8 = DEFAULT_TIMEZONE;
    if let Some(tz) = timezone_diff_hour {
        if tz >= -24 && tz <= 24 {
            timezone = tz;
        }
    }
    let mut time: u64 = epoch;
    let mut adjusted: bool = false;
    if let Some(diff) = offset_seconds {
        if epoch <= 0x7fff_ffff_ffff_ffff {
            let wide: i128 = epoch as i128 + diff as i128;
            if wide > 0 && wide <= 0x7fff_ffff_ffff_ffff {
                time = wide as u64;
                adjusted = true;
            }
        }
    }
    ClockSetting { epoch: time, timezone, adjusted }
}

/// The five bytes written to the device: the low 32 bits of the time, least
/// significant byte first, then the timezone as one signed byte.
pub open spec fn time_bytes(setting: ClockSetting) -> Seq<u8> {
    seq![
        (setting.epoch as int % 256) as u8,
        (setting.epoch as int / 0x100 % 256) as u8,
        (setting.epoch as int / 0x1_0000 % 256) as u8,
        (setting.epoch as int / 0x100_0000 % 256) as u8,
        (if setting.timezone < 0 {
            setting.timezone + 256
        } else {
            setting.timezone as int
        }) as u8,
    ]
}

/// Lays out the bytes to write for `setting`.
pub fn write_buffer(setting: &ClockSetting) -> (data: Vec<u8>)
    ensures
        data@ == time_bytes(*setting),
{
    let mut data: Vec<u8> = Vec::new();
    data.push((setting.epoch % 256) as u8);
    data.push((setting.epoch / 0x100 % 256) as u8);
    data.push((setting.epoch / 0x1_0000 % 256) as u8);
    data.push((setting.epoch / 0x100_0000 % 256) as u8);
    let zone: i16 = if setting.timezone < 0 {
        setting.timezone as i16 + 256
    } else {
        setting.timezone as i16
    };
    data.push(zone as u8);
    assert(data@ =~= time_bytes(*setting));
    data
}

/// `a / 60`, rounded towards zero.
pub open spec fn whole_minutes(a: int) -> int {
    if a >= 0 {
        a / 60
    } else {
        -((-a) / 60)
    }
}

/// What is left of `a` beside its whole minutes; it has the sign of `a`.
pub open spec fn odd_seconds(a: int) -> int {
    a - 60 * whole_minutes(a)
}

/// The text that reports an offset that went into the time.
pub open spec fn adjust_text(offset: i32) -> Seq<char> {
    "Adjust clock "@ + signed_decimal(whole_minutes(offset as int)) + ":"@ + padded_decimal(
        odd_seconds(offset as int),
    ) + " "@
}

/// The text that reports what was written.
pub open spec fn done_text(setting: ClockSetting) -> Seq<char> {
    "Sync clock "@ + decimal(setting.epoch as nat) + " [timezone:"@ + signed_decimal(
        setting.timezone as int,
    ) + "]"@
}

/// Writes the report of an offset that went into the time.
pub fn adjust_message(offset: i32) -> (text: String)
    ensures
        text@ == adjust_text(offset),
{
    let size: u64 = magnitude(offset);
    let quotient: i32 = (size / 60) as i32;
    let rest: i32 = (size % 60) as i32;
    let minutes: i32 = if offset < 0 {
        -quotient
    } else {
        quotient
    };
    let seconds: i32 = if offset < 0 {
        -rest
    } else {
        rest
    };
    assert(minutes == whole_minutes(offset as int));
    assert(seconds == odd_seconds(offset as int));
    let mut text = String::from_str("Adjust clock ");
    text.append(signed_decimal_string(minutes).as_str());
    text.append(":");
    text.append(padded_decimal_string(seconds).as_str());
    text.append(" ");
    text
}

/// Writes the report of what was written.
pub fn done_message(setting: &ClockSetting) -> (text: String)
    ensures
        text@ == done_text(*setting),
{
    let mut text = String::from_str("Sync clock ");
    text.append(decimal_string(setting.epoch).as_str());
    text.append(" [timezone:");
    text.append(signed_decimal_string(setting.timezone as i32).as_str());
    text.append("]");
    text
}

/// The reason for which a lookup fails on `reply`, if it does:
/// `transport` where the query itself failed, "Communication error" where
/// its status is not success, `empty` where it matched nothing.
pub open spec fn lookup_failure(reply: LookupReply, transport: Seq<char>, empty: Seq<char>)
    -> Option<Seq<char>> {
    match reply {
        LookupReply::TransportError => Some(transport),
        LookupReply::Answered { success, count } => if !success {
            Some("Communication error"@)
        } else if count == 0 {
            Some(empty)
        } else {
            None
        },
    }
}

/// Judges the answer to a lookup: the three ways in which it can fail,
/// each with its own reason, or success.
pub fn check_lookup(reply: LookupReply, transport: &str, empty: &str) -> (r: Result<(), String>)
    ensures
        match lookup_failure(reply, transport@, empty@) {
            Some(reason) => fails_with(r, reason),
            None => r is Ok,
        },
{
    match reply {
        LookupReply::TransportError => Err(String::from_str(transport)),
        LookupReply::Answered { success, count } => {
            if !success {
                Err(String::from_str("Communication error"))
            } else if count == 0 {
                Err(String::from_str(empty))
            } else {
                Ok(())
            }
        },
    }
}

/// Begins the synchronisation of the device `address`: reports
/// "Connecting..." and gives the first stage. The caller now opens the device.
pub fn sync_xiaomi_clock(
    log: &mut Vec<SyncLogKind>,
    address: u64,
    timezone_diff_hour: Option<i8>,
    offset_seconds: Option<i32>,
) -> (stage: Connecting)
    ensures
        stage.request == (SyncRequest { address, timezone_diff_hour, offset_seconds }),
        log_view(final(log)@) == log_view(old(log)@).push(progress(address, "Connecting..."@)),
{
    log_sync_progress(log, address, "Connecting...");
    Connecting { request: SyncRequest { address, timezone_diff_hour, offset_seconds } }
}

impl Connecting {
    /// Takes the outcome of opening the device. Opened: reports the query
    /// for the clock service, which the caller now makes. Not opened: the
    /// run ends with "Failed to connect" and nothing is reported.
    pub fn connected(self, opened: bool, log: &mut Vec<SyncLogKind>) -> (r: Result<
        ServiceLookup,
        String,
    >)
        ensures
            opened ==> r == Ok::<ServiceLookup, String>(ServiceLookup { request: self.request })
                && log_view(final(log)@) == log_view(old(log)@).push(
                progress(
                    self.request.address,
                    "Querying service, UUID=ebe0ccb07a0a4b0c8a1a6ff2997da3a6"@,
                ),
            ),
            !opened ==> fails_with(r, "Failed to connect"@) && final(log)@ == old(log)@,
    {
        if !opened {
            return Err(String::from_str("Failed to connect"));
        }
        log_sync_progress(
            log,
            self.request.address,
            "Querying service, UUID=ebe0ccb07a0a4b0c8a1a6ff2997da3a6",
        );
        Ok(ServiceLookup { request: self.request })
    }
}

impl ServiceLookup {
    /// The service to query the device for.
    pub fn service_uuid(&self) -> (uuid: u128)
        ensures
            uuid == LYWSD02_SERVICE_UUID,
    {
        LYWSD02_SERVICE_UUID
    }

    /// Takes the answer to the query for the clock service. With a match
    /// the first one is to be used, and the query for the time
    /// characteristic is reported, which the caller now makes. Else the run
    /// ends: "Failed to query service", "Communication error" or
    /// "No services returned".
    pub fn answered(self, reply: LookupReply, log: &mut Vec<SyncLogKind>) -> (r: Result<
        CharacteristicLookup,
        String,
    >)
        ensures
            match lookup_failure(reply, "Failed to query service"@, "No services returned"@) {
                Some(reason) => fails_with(r, reason) && final(log)@ == old(log)@,
                None => r == Ok::<CharacteristicLookup, String>(
                    CharacteristicLookup { request: self.request },
                ) && log_view(final(log)@) == log_view(old(log)@).push(
                    progress(
                        self.request.address,
                        "Querying characteristic, UUID=ebe0ccb77a0a4b0c8a1a6ff2997da3a6"@,
                    ),
                ),
            },
    {
        match check_lookup(reply, "Failed to query service", "No services returned") {
            Err(reason) => Err(reason),
            Ok(_) => {
                log_sync_progress(
                    log,
                    self.request.address,
                    "Querying characteristic, UUID=ebe0ccb77a0a4b0c8a1a6ff2997da3a6",
                );
                Ok(CharacteristicLookup { request: self.request })
            },
        }
    }
}

impl CharacteristicLookup {
    /// The characteristic to query the service for.
    pub fn characteristic_uuid(&self) -> (uuid: u128)
        ensures
            uuid == LYWSD02_CHARACTERISTIC_TIME_UUID,
    {
        LYWSD02_CHARACTERISTIC_TIME_UUID
    }

    /// Takes the answer to the query for the time characteristic. With a
    /// match the first one is to be used, and the caller now reads the
    /// clock. Else the run ends: "Failed to query characteristic",
    /// "Communication error" or "No characteristic returned".
    pub fn answered(self, reply: LookupReply) -> (r: Result<ComputeTime, String>)
        ensures
            match lookup_failure(
                reply,
                "Failed to query characteristic"@,
                "No characteristic returned"@,
            ) {
                Some(reason) => fails_with(r, reason),
                None => r == Ok::<ComputeTime, String>(ComputeTime { request: self.request }),
            },
    {
        match check_lookup(reply, "Failed to query characteristic", "No characteristic returned") {
            Err(reason) => Err(reason),
            Ok(_) => Ok(ComputeTime { request: self.request }),
        }
    }
}

impl ComputeTime {
    /// Takes the current time, in seconds since 1970 (UTC), and settles
    /// what to write. An offset that goes into the time is reported. The
    /// caller now writes the next stage's bytes to the characteristic.
    pub fn clock_read(self, epoch: u64, log: &mut Vec<SyncLogKind>) -> (stage: Writing)
        ensures
            stage.request == self.request,
            stage.setting == setting_at(epoch, self.request),
            stage.setting.adjusted ==> log_view(final(log)@) == log_view(old(log)@).push(
                progress(self.request.address, adjust_text(self.request.offset_seconds->0)),
            ),
            !stage.setting.adjusted ==> final(log)@ == old(log)@,
    {
        let setting = compute_time(
            epoch,
            self.request.timezone_diff_hour,
            self.request.offset_seconds,
        );
        if setting.adjusted {
            if let Some(diff) = self.request.offset_seconds {
                let text = adjust_message(diff);
                log_sync_progress(log, self.request.address, text.as_str());
            }
        }
        Writing { request: self.request, setting }
    }
}

impl Writing {
    /// The bytes to write to the time characteristic.
    pub fn buffer(&self) -> (data: Vec<u8>)
        ensures
            data@ == time_bytes(self.setting),
    {
        write_buffer(&self.setting)
    }

    /// Takes the outcome of the write. Written: the run is done, and what
    /// was written is reported. Else it ends with "Failed to sync time".
    pub fn written(self, ok: bool, log: &mut Vec<SyncLogKind>) -> (r: Result<(), String>)
        ensures
            ok ==> r is Ok && log_view(final(log)@) == log_view(old(log)@).push(
                progress(self.request.address, done_text(self.setting)),
            ),
            !ok ==> fails_with(r, "Failed to sync time"@) && final(log)@ == old(log)@,
    {
        if !ok {
            return Err(String::from_str("Failed to sync time"));
        }
        let text = done_message(&self.setting);
        log_sync_progress(log, self.request.address, text.as_str());
        Ok(())
    }
}

} // verus!
