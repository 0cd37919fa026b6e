//! One device's telemetry: the three sub-queries, the payloads they bring
//! back, and the record that the payloads are merged into.

use vstd::prelude::*;
use crate::address::DeviceAddress;
use crate::address::Endpoint;
use crate::decode::DecodeFailure;
use crate::decode::DecodeReason;
use crate::decode::SectionKind;
use crate::json::channel_group;
use crate::json::find_channel_group;
use crate::json::find_first_inverter;
use crate::json::find_site_summary;
use crate::json::first_inverter;
use crate::json::site_summary;
use crate::json::Json;
use crate::models::FroniusBatterManagementReadableChannels;
use crate::models::FroniusCacheReadableChannels;
use crate::models::FroniusPowerflow2ReadableBody;
use crate::models::FroniusPowerflowReadableBody;
use crate::models::Metrics;

verus! {

/// The number of the channel group of the battery management system.
pub open spec fn battery_group() -> Seq<char> {
    "16580608"@
}

/// The number of the channel group of the inverter cache.
pub open spec fn cache_group() -> Seq<char> {
    "393216"@
}

/// The three sub-queries that fetch the telemetry of one device. They are
/// sent together, and the fetch needs the answer of each.
#[derive(Debug, Clone, PartialEq, Eq)]
pub struct FetchRequest {
    pub device: DeviceAddress,
    pub battery_url: String,
    pub cache_url: String,
    pub powerflow_url: String,
}

/// The sub-queries for one device.
pub fn fetch_request(device: &DeviceAddress) -> (request: FetchRequest)
    ensures
        request.device == *device,
        request.battery_url@ == Endpoint::BatteryManagement.spec_url(*device),
        request.cache_url@ == Endpoint::InverterCache.spec_url(*device),
        request.powerflow_url@ == Endpoint::PowerFlow.spec_url(*device),
{
    FetchRequest {
        device: *device,
        battery_url: Endpoint::BatteryManagement.url(device),
        cache_url: Endpoint::InverterCache.url(device),
        powerflow_url: Endpoint::PowerFlow.url(device),
    }
}

/// Why a sub-query brought back no payload.
#[derive(Debug, Clone, Copy, PartialEq, Eq, Structural)]
pub enum FetchCause {
    /// The request failed: no connection, or no answer.
    Unreachable,
    /// The answer's body is not a JSON document.
    InvalidBody,
}

/// A fetch that failed, told by its first sub-query that did.
#[derive(Debug, Clone, Copy, PartialEq, Eq, Structural)]
pub struct FetchFailure {
    pub endpoint: Endpoint,
    pub cause: FetchCause,
}

/// The payloads of one device, as the three sub-queries brought them back.
#[derive(Debug, PartialEq, Eq)]
pub struct RawTelemetry {
    pub battery: Json,
    pub cache: Json,
    pub powerflow: Json,
}

/// The outcome of the three sub-queries taken together: the payloads where
/// each of them brought one back, and else the failure of the first that did
/// not, in the order battery, cache, power flow.
pub open spec fn joined(
    battery: Result<Json, FetchCause>,
    cache: Result<Json, FetchCause>,
    powerflow: Result<Json, FetchCause>,
) -> Result<RawTelemetry, FetchFailure> {
    match battery {
        Err(cause) => Err(FetchFailure { endpoint: Endpoint::BatteryManagement, cause }),
        Ok(battery) => match cache {
            Err(cause) => Err(FetchFailure { endpoint: Endpoint::InverterCache, cause }),
            Ok(cache) => match powerflow {
                Err(cause) => Err(FetchFailure { endpoint: Endpoint::PowerFlow, cause }),
                Ok(powerflow) => Ok(RawTelemetry { battery, cache, powerflow }),
            },
        },
    }
}

/// Joins the outcomes of the three sub-queries: all of them, or a failure.
pub fn join_fetch(
    battery: Result<Json, FetchCause>,
    cache: Result<Json, FetchCause>,
    powerflow: Result<Json, FetchCause>,
) -> (fetched: Result<RawTelemetry, FetchFailure>)
    ensures
        fetched == joined(battery, cache, powerflow),
{
    match battery {
        Err(cause) => Err(FetchFailure { endpoint: Endpoint::BatteryManagement, cause }),
        Ok(battery) => match cache {
            Err(cause) => Err(FetchFailure { endpoint: Endpoint::InverterCache, cause }),
            Ok(cache) => match powerflow {
                Err(cause) => Err(FetchFailure { endpoint: Endpoint::PowerFlow, cause }),
                Ok(powerflow) => Ok(RawTelemetry { battery, cache, powerflow }),
            },
        },
    }
}

/// Names the section in which decoding failed.
pub open spec fn in_section<T>(section: SectionKind, decoded: Result<T, DecodeReason>) -> Result<
    T,
    DecodeFailure,
> {
    match decoded {
        Ok(value) => Ok(value),
        Err(reason) => Err(DecodeFailure { section, reason }),
    }
}

/// A section that the record cannot do without.
pub open spec fn mandatory<T>(section: SectionKind, decoded: Option<T>) -> Result<
    T,
    DecodeFailure,
> {
    match decoded {
        Some(value) => Ok(value),
        None => Err(DecodeFailure { section, reason: DecodeReason::SectionAbsent }),
    }
}

/// The record that the payloads of a device are merged into.
///
/// Each section is looked up at its fixed place and decoded: the battery
/// channels, the cache channels, the first inverter and the site summary.
/// A section that cannot be read fails the record, whichever it is. A battery
/// section that is missing or `null` leaves the record without one; any of the
/// other three that is missing or `null` fails the record.
pub open spec fn normalized(raw: RawTelemetry) -> Result<Metrics, DecodeFailure> {
    match in_section(
        SectionKind::Battery,
        FroniusBatterManagementReadableChannels::decoded(
            channel_group(raw.battery, battery_group()),
        ),
    ) {
        Err(failure) => Err(failure),
        Ok(batman) => match in_section(
            SectionKind::Cache,
            FroniusCacheReadableChannels::decoded(channel_group(raw.cache, cache_group())),
        ) {
            Err(failure) => Err(failure),
            Ok(cache) => match in_section(
                SectionKind::InverterPowerFlow,
                FroniusPowerflow2ReadableBody::decoded(first_inverter(raw.powerflow)),
            ) {
                Err(failure) => Err(failure),
                Ok(powerflow2) => match in_section(
                    SectionKind::SitePowerFlow,
                    FroniusPowerflowReadableBody::decoded(site_summary(raw.powerflow)),
                ) {
                    Err(failure) => Err(failure),
                    Ok(powerflow) => match mandatory(SectionKind::Cache, cache) {
                        Err(failure) => Err(failure),
                        Ok(cache) => match mandatory(SectionKind::SitePowerFlow, powerflow) {
                            Err(failure) => Err(failure),
                            Ok(powerflow) => match mandatory(
                                SectionKind::InverterPowerFlow,
                                powerflow2,
                            ) {
                                Err(failure) => Err(failure),
                                Ok(powerflow2) => Ok(
                                    Metrics { powerflow, powerflow2, cache, batman },
                                ),
                            },
                        },
                    },
                },
            },
        },
    }
}

/// Merges the payloads of a device into its record.
pub fn normalize(raw: &RawTelemetry) -> (record: Result<Metrics, DecodeFailure>)
    ensures
        record == normalized(*raw),
{
    let batman = match FroniusBatterManagementReadableChannels::decode(
        find_channel_group(&raw.battery, "16580608"),
    ) {
        Ok(section) => section,
        Err(reason) => {
            return Err(DecodeFailure { section: SectionKind::Battery, reason });
        },
    };
    let cache = match FroniusCacheReadableChannels::decode(
        find_channel_group(&raw.cache, "393216"),
    ) {
        Ok(section) => section,
        Err(reason) => {
            return Err(DecodeFailure { section: SectionKind::Cache, reason });
        },
    };
    let powerflow2 = match FroniusPowerflow2ReadableBody::decode(
        find_first_inverter(&raw.powerflow),
    ) {
        Ok(section) => section,
        Err(reason) => {
            return Err(DecodeFailure { section: SectionKind::InverterPowerFlow, reason });
        },
    };
    let powerflow = match FroniusPowerflowReadableBody::decode(find_site_summary(&raw.powerflow)) {
        Ok(section) => section,
        Err(reason) => {
            return Err(DecodeFailure { section: SectionKind::SitePowerFlow, reason });
        },
    };
    let cache = match cache {
        Some(section) => section,
        None => {
            return Err(
                DecodeFailure { section: SectionKind::Cache, reason: DecodeReason::SectionAbsent },
            );
        },
    };
    let powerflow = match powerflow {
        Some(section) => section,
        None => {
            return Err(
                DecodeFailure {
                    section: SectionKind::SitePowerFlow,
                    reason: DecodeReason::SectionAbsent,
                },
            );
        },
    };
    let powerflow2 = match powerflow2 {
        Some(section) => section,
        None => {
            return Err(
                DecodeFailure {
                    section: SectionKind::InverterPowerFlow,
                    reason: DecodeReason::SectionAbsent,
                },
            );
        },
    };
    Ok(Metrics { powerflow, powerflow2, cache, batman })
}

/// Whether a payload holds a battery section: the lookup finds something
/// other than `null`.
pub open spec fn has_battery_section(raw: RawTelemetry) -> bool {
    channel_group(raw.battery, battery_group()) matches Some(section) && !(section is Null)
}

/// A payload without a battery section is no error: the record then lacks the
/// section, and the device counts as secondary. With the section the device
/// counts as primary.
pub proof fn lemma_battery_section_decides_role(raw: RawTelemetry)
    requires
        normalized(raw) is Ok,
    ensures
        normalized(raw).unwrap().batman is Some <==> has_battery_section(raw),
        normalized(raw).unwrap().spec_role() == (if has_battery_section(raw) {
            crate::models::DeviceRole::Primary
        } else {
            crate::models::DeviceRole::Secondary
        }),
{
}

/// A record is all or nothing. The payloads yield one exactly if the battery
/// section can be read or is absent, and the sections of the cache, of the
/// site's power flow and of the first inverter are there and can be read.
/// The record then holds just these sections.
pub proof fn lemma_record_is_all_or_nothing(raw: RawTelemetry)
    ensures
        normalized(raw) is Ok <==> {
            &&& FroniusBatterManagementReadableChannels::decoded(
                channel_group(raw.battery, battery_group()),
            ) is Ok
            &&& FroniusCacheReadableChannels::decoded(channel_group(raw.cache, cache_group()))
                matches Ok(Some(_))
            &&& FroniusPowerflowReadableBody::decoded(site_summary(raw.powerflow)) matches Ok(
                Some(_),
            )
            &&& FroniusPowerflow2ReadableBody::decoded(first_inverter(raw.powerflow)) matches Ok(
                Some(_),
            )
        },
        normalized(raw) matches Ok(record) ==> {
            &&& FroniusBatterManagementReadableChannels::decoded(
                channel_group(raw.battery, battery_group()),
            ) == Ok::<_, DecodeReason>(record.batman)
            &&& FroniusCacheReadableChannels::decoded(channel_group(raw.cache, cache_group()))
                == Ok::<_, DecodeReason>(Some(record.cache))
            &&& FroniusPowerflowReadableBody::decoded(site_summary(raw.powerflow)) == Ok::<
                _,
                DecodeReason,
            >(Some(record.powerflow))
            &&& FroniusPowerflow2ReadableBody::decoded(first_inverter(raw.powerflow)) == Ok::<
                _,
                DecodeReason,
            >(Some(record.powerflow2))
        },
{
}

/// Why a device yields no record in an aggregation pass.
#[derive(Debug, Clone, Copy, PartialEq, Eq, Structural)]
pub enum ScrapeFailure {
    /// A sub-query brought back no payload.
    Fetch(FetchFailure),
    /// The payloads do not hold what the record needs.
    Decode(DecodeFailure),
}

/// What an aggregation pass has of one device: its record, where all three
/// sub-queries brought back a payload and the payloads can be merged.
pub open spec fn scraped(
    battery: Result<Json, FetchCause>,
    cache: Result<Json, FetchCause>,
    powerflow: Result<Json, FetchCause>,
) -> Result<Metrics, ScrapeFailure> {
    match joined(battery, cache, powerflow) {
        Err(failure) => Err(ScrapeFailure::Fetch(failure)),
        Ok(raw) => match normalized(raw) {
            Err(failure) => Err(ScrapeFailure::Decode(failure)),
            Ok(record) => Ok(record),
        },
    }
}

/// Turns the outcomes of the three sub-queries for one device into the
/// device's record, or into the reason why it has none.
pub fn scrape(
    battery: Result<Json, FetchCause>,
    cache: Result<Json, FetchCause>,
    powerflow: Result<Json, FetchCause>,
) -> (outcome: Result<Metrics, ScrapeFailure>)
    ensures
        outcome == scraped(battery, cache, powerflow),
{
    match join_fetch(battery, cache, powerflow) {
        Err(failure) => Err(ScrapeFailure::Fetch(failure)),
        Ok(raw) => match normalize(&raw) {
            Err(failure) => Err(ScrapeFailure::Decode(failure)),
            Ok(record) => Ok(record),
        },
    }
}

} // verus!
