use fronius_metrics::address::DeviceAddress;
use fronius_metrics::address::Endpoint;
use fronius_metrics::decode::DecodeFailure;
use fronius_metrics::decode::DecodeReason;
use fronius_metrics::decode::Reading;
use fronius_metrics::decode::SectionKind;
use fronius_metrics::json::Json;
use fronius_metrics::json::Member;
use fronius_metrics::json::Number;
use fronius_metrics::models::DeviceRole;
use fronius_metrics::models::FroniusBatterManagementReadableChannels;
use fronius_metrics::models::FroniusCacheReadableChannels;
use fronius_metrics::models::FroniusPowerflow2ReadableBody;
use fronius_metrics::models::FroniusPowerflowReadableBody;
use fronius_metrics::models::Metrics;
use fronius_metrics::telemetry::fetch_request;
use fronius_metrics::telemetry::join_fetch;
use fronius_metrics::telemetry::normalize;
use fronius_metrics::telemetry::scrape;
use fronius_metrics::telemetry::FetchCause;
use fronius_metrics::telemetry::FetchFailure;
use fronius_metrics::telemetry::RawTelemetry;
use fronius_metrics::telemetry::ScrapeFailure;

fn object(members: Vec<(&str, Json)>) -> Json {
    Json::Object(
        members.into_iter().map(|(key, value)| Member { key: key.to_string(), value }).collect(),
    )
}

fn fraction(text: &str) -> Json {
    Json::Number(Number::Real(text.to_string()))
}

fn unsigned(value: u64) -> Json {
    Json::Number(Number::Unsigned(value))
}

fn read_fraction(text: &str) -> Reading {
    Reading::Number(Number::Real(text.to_string()))
}

fn read_unsigned(value: u64) -> Reading {
    Reading::Number(Number::Unsigned(value))
}

fn dump(group: &str, channels: Json) -> Json {
    object(vec![
        ("Head", object(vec![("Status", object(vec![("Code", unsigned(0))]))])),
        ("Body", object(vec![("Data", object(vec![(group, object(vec![("channels", channels)]))]))])),
    ])
}

fn battery_channels() -> Json {
    object(vec![
        ("BAT_VALUE_STATE_OF_CHARGE_RELATIVE_U16", unsigned(87)),
        ("BAT_VOLTAGE_DC_INTERNAL_F64", fraction("412.3")),
        ("BAT_VALUE_STATE_OF_HEALTH_RELATIVE_U16", unsigned(99)),
        ("DEVICE_TEMPERATURE_AMBIENTEMEAN_F32", fraction("23.5")),
        ("BAT_TEMPERATURE_CELL_F64", fraction("25.1")),
        ("BAT_ENERGYACTIVE_LIFETIME_CHARGED_F64", fraction("1234567.5")),
        ("BAT_ENERGYACTIVE_LIFETIME_DISCHARGED_F64", fraction("1200000")),
    ])
}

fn cache_channels() -> Json {
    object(vec![
        ("ACBRIDGE_POWERACTIVE_SUM_MEAN_F32", fraction("1500.5")),
        ("ACBRIDGE_POWERAPPARENT_SUM_MEAN_F32", fraction("1600")),
        ("ACBRIDGE_POWERREACTIVE_SUM_MEAN_F32", fraction("-20.25")),
        ("DEVICE_TEMPERATURE_AMBIENTEMEAN_F32", fraction("41.5")),
    ])
}

fn powerflow_status() -> Json {
    object(vec![
        ("inverters", Json::Array(vec![object(vec![("P", unsigned(1500)), ("SOC", fraction("87.5"))])])),
        (
            "site",
            object(vec![
                ("BackupMode", Json::Bool(false)),
                ("P_Akku", fraction("-120.5")),
                ("P_Grid", fraction("35.75")),
                ("P_Load", fraction("-800.25")),
                ("P_PV", unsigned(900)),
                ("rel_Autonomy", unsigned(100)),
            ]),
        ),
    ])
}

fn battery_record() -> FroniusBatterManagementReadableChannels {
    FroniusBatterManagementReadableChannels {
        fronius_bat_value: read_unsigned(87),
        fronius_bat_voltage: read_fraction("412.3"),
        fronius_bat_health: read_unsigned(99),
        fronius_temp_bat_ambient: read_fraction("23.5"),
        fronius_temp_bat_cell: read_fraction("25.1"),
        fronius_bat_energy_charged: read_fraction("1234567.5"),
        fronius_bat_energy_discharged: read_fraction("1200000"),
    }
}

fn record(batman: Option<FroniusBatterManagementReadableChannels>) -> Metrics {
    Metrics {
        powerflow: FroniusPowerflowReadableBody {
            fronius_backup_mode: Reading::Flag(false),
            fronius_power_akku: read_fraction("-120.5"),
            fronius_power_grid: read_fraction("35.75"),
            fronius_power_load: read_fraction("-800.25"),
            fronius_power_pv: read_unsigned(900),
            fronius_autonomy: read_unsigned(100),
            fronius_self_consumption: Reading::Absent,
        },
        powerflow2: FroniusPowerflow2ReadableBody {
            fronius_p: read_unsigned(1500),
            fronius_e_total: Reading::Absent,
        },
        cache: FroniusCacheReadableChannels {
            fronius_power_gen: read_fraction("1500.5"),
            fronius_power_apparent: read_fraction("1600"),
            fronius_power_reactive: read_fraction("-20.25"),
            fronius_temp_inverter: read_fraction("41.5"),
        },
        batman,
    }
}

fn failure(section: SectionKind, reason: DecodeReason) -> DecodeFailure {
    DecodeFailure { section, reason }
}

#[test]
fn fetch_request_names_the_three_endpoints_of_the_device() {
    let device = DeviceAddress { ip: u32::from_be_bytes([192, 168, 1, 20]), port: 80 };
    let request = fetch_request(&device);
    assert_eq!(request.device, device);
    assert_eq!(
        request.battery_url,
        "http://192.168.1.20:80/components/BatteryManagementSystem/readable"
    );
    assert_eq!(request.cache_url, "http://192.168.1.20:80/components/cache/readable");
    assert_eq!(request.powerflow_url, "http://192.168.1.20:80/status/powerflow");
}

#[test]
fn join_needs_all_three_payloads() {
    assert_eq!(
        join_fetch(Ok(unsigned(1)), Ok(unsigned(2)), Ok(unsigned(3))),
        Ok(RawTelemetry { battery: unsigned(1), cache: unsigned(2), powerflow: unsigned(3) })
    );
}

#[test]
fn join_fails_with_the_first_sub_query_that_failed() {
    assert_eq!(
        join_fetch(Err(FetchCause::Unreachable), Ok(Json::Null), Ok(Json::Null)),
        Err(FetchFailure { endpoint: Endpoint::BatteryManagement, cause: FetchCause::Unreachable })
    );
    assert_eq!(
        join_fetch(Ok(Json::Null), Err(FetchCause::InvalidBody), Ok(Json::Null)),
        Err(FetchFailure { endpoint: Endpoint::InverterCache, cause: FetchCause::InvalidBody })
    );
    assert_eq!(
        join_fetch(Ok(Json::Null), Ok(Json::Null), Err(FetchCause::Unreachable)),
        Err(FetchFailure { endpoint: Endpoint::PowerFlow, cause: FetchCause::Unreachable })
    );
    assert_eq!(
        join_fetch(Ok(Json::Null), Err(FetchCause::InvalidBody), Err(FetchCause::Unreachable)),
        Err(FetchFailure { endpoint: Endpoint::InverterCache, cause: FetchCause::InvalidBody })
    );
    assert_eq!(
        join_fetch(
            Err(FetchCause::InvalidBody),
            Err(FetchCause::Unreachable),
            Err(FetchCause::Unreachable)
        ),
        Err(FetchFailure { endpoint: Endpoint::BatteryManagement, cause: FetchCause::InvalidBody })
    );
}

#[test]
fn device_with_battery_yields_a_primary_record() {
    let raw = RawTelemetry {
        battery: dump("16580608", battery_channels()),
        cache: dump("393216", cache_channels()),
        powerflow: powerflow_status(),
    };
    let merged = normalize(&raw).unwrap();
    assert_eq!(merged, record(Some(battery_record())));
    assert_eq!(merged.role(), DeviceRole::Primary);
}

#[test]
fn device_without_battery_yields_a_secondary_record() {
    for battery in [
        dump("16580608", Json::Null),
        dump("1", battery_channels()),
        object(vec![("Body", object(vec![("Data", object(Vec::new()))]))]),
        object(Vec::new()),
        Json::Null,
        Json::Array(Vec::new()),
    ] {
        let raw = RawTelemetry {
            battery,
            cache: dump("393216", cache_channels()),
            powerflow: powerflow_status(),
        };
        let merged = normalize(&raw).unwrap();
        assert_eq!(merged, record(None));
        assert_eq!(merged.role(), DeviceRole::Secondary);
    }
}

#[test]
fn battery_section_that_cannot_be_read_fails_the_record() {
    let raw = RawTelemetry {
        battery: dump("16580608", object(vec![("BAT_VOLTAGE_DC_INTERNAL_F64", fraction("412.3"))])),
        cache: dump("393216", cache_channels()),
        powerflow: powerflow_status(),
    };
    assert_eq!(normalize(&raw), Err(failure(SectionKind::Battery, DecodeReason::MissingField(0))));
    let raw = RawTelemetry {
        battery: dump("16580608", Json::Bool(true)),
        cache: dump("393216", cache_channels()),
        powerflow: powerflow_status(),
    };
    assert_eq!(normalize(&raw), Err(failure(SectionKind::Battery, DecodeReason::NotARecord)));
}

#[test]
fn record_needs_the_cache_section() {
    for cache in [Json::Null, object(Vec::new()), dump("393216", Json::Null), dump("16580608", cache_channels())] {
        let raw = RawTelemetry {
            battery: dump("16580608", battery_channels()),
            cache,
            powerflow: powerflow_status(),
        };
        assert_eq!(normalize(&raw), Err(failure(SectionKind::Cache, DecodeReason::SectionAbsent)));
    }
}

#[test]
fn cache_section_that_cannot_be_read_fails_the_record() {
    let raw = RawTelemetry {
        battery: Json::Null,
        cache: dump("393216", object(vec![("ACBRIDGE_POWERACTIVE_SUM_MEAN_F32", fraction("1"))])),
        powerflow: powerflow_status(),
    };
    assert_eq!(normalize(&raw), Err(failure(SectionKind::Cache, DecodeReason::MissingField(1))));
}

#[test]
fn record_needs_the_site_summary() {
    let raw = RawTelemetry {
        battery: Json::Null,
        cache: dump("393216", cache_channels()),
        powerflow: object(vec![("inverters", Json::Array(vec![object(vec![("P", unsigned(1))])]))]),
    };
    assert_eq!(
        normalize(&raw),
        Err(failure(SectionKind::SitePowerFlow, DecodeReason::SectionAbsent))
    );
}

#[test]
fn record_needs_the_first_inverter() {
    for inverters in [Json::Array(Vec::new()), Json::Null, Json::Array(vec![Json::Null])] {
        let raw = RawTelemetry {
            battery: Json::Null,
            cache: dump("393216", cache_channels()),
            powerflow: object(vec![("inverters", inverters), ("site", object(Vec::new()))]),
        };
        assert_eq!(
            normalize(&raw),
            Err(failure(SectionKind::InverterPowerFlow, DecodeReason::SectionAbsent))
        );
    }
}

#[test]
fn first_inverter_without_power_fails_the_record() {
    let raw = RawTelemetry {
        battery: Json::Null,
        cache: dump("393216", cache_channels()),
        powerflow: object(vec![
            ("inverters", Json::Array(vec![object(vec![("E_Total", unsigned(1))])])),
            ("site", object(Vec::new())),
        ]),
    };
    assert_eq!(
        normalize(&raw),
        Err(failure(SectionKind::InverterPowerFlow, DecodeReason::MissingField(0)))
    );
}

#[test]
fn section_that_cannot_be_read_is_named_before_one_that_is_absent() {
    let raw = RawTelemetry {
        battery: Json::Null,
        cache: Json::Null,
        powerflow: object(vec![("site", Json::Text("x".to_string()))]),
    };
    assert_eq!(normalize(&raw), Err(failure(SectionKind::SitePowerFlow, DecodeReason::NotARecord)));
}

#[test]
fn scrape_yields_the_record_of_the_payloads() {
    let outcome = scrape(
        Ok(dump("16580608", battery_channels())),
        Ok(dump("393216", cache_channels())),
        Ok(powerflow_status()),
    );
    assert_eq!(outcome, Ok(record(Some(battery_record()))));
}

#[test]
fn scrape_fails_when_a_sub_query_failed() {
    let outcome = scrape(
        Ok(dump("16580608", battery_channels())),
        Ok(dump("393216", cache_channels())),
        Err(FetchCause::Unreachable),
    );
    assert_eq!(
        outcome,
        Err(ScrapeFailure::Fetch(FetchFailure {
            endpoint: Endpoint::PowerFlow,
            cause: FetchCause::Unreachable
        }))
    );
}

#[test]
fn scrape_fails_when_the_payloads_cannot_be_merged() {
    let outcome =
        scrape(Ok(Json::Null), Ok(dump("393216", Json::Text("x".to_string()))), Ok(powerflow_status()));
    assert_eq!(
        outcome,
        Err(ScrapeFailure::Decode(failure(SectionKind::Cache, DecodeReason::NotARecord)))
    );
}
