use fronius_metrics::address::DeviceAddress;
use fronius_metrics::address::Endpoint;
use fronius_metrics::aggregate::assemble;
use fronius_metrics::aggregate::health;
use fronius_metrics::aggregate::metrics;
use fronius_metrics::aggregate::plan_aggregation;
use fronius_metrics::aggregate::AggregationPlan;
use fronius_metrics::decode::DecodeFailure;
use fronius_metrics::decode::DecodeReason;
use fronius_metrics::decode::Reading;
use fronius_metrics::decode::SectionKind;
use fronius_metrics::discovery::DeviceSet;
use fronius_metrics::json::Number;
use fronius_metrics::format::format_metrics;
use fronius_metrics::models::FroniusBatterManagementReadableChannels;
use fronius_metrics::models::FroniusCacheReadableChannels;
use fronius_metrics::models::FroniusPowerflow2ReadableBody;
use fronius_metrics::models::FroniusPowerflowReadableBody;
use fronius_metrics::models::Metrics;
use fronius_metrics::telemetry::FetchCause;
use fronius_metrics::telemetry::FetchFailure;
use fronius_metrics::telemetry::ScrapeFailure;

fn read_unsigned(value: u64) -> Reading {
    Reading::Number(Number::Unsigned(value))
}

fn battery_record(charge: u64) -> FroniusBatterManagementReadableChannels {
    FroniusBatterManagementReadableChannels {
        fronius_bat_value: read_unsigned(charge),
        fronius_bat_voltage: Reading::Absent,
        fronius_bat_health: Reading::Absent,
        fronius_temp_bat_ambient: Reading::Absent,
        fronius_temp_bat_cell: Reading::Absent,
        fronius_bat_energy_charged: Reading::Absent,
        fronius_bat_energy_discharged: Reading::Absent,
    }
}

fn record(power: u64, charge: Option<u64>) -> Metrics {
    Metrics {
        powerflow: FroniusPowerflowReadableBody {
            fronius_backup_mode: Reading::Absent,
            fronius_power_akku: Reading::Absent,
            fronius_power_grid: Reading::Absent,
            fronius_power_load: Reading::Absent,
            fronius_power_pv: Reading::Absent,
            fronius_autonomy: Reading::Absent,
            fronius_self_consumption: Reading::Absent,
        },
        powerflow2: FroniusPowerflow2ReadableBody {
            fronius_p: read_unsigned(power),
            fronius_e_total: Reading::Absent,
        },
        cache: FroniusCacheReadableChannels {
            fronius_power_gen: Reading::Absent,
            fronius_power_apparent: Reading::Absent,
            fronius_power_reactive: Reading::Absent,
            fronius_temp_inverter: Reading::Absent,
        },
        batman: charge.map(battery_record),
    }
}

fn unreachable() -> ScrapeFailure {
    ScrapeFailure::Fetch(FetchFailure {
        endpoint: Endpoint::InverterCache,
        cause: FetchCause::Unreachable,
    })
}

fn undecodable() -> ScrapeFailure {
    ScrapeFailure::Decode(DecodeFailure {
        section: SectionKind::Cache,
        reason: DecodeReason::SectionAbsent,
    })
}

fn device(last: u8) -> DeviceAddress {
    DeviceAddress { ip: u32::from_be_bytes([192, 168, 1, last]), port: 80 }
}

#[test]
fn test_health_endpoint() {
    assert_eq!(health(), "OK");
}

#[test]
fn test_health_endpoint_independent_of_metrics() {
    assert_eq!(health(), "OK");
    let plan = plan_aggregation(&DeviceSet::empty());
    assert_eq!(
        plan,
        AggregationPlan::Respond(String::new()),
        "Metrics should be empty when no inverters found"
    );
    assert_eq!(health(), "OK");
}

#[test]
fn empty_device_set_is_answered_without_any_request() {
    match plan_aggregation(&DeviceSet::empty()) {
        AggregationPlan::Respond(text) => assert_eq!(text, ""),
        AggregationPlan::Fetch(requests) => panic!("unexpected requests {:?}", requests),
    }
}

#[test]
fn every_known_device_is_asked_once_in_order() {
    let devices = DeviceSet::from_devices(vec![device(20), device(21)]);
    match plan_aggregation(&devices) {
        AggregationPlan::Fetch(requests) => {
            assert_eq!(requests.len(), 2);
            assert_eq!(requests[0].device, device(20));
            assert_eq!(requests[1].device, device(21));
            assert_eq!(requests[0].cache_url, "http://192.168.1.20:80/components/cache/readable");
            assert_eq!(
                requests[1].battery_url,
                "http://192.168.1.21:80/components/BatteryManagementSystem/readable"
            );
            assert_eq!(requests[1].powerflow_url, "http://192.168.1.21:80/status/powerflow");
        }
        AggregationPlan::Respond(text) => panic!("unexpected answer {:?}", text),
    }
}

#[test]
fn batch_of_no_outcomes_is_empty() {
    let outcomes = Vec::new();
    let batch = assemble(&outcomes);
    assert_eq!(batch.primary, None);
    assert_eq!(batch.secondary, None);
    assert_eq!(batch.len(), 0);
    assert_eq!(batch.render(), "");
    assert_eq!(metrics(&outcomes), "");
}

#[test]
fn batch_takes_the_first_record_of_each_role() {
    let outcomes = vec![
        Ok(record(1, None)),
        Ok(record(2, Some(50))),
        Ok(record(3, Some(60))),
        Ok(record(4, None)),
    ];
    let batch = assemble(&outcomes);
    assert_eq!(batch.primary, Some(&record(2, Some(50))));
    assert_eq!(batch.secondary, Some(&record(1, None)));
    assert_eq!(batch.len(), 2);
}

#[test]
fn batch_renders_the_primary_before_the_secondary() {
    let outcomes = vec![Ok(record(1, None)), Ok(record(2, Some(50)))];
    let expected = "fronius_bat_value{name=\"lefty\"} 50\n\
fronius_p{name=\"lefty\"} 2\n\
fronius_p{name=\"righty\"} 1\n";
    assert_eq!(assemble(&outcomes).render(), expected);
    assert_eq!(metrics(&outcomes), expected);
    assert_eq!(
        metrics(&outcomes),
        format!(
            "{}{}",
            format_metrics(&record(2, Some(50)), "lefty"),
            format_metrics(&record(1, None), "righty")
        )
    );
}

#[test]
fn devices_that_failed_add_nothing_to_the_batch() {
    let outcomes = vec![
        Err(unreachable()),
        Ok(record(2, Some(50))),
        Err(undecodable()),
        Ok(record(4, None)),
        Err(unreachable()),
    ];
    let batch = assemble(&outcomes);
    assert_eq!(batch.primary, Some(&record(2, Some(50))));
    assert_eq!(batch.secondary, Some(&record(4, None)));
    let without_failures = vec![Ok(record(2, Some(50))), Ok(record(4, None))];
    assert_eq!(metrics(&outcomes), metrics(&without_failures));
}

#[test]
fn batch_of_failures_only_is_empty() {
    let outcomes = vec![Err(unreachable()), Err(undecodable())];
    let batch = assemble(&outcomes);
    assert_eq!(batch.len(), 0);
    assert_eq!(metrics(&outcomes), "");
}

#[test]
fn batch_holds_at_most_one_record_of_each_role() {
    let outcomes: Vec<Result<Metrics, ScrapeFailure>> =
        (0..10).map(|power| Ok(record(power, Some(power)))).collect();
    let batch = assemble(&outcomes);
    assert_eq!(batch.len(), 1);
    assert_eq!(batch.primary, Some(&record(0, Some(0))));
    assert_eq!(batch.secondary, None);
    assert_eq!(metrics(&outcomes), format_metrics(&record(0, Some(0)), "lefty"));

    let outcomes: Vec<Result<Metrics, ScrapeFailure>> =
        (0..10).map(|power| Ok(record(power, None))).collect();
    let batch = assemble(&outcomes);
    assert_eq!(batch.len(), 1);
    assert_eq!(batch.primary, None);
    assert_eq!(batch.secondary, Some(&record(0, None)));
    assert_eq!(metrics(&outcomes), format_metrics(&record(0, None), "righty"));
}

#[test]
fn batch_never_holds_more_records_than_devices_survived() {
    let n = 6;
    for failed in 0..=n {
        let outcomes: Vec<Result<Metrics, ScrapeFailure>> = (0..n)
            .map(|index| {
                if index < failed {
                    Err(unreachable())
                } else if index % 2 == 0 {
                    Ok(record(index, Some(index)))
                } else {
                    Ok(record(index, None))
                }
            })
            .collect();
        let batch = assemble(&outcomes);
        let survivors = (n - failed) as usize;
        assert!(batch.len() <= 2);
        assert!(batch.len() <= survivors);
        assert_eq!(batch.len(), survivors.min(2));
        if let Some(primary) = batch.primary {
            assert!(outcomes.iter().any(|outcome| outcome.as_ref().ok() == Some(primary)));
        }
        if let Some(secondary) = batch.secondary {
            assert!(outcomes.iter().any(|outcome| outcome.as_ref().ok() == Some(secondary)));
        }
    }
}
