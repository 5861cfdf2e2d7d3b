use jarvis_homewizard_exporter::client::{
    DataPayload, DeviceError, DeviceInfo, HomewizardClient, HomewizardClientConfig,
    HomewizardDeviceType,
};
use jarvis_homewizard_exporter::discovery::{
    Discovery, DiscoveryAction, DiscoveryEvent, HomewizardDevice,
};
use jarvis_homewizard_exporter::model::{Config, EntityType, MetricType, SampleType};
use jarvis_homewizard_exporter::reading::{Quantity, Reading};

fn value_of(q: &Quantity) -> f64 {
    q.mantissa as f64 / 10f64.powi(q.scale as i32)
}

fn reading(text: &str) -> Option<Reading> {
    Some(Reading::parse(text).expect("a numeral"))
}

fn client() -> HomewizardClient {
    HomewizardClient::new(HomewizardClientConfig::new(10).unwrap())
}

fn info(product_type: &str, product_name: &str, serial: &str) -> DeviceInfo {
    DeviceInfo {
        product_type: product_type.to_string(),
        product_name: product_name.to_string(),
        serial: serial.to_string(),
        firmware_version: "3.02".to_string(),
        api_version: "v1".to_string(),
    }
}

fn empty_payload() -> DataPayload {
    DataPayload {
        total_power_import_t1_kwh: None,
        total_power_export_t1_kwh: None,
        total_power_import_t2_kwh: None,
        total_power_export_t2_kwh: None,
        active_power_w: None,
        total_liter_m3: None,
        active_liter_lpm: None,
    }
}

fn electricity_payload(import: &str, export: &str, power: &str) -> DataPayload {
    DataPayload {
        total_power_import_t1_kwh: reading(import),
        total_power_export_t1_kwh: reading(export),
        active_power_w: reading(power),
        ..empty_payload()
    }
}

fn water_payload(total: &str, lpm: &str) -> DataPayload {
    DataPayload { total_liter_m3: reading(total), active_liter_lpm: reading(lpm), ..empty_payload() }
}

fn config(names: Vec<(&str, &str)>) -> Config {
    Config {
        location: "My Home".to_string(),
        names: names.into_iter().map(|(s, n)| (s.to_string(), n.to_string())).collect(),
    }
}

fn resolved(name: &str, addresses: Vec<u32>) -> DiscoveryEvent {
    DiscoveryEvent::Resolved { fullname: name.to_string(), ip_addresses: addresses }
}

#[test]
fn discover_devices() {
    let mut discovery = Discovery::new(10);
    assert_eq!(discovery.first_action(), DiscoveryAction::Wait { millis: 10_000 });
    let action = discovery.on_event(
        resolved("watermeter-2D7A68._hwenergy._tcp.local.", vec![0xC0A8_0117]),
        1200,
    );
    assert_eq!(action, DiscoveryAction::Wait { millis: 8_800 });
    let devices = discovery.into_devices();
    assert_eq!(devices.len(), 1);
    assert_eq!(devices[0].fullname, "watermeter-2D7A68._hwenergy._tcp.local.");
}

#[test]
fn get_samples() {
    let client = client();
    let config = config(vec![]);
    let samples = client
        .get_samples(&config, &info("HWE-WTR", "Watermeter", "3c39e72e33ce"), &water_payload("12.5", "0"))
        .expect("samples");

    assert_eq!(samples.len(), 2);
    assert_eq!(samples[0].entity_type, EntityType::Device);
    assert_eq!(samples[0].entity_name, "HWE-WTR");
    assert_eq!(samples[0].sample_type, SampleType::WaterConsumption);
    assert_eq!(samples[0].sample_name, "Watermeter");
    assert_eq!(samples[0].metric_type, MetricType::Counter);
    assert_eq!(samples[1].entity_type, EntityType::Device);
    assert_eq!(samples[1].entity_name, "HWE-WTR");
    assert_eq!(samples[1].sample_type, SampleType::WaterConsumption);
    assert_eq!(samples[1].sample_name, "Watermeter");
    assert_eq!(samples[1].metric_type, MetricType::Gauge);
}

#[test]
fn parse_reads_integers_and_fractions() {
    assert_eq!(Reading::parse("1"), Some(Reading { mantissa: 1, scale: 0 }));
    assert_eq!(Reading::parse("1.0"), Some(Reading { mantissa: 10, scale: 1 }));
    assert_eq!(Reading::parse("-12.5"), Some(Reading { mantissa: -125, scale: 1 }));
    assert_eq!(Reading::parse("0.06"), Some(Reading { mantissa: 6, scale: 2 }));
    assert_eq!(Reading::parse("1234.567"), Some(Reading { mantissa: 1234567, scale: 3 }));
    assert_eq!(
        Reading::parse("9223372036854775807"),
        Some(Reading { mantissa: i64::MAX, scale: 0 })
    );
}

#[test]
fn parse_rejects_what_is_no_numeral() {
    for text in ["", "-", "1.", ".5", "1.2.3", "abc", "1e5", "--1", "1-", " 1", "\u{663}"] {
        assert_eq!(Reading::parse(text), None, "{}", text);
    }
}

#[test]
fn parse_rejects_digits_beyond_range() {
    assert_eq!(Reading::parse("9223372036854775808"), None);
    assert_eq!(Reading::parse("-99999999999999999999.5"), None);
}

#[test]
fn one_kwh_is_three_point_six_million_joules() {
    let samples = client()
        .get_samples(&config(vec![]), &info("HWE-SKT", "Socket", "s1"), &electricity_payload("1.0", "2.5", "230"))
        .unwrap();
    assert_eq!(samples.len(), 3);
    assert_eq!(value_of(&samples[0].value), 3_600_000.0);
    assert_eq!(value_of(&samples[1].value), 9_000_000.0);
    assert_eq!(samples[1].sample_type, SampleType::ElectricityProduction);
    assert_eq!(value_of(&samples[2].value), 230.0);
    assert_eq!(samples[2].metric_type, MetricType::Gauge);
}

#[test]
fn kwh_conversion_is_the_same_for_every_electricity_meter() {
    for product_type in ["HWE-SKT", "SDM230-wifi", "SDM630-wifi"] {
        let samples = client()
            .get_samples(&config(vec![]), &info(product_type, "Meter", "s1"), &electricity_payload("0.001", "0", "-5.5"))
            .unwrap();
        assert_eq!(samples[0].value, Quantity { mantissa: 3_600_000, scale: 3 });
        assert_eq!(value_of(&samples[0].value), 3_600.0);
        assert_eq!(value_of(&samples[2].value), -5.5);
        assert!(samples.iter().all(|s| s.entity_name == product_type));
    }
}

#[test]
fn one_litre_per_minute_is_a_rate_of_point_zero_six() {
    let samples = client()
        .get_samples(&config(vec![]), &info("HWE-WTR", "Water", "w1"), &water_payload("3.25", "1.0"))
        .unwrap();
    assert_eq!(value_of(&samples[0].value), 3.25);
    assert_eq!(samples[1].value, Quantity { mantissa: 600, scale: 4 });
    assert_eq!(value_of(&samples[1].value), 0.06);
}

#[test]
fn friendly_name_comes_from_the_configured_serial() {
    let config = config(vec![("other", "Garage"), ("abc123", "Kitchen")]);
    let samples = client()
        .get_samples(&config, &info("HWE-SKT", "Energy Socket", "abc123"), &electricity_payload("1", "0", "0"))
        .unwrap();
    assert!(samples.iter().all(|s| s.sample_name == "Kitchen"));
    assert!(samples.iter().all(|s| s.entity_name == "HWE-SKT"));
}

#[test]
fn friendly_name_falls_back_to_the_product_name() {
    let config = config(vec![("abc123", "Kitchen")]);
    let samples = client()
        .get_samples(&config, &info("HWE-SKT", "Energy Socket", "zzz999"), &electricity_payload("1", "0", "0"))
        .unwrap();
    assert!(samples.iter().all(|s| s.sample_name == "Energy Socket"));
}

#[test]
fn first_configured_name_of_a_serial_counts() {
    let config = config(vec![("abc123", "Kitchen"), ("abc123", "Hall")]);
    assert_eq!(config.name_for(&"abc123".to_string()).map(|s| s.as_str()), Some("Kitchen"));
    assert_eq!(config.name_for(&"nope".to_string()), None);
}

#[test]
fn p1_meter_emits_tariffs_and_power() {
    let payload = DataPayload {
        total_power_import_t1_kwh: reading("1.0"),
        total_power_export_t1_kwh: reading("0.0"),
        total_power_import_t2_kwh: reading("2.0"),
        total_power_export_t2_kwh: reading("0.0"),
        active_power_w: reading("500.0"),
        ..empty_payload()
    };
    let samples = client()
        .get_samples(&config(vec![("p1", "Meter cupboard")]), &info("HWE-P1", "P1 meter", "p1"), &payload)
        .unwrap();
    let values: Vec<f64> = samples.iter().map(|s| value_of(&s.value)).collect();
    assert_eq!(values, vec![3_600_000.0, 0.0, 7_200_000.0, 0.0, 500.0]);
    let names: Vec<&str> = samples.iter().map(|s| s.sample_name.as_str()).collect();
    assert_eq!(names, vec!["t1 import", "t1 export", "t2 import", "t2 export", "Meter cupboard"]);
    let kinds: Vec<(EntityType, SampleType, MetricType)> =
        samples.iter().map(|s| (s.entity_type, s.sample_type, s.metric_type)).collect();
    assert_eq!(
        kinds,
        vec![
            (EntityType::Tariff, SampleType::ElectricityConsumption, MetricType::Counter),
            (EntityType::Tariff, SampleType::ElectricityProduction, MetricType::Counter),
            (EntityType::Tariff, SampleType::ElectricityConsumption, MetricType::Counter),
            (EntityType::Tariff, SampleType::ElectricityProduction, MetricType::Counter),
            (EntityType::Device, SampleType::ElectricityConsumption, MetricType::Gauge),
        ]
    );
    assert!(samples.iter().all(|s| s.entity_name == "HWE-P1"));
}

#[test]
fn device_types_are_named_by_product_type() {
    assert_eq!(HomewizardDeviceType::from_str("HWE-P1"), Ok(HomewizardDeviceType::P1Meter));
    assert_eq!(HomewizardDeviceType::from_str("HWE-SKT"), Ok(HomewizardDeviceType::EnergySocket));
    assert_eq!(HomewizardDeviceType::from_str("HWE-WTR"), Ok(HomewizardDeviceType::WaterMeter));
    assert_eq!(
        HomewizardDeviceType::from_str("SDM230-wifi"),
        Ok(HomewizardDeviceType::SinglePhaseKwhMeter)
    );
    assert_eq!(
        HomewizardDeviceType::from_str("SDM630-wifi"),
        Ok(HomewizardDeviceType::TriplePhaseKwhMeter)
    );
    assert_eq!(HomewizardDeviceType::from_str("HWE-KWH1"), Err(()));
    assert_eq!(HomewizardDeviceType::from_str(""), Err(()));
}

#[test]
fn unknown_product_type_is_an_error() {
    let r = client().get_samples(&config(vec![]), &info("HWE-XYZ", "?", "s"), &electricity_payload("1", "1", "1"));
    assert_eq!(r.err(), Some(DeviceError::UnknownProductType));
}

#[test]
fn missing_field_is_an_error() {
    let r = client().get_samples(&config(vec![]), &info("HWE-WTR", "Water", "s"), &electricity_payload("1", "1", "1"));
    assert_eq!(r.err(), Some(DeviceError::MissingField));
    let r = client().get_samples(&config(vec![]), &info("HWE-P1", "P1", "s"), &electricity_payload("1", "1", "1"));
    assert_eq!(r.err(), Some(DeviceError::MissingField));
}

#[test]
fn resolved_device_knows_its_data_path() {
    let d = client()
        .resolve_device(&config(vec![]), &info("HWE-WTR", "Water", "s"))
        .unwrap();
    assert_eq!(d.device_type, HomewizardDeviceType::WaterMeter);
    assert_eq!(d.data_path, "/api/v1/data");
    assert_eq!(d.friendly_name, "Water");
}

#[test]
fn requests_go_to_the_first_address() {
    let d = HomewizardDevice { fullname: "a".to_string(), ip_addresses: vec![7, 9] };
    assert_eq!(d.api_address(), Some(7));
    let none = HomewizardDevice { fullname: "b".to_string(), ip_addresses: vec![] };
    assert_eq!(none.api_address(), None);
}

#[test]
fn repeated_resolution_keeps_the_later_addresses() {
    let mut discovery = Discovery::new(10);
    discovery.on_event(resolved("a._hwenergy._tcp.local.", vec![1]), 10);
    discovery.on_event(resolved("b._hwenergy._tcp.local.", vec![2]), 20);
    discovery.on_event(DiscoveryEvent::Other, 30);
    discovery.on_event(resolved("a._hwenergy._tcp.local.", vec![3, 4]), 40);
    let devices = discovery.into_devices();
    assert_eq!(devices.len(), 2);
    assert_eq!(devices[0].fullname, "a._hwenergy._tcp.local.");
    assert_eq!(devices[0].ip_addresses, vec![3, 4]);
    assert_eq!(devices[1].ip_addresses, vec![2]);
}

#[test]
fn discovery_stops_when_the_budget_is_spent() {
    let mut discovery = Discovery::new(2);
    assert_eq!(discovery.on_event(DiscoveryEvent::Silence, 2_000), DiscoveryAction::Wait { millis: 0 });
    assert_eq!(discovery.on_event(DiscoveryEvent::Silence, 2_001), DiscoveryAction::Finish);
    assert_eq!(discovery.on_event(resolved("late", vec![1]), 5_000), DiscoveryAction::Finish);
    assert_eq!(discovery.on_event(DiscoveryEvent::Closed, 0), DiscoveryAction::Finish);
    let mut none = Discovery::new(0);
    assert_eq!(none.first_action(), DiscoveryAction::Wait { millis: 0 });
    assert_eq!(none.on_event(DiscoveryEvent::Other, 1), DiscoveryAction::Finish);
}

#[test]
fn discovery_budget_saturates_for_huge_timeouts() {
    let discovery = Discovery::new(u64::MAX);
    assert_eq!(discovery.first_action(), DiscoveryAction::Wait { millis: u64::MAX });
}

#[test]
fn failed_device_contributes_no_samples() {
    let client = client();
    let config = config(vec![]);
    let mut m = client.start_measurement(&config);
    let water = client
        .get_samples(&config, &info("HWE-WTR", "Water", "w"), &water_payload("1", "1"))
        .unwrap();
    let socket = client
        .get_samples(&config, &info("HWE-SKT", "Socket", "s"), &electricity_payload("1", "1", "1"))
        .unwrap();
    m.add_device_outcomes(vec![Ok(water), Err(DeviceError::Unreachable), Ok(socket)]);
    assert_eq!(m.samples.len(), 5);
    let names: Vec<&str> = m.samples.iter().map(|s| s.sample_name.as_str()).collect();
    assert_eq!(names, vec!["Water", "Water", "Socket", "Socket", "Socket"]);
    m.add_device_outcome(Err(DeviceError::MissingField));
    assert_eq!(m.samples.len(), 5);
}

#[test]
fn measurement_starts_empty_with_a_fresh_id() {
    let client = client();
    let config = config(vec![("x", "y")]);
    let a = client.start_measurement(&config);
    let b = client.start_measurement(&config);
    assert_eq!(a.id.len(), 36);
    assert_ne!(a.id, b.id);
    assert_eq!(a.source, "jarvis-homewizard-exporter");
    assert_eq!(a.location, "My Home");
    assert!(a.samples.is_empty());
    assert!(a.measured_at_millis > 1_600_000_000_000);
}

#[test]
fn client_keeps_its_timeout() {
    assert_eq!(HomewizardClientConfig::new(7).unwrap().timeout_seconds(), 7);
    assert_eq!(client().timeout_seconds(), 10);
}
