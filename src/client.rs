//! Type resolution of a discovered device and normalisation of its telemetry.
use crate::model::{
    samples_model, name_for_serial, Config, EntityType, MetricType, Sample, SampleModel, SampleType,
};
use crate::reading::{joules_from_kwh, rate_from_lpm, unscaled, Quantity, Reading};
use vstd::prelude::*;

verus! {

pub struct HomewizardClientConfig {
    timeout_seconds: u64,
}

impl HomewizardClientConfig {
    /// A configuration whose discovery waits `timeout_seconds`.
    pub fn new(timeout_seconds: u64) -> (r: Result<Self, ()>)
        ensures
            r matches Ok(c) && c.timeout_seconds() == timeout_seconds,
    {
        Ok(Self { timeout_seconds })
    }

    pub closed spec fn spec_timeout_seconds(&self) -> u64 {
        self.timeout_seconds
    }

    #[verifier::when_used_as_spec(spec_timeout_seconds)]
    pub fn timeout_seconds(&self) -> (r: u64)
        ensures
            r == self.spec_timeout_seconds(),
    {
        self.timeout_seconds
    }
}

pub struct HomewizardClient {
    config: HomewizardClientConfig,
}

/// The hardware types of HomeWizard devices.
#[derive(Clone, Copy, Debug, PartialEq, Eq, Structural)]
pub enum HomewizardDeviceType {
    P1Meter,
    SinglePhaseKwhMeter,
    TriplePhaseKwhMeter,
    EnergySocket,
    WaterMeter,
}

/// The device type that a product type string names.
pub open spec fn device_type_of(product_type: Seq<char>) -> Option<HomewizardDeviceType> {
    if product_type == "HWE-P1"@ {
        Some(HomewizardDeviceType::P1Meter)
    } else if product_type == "HWE-SKT"@ {
        Some(HomewizardDeviceType::EnergySocket)
    } else if product_type == "HWE-WTR"@ {
        Some(HomewizardDeviceType::WaterMeter)
    } else if product_type == "SDM230-wifi"@ {
        Some(HomewizardDeviceType::SinglePhaseKwhMeter)
    } else if product_type == "SDM630-wifi"@ {
        Some(HomewizardDeviceType::TriplePhaseKwhMeter)
    } else {
        None
    }
}

impl HomewizardDeviceType {
    /// The device type that `input` names, or `Err` for an unknown product type.
    pub fn from_str(input: &str) -> (r: Result<HomewizardDeviceType, ()>)
        ensures
            r == (match device_type_of(input@) {
                Some(t) => Ok::<HomewizardDeviceType, ()>(t),
                None => Err(()),
            }),
    {
        let s = input.to_owned();
        if s == "HWE-P1".to_owned() {
            Ok(HomewizardDeviceType::P1Meter)
        } else if s == "HWE-SKT".to_owned() {
            Ok(HomewizardDeviceType::EnergySocket)
        } else if s == "HWE-WTR".to_owned() {
            Ok(HomewizardDeviceType::WaterMeter)
        } else if s == "SDM230-wifi".to_owned() {
            Ok(HomewizardDeviceType::SinglePhaseKwhMeter)
        } else if s == "SDM630-wifi".to_owned() {
            Ok(HomewizardDeviceType::TriplePhaseKwhMeter)
        } else {
            Err(())
        }
    }
}

/// What a device's introspection endpoint reports about it.
#[derive(Debug)]
pub struct DeviceInfo {
    pub product_type: String,
    pub product_name: String,
    pub serial: String,
    pub firmware_version: String,
    pub api_version: String,
}

/// The telemetry fields that the samples are made of; a field that the
/// device did not report is `None`.
#[derive(Clone, Copy, Debug, PartialEq, Eq, Structural)]
pub struct DataPayload {
    pub total_power_import_t1_kwh: Option<Reading>,
    pub total_power_export_t1_kwh: Option<Reading>,
    pub total_power_import_t2_kwh: Option<Reading>,
    pub total_power_export_t2_kwh: Option<Reading>,
    pub active_power_w: Option<Reading>,
    pub total_liter_m3: Option<Reading>,
    pub active_liter_lpm: Option<Reading>,
}

/// Why a device contributes no samples to a measurement.
#[derive(Clone, Copy, Debug, PartialEq, Eq, Structural)]
pub enum DeviceError {
    /// The device advertised no address.
    NoAddress,
    /// A request to the device failed, or its answer could not be decoded.
    Unreachable,
    /// The device reported a product type that is not known.
    UnknownProductType,
    /// The telemetry lacks a field that the device's samples need.
    MissingField,
}

/// The name that samples of a device carry: the configured friendly name
/// of its serial, or else its product name.
pub open spec fn friendly_name_of(names: Seq<(String, String)>, info: DeviceInfo) -> Seq<char> {
    match name_for_serial(names, info.serial@) {
        Some(n) => n,
        None => info.product_name@,
    }
}

pub open spec fn sample_model(
    entity_type: EntityType,
    entity_name: Seq<char>,
    sample_type: SampleType,
    sample_name: Seq<char>,
    metric_type: MetricType,
    value: Quantity,
) -> SampleModel {
    SampleModel { entity_type, entity_name, sample_type, sample_name, metric_type, value }
}

/// The samples of a device of type `t`, or `None` where the payload lacks a
/// field that they need.
pub open spec fn expected_samples(
    t: HomewizardDeviceType,
    product_type: Seq<char>,
    friendly_name: Seq<char>,
    p: DataPayload,
) -> Option<Seq<SampleModel>> {
    match t {
        HomewizardDeviceType::P1Meter => {
            match (
                p.total_power_import_t1_kwh,
                p.total_power_export_t1_kwh,
                p.total_power_import_t2_kwh,
                p.total_power_export_t2_kwh,
                p.active_power_w,
            ) {
                (Some(i1), Some(e1), Some(i2), Some(e2), Some(w)) => Some(
                    seq![
                        sample_model(EntityType::Tariff, product_type, SampleType::ElectricityConsumption, "t1 import"@, MetricType::Counter, joules_from_kwh(i1)),
                        sample_model(EntityType::Tariff, product_type, SampleType::ElectricityProduction, "t1 export"@, MetricType::Counter, joules_from_kwh(e1)),
                        sample_model(EntityType::Tariff, product_type, SampleType::ElectricityConsumption, "t2 import"@, MetricType::Counter, joules_from_kwh(i2)),
                        sample_model(EntityType::Tariff, product_type, SampleType::ElectricityProduction, "t2 export"@, MetricType::Counter, joules_from_kwh(e2)),
                        sample_model(EntityType::Device, product_type, SampleType::ElectricityConsumption, friendly_name, MetricType::Gauge, unscaled(w)),
                    ],
                ),
                _ => None,
            }
        },
        HomewizardDeviceType::WaterMeter => {
            match (p.total_liter_m3, p.active_liter_lpm) {
                (Some(total), Some(rate)) => Some(
                    seq![
                        sample_model(EntityType::Device, product_type, SampleType::WaterConsumption, friendly_name, MetricType::Counter, unscaled(total)),
                        sample_model(EntityType::Device, product_type, SampleType::WaterConsumption, friendly_name, MetricType::Gauge, rate_from_lpm(rate)),
                    ],
                ),
                _ => None,
            }
        },
        _ => {
            match (p.total_power_import_t1_kwh, p.total_power_export_t1_kwh, p.active_power_w) {
                (Some(i1), Some(e1), Some(w)) => Some(
                    seq![
                        sample_model(EntityType::Device, product_type, SampleType::ElectricityConsumption, friendly_name, MetricType::Counter, joules_from_kwh(i1)),
                        sample_model(EntityType::Device, product_type, SampleType::ElectricityProduction, friendly_name, MetricType::Counter, joules_from_kwh(e1)),
                        sample_model(EntityType::Device, product_type, SampleType::ElectricityConsumption, friendly_name, MetricType::Gauge, unscaled(w)),
                    ],
                ),
                _ => None,
            }
        },
    }
}

fn joules(r: Reading) -> (q: Quantity)
    ensures
        q == joules_from_kwh(r),
{
    Quantity { mantissa: r.mantissa as i128 * 1000 * 3600, scale: r.scale as u64 }
}

fn rate(r: Reading) -> (q: Quantity)
    ensures
        q == rate_from_lpm(r),
{
    Quantity { mantissa: r.mantissa as i128 * 60, scale: r.scale as u64 + 3 }
}

fn plain(r: Reading) -> (q: Quantity)
    ensures
        q == unscaled(r),
{
    Quantity { mantissa: r.mantissa as i128, scale: r.scale as u64 }
}

fn sample(
    entity_type: EntityType,
    entity_name: &String,
    sample_type: SampleType,
    sample_name: String,
    metric_type: MetricType,
    value: Quantity,
) -> (s: Sample)
    ensures
        s@ == sample_model(
            entity_type,
            entity_name@,
            sample_type,
            sample_name@,
            metric_type,
            value,
        ),
{
    Sample {
        entity_type,
        entity_name: entity_name.clone(),
        sample_type,
        sample_name,
        metric_type,
        value,
    }
}

/// A device whose type and friendly name are known.
#[derive(Debug)]
pub struct ResolvedDevice {
    pub device_type: HomewizardDeviceType,
    /// The vendor's product type string.
    pub product_type: String,
    pub friendly_name: String,
    /// The path of the device's telemetry endpoint.
    pub data_path: String,
}

impl ResolvedDevice {
    /// The device's samples, made of `payload`; `MissingField` where it lacks
    /// a field that they need.
    pub fn samples(&self, payload: &DataPayload) -> (r: Result<Vec<Sample>, DeviceError>)
        ensures
            match expected_samples(
                self.device_type,
                self.product_type@,
                self.friendly_name@,
                *payload,
            ) {
                Some(ss) => r matches Ok(v) && samples_model(v@) == ss,
                None => r == Err::<Vec<Sample>, DeviceError>(DeviceError::MissingField),
            },
    {
        let pt = &self.product_type;
        let mut v: Vec<Sample> = Vec::new();
        match self.device_type {
            HomewizardDeviceType::P1Meter => {
                match (
                    payload.total_power_import_t1_kwh,
                    payload.total_power_export_t1_kwh,
                    payload.total_power_import_t2_kwh,
                    payload.total_power_export_t2_kwh,
                    payload.active_power_w,
                ) {
                    (Some(i1), Some(e1), Some(i2), Some(e2), Some(w)) => {
                        v.push(
                            sample(
                                EntityType::Tariff,
                                pt,
                                SampleType::ElectricityConsumption,
                                "t1 import".to_owned(),
                                MetricType::Counter,
                                joules(i1),
                            ),
                        );
                        v.push(
                            sample(
                                EntityType::Tariff,
                                pt,
                                SampleType::ElectricityProduction,
                                "t1 export".to_owned(),
                                MetricType::Counter,
                                joules(e1),
                            ),
                        );
                        v.push(
                            sample(
                                EntityType::Tariff,
                                pt,
                                SampleType::ElectricityConsumption,
                                "t2 import".to_owned(),
                                MetricType::Counter,
                                joules(i2),
                            ),
                        );
                        v.push(
                            sample(
                                EntityType::Tariff,
                                pt,
                                SampleType::ElectricityProduction,
                                "t2 export".to_owned(),
                                MetricType::Counter,
                                joules(e2),
                            ),
                        );
                        v.push(
                            sample(
                                EntityType::Device,
                                pt,
                                SampleType::ElectricityConsumption,
                                self.friendly_name.clone(),
                                MetricType::Gauge,
                                plain(w),
                            ),
                        );
                    },
                    _ => {
                        return Err(DeviceError::MissingField);
                    },
                }
            },
            HomewizardDeviceType::WaterMeter => {
                match (payload.total_liter_m3, payload.active_liter_lpm) {
                    (Some(total), Some(lpm)) => {
                        v.push(
                            sample(
                                EntityType::Device,
                                pt,
                                SampleType::WaterConsumption,
                                self.friendly_name.clone(),
                                MetricType::Counter,
                                plain(total),
                            ),
                        );
                        v.push(
                            sample(
                                EntityType::Device,
                                pt,
                                SampleType::WaterConsumption,
                                self.friendly_name.clone(),
                                MetricType::Gauge,
                                rate(lpm),
                            ),
                        );
                    },
                    _ => {
                        return Err(DeviceError::MissingField);
                    },
                }
            },
            _ => {
                match (
                    payload.total_power_import_t1_kwh,
                    payload.total_power_export_t1_kwh,
                    payload.active_power_w,
                ) {
                    (Some(i1), Some(e1), Some(w)) => {
                        v.push(
                            sample(
                                EntityType::Device,
                                pt,
                                SampleType::ElectricityConsumption,
                                self.friendly_name.clone(),
                                MetricType::Counter,
                                joules(i1),
                            ),
                        );
                        v.push(
                            sample(
                                EntityType::Device,
                                pt,
                                SampleType::ElectricityProduction,
                                self.friendly_name.clone(),
                                MetricType::Counter,
                                joules(e1),
                            ),
                        );
                        v.push(
                            sample(
                                EntityType::Device,
                                pt,
                                SampleType::ElectricityConsumption,
                                self.friendly_name.clone(),
                                MetricType::Gauge,
                                plain(w),
                            ),
                        );
                    },
                    _ => {
                        return Err(DeviceError::MissingField);
                    },
                }
            },
        }
        let ghost ss = expected_samples(
            self.device_type,
            self.product_type@,
            self.friendly_name@,
            *payload,
        );
        assert(samples_model(v@) =~= ss.unwrap());
        Ok(v)
    }
}

/// The path of the telemetry endpoint of a device speaking `api_version`.
pub open spec fn data_path_of(api_version: Seq<char>) -> Seq<char> {
    "/api/"@ + api_version + "/data"@
}

impl HomewizardClient {
    pub fn new(config: HomewizardClientConfig) -> (r: Self)
        ensures
            r.timeout_seconds() == config.timeout_seconds(),
    {
        Self { config }
    }

    pub closed spec fn spec_timeout_seconds(&self) -> u64 {
        self.config.timeout_seconds()
    }

    /// How long discovery waits for devices, in seconds.
    #[verifier::when_used_as_spec(spec_timeout_seconds)]
    pub fn timeout_seconds(&self) -> (r: u64)
        ensures
            r == self.spec_timeout_seconds(),
    {
        self.config.timeout_seconds()
    }

    /// Determines the type and the friendly name of the device that `info`
    /// describes; `UnknownProductType` where its product type is not known.
    pub fn resolve_device(&self, config: &Config, info: &DeviceInfo) -> (r: Result<
        ResolvedDevice,
        DeviceError,
    >)
        ensures
            match device_type_of(info.product_type@) {
                Some(t) => r matches Ok(d) && d.device_type == t && d.product_type@
                    == info.product_type@ && d.friendly_name@ == friendly_name_of(
                    config.names@,
                    *info,
                ) && d.data_path@ == data_path_of(info.api_version@),
                None => r == Err::<ResolvedDevice, DeviceError>(DeviceError::UnknownProductType),
            },
    {
        let device_type = match HomewizardDeviceType::from_str(info.product_type.as_str()) {
            Ok(t) => t,
            Err(()) => {
                return Err(DeviceError::UnknownProductType);
            },
        };
        let friendly_name = match config.name_for(&info.serial) {
            Some(n) => n.clone(),
            None => info.product_name.clone(),
        };
        let mut data_path = "/api/".to_owned();
        data_path.append(info.api_version.as_str());
        data_path.append("/data");
        Ok(
            ResolvedDevice {
                device_type,
                product_type: info.product_type.clone(),
                friendly_name,
                data_path,
            },
        )
    }

    /// The samples of the device that `info` describes, made of its telemetry
    /// `payload`.
    pub fn get_samples(&self, config: &Config, info: &DeviceInfo, payload: &DataPayload) -> (r:
        Result<Vec<Sample>, DeviceError>)
        ensures
            match device_type_of(info.product_type@) {
                None => r == Err::<Vec<Sample>, DeviceError>(DeviceError::UnknownProductType),
                Some(t) => match expected_samples(
                    t,
                    info.product_type@,
                    friendly_name_of(config.names@, *info),
                    *payload,
                ) {
                    Some(ss) => r matches Ok(v) && samples_model(v@) == ss,
                    None => r == Err::<Vec<Sample>, DeviceError>(DeviceError::MissingField),
                },
            },
    {
        let device = match self.resolve_device(config, info) {
            Ok(d) => d,
            Err(e) => {
                return Err(e);
            },
        };
        device.samples(payload)
    }
}

} // verus!
