//! The vendor-neutral measurement schema, and the configuration of one cycle.
use crate::reading::Quantity;
use vstd::prelude::*;

verus! {

/// What a sample describes: a whole device or one tariff of a meter.
#[derive(Clone, Copy, Debug, PartialEq, Eq, Structural)]
pub enum EntityType {
    Device,
    Tariff,
}

#[derive(Clone, Copy, Debug, PartialEq, Eq, Structural)]
pub enum SampleType {
    ElectricityConsumption,
    ElectricityProduction,
    WaterConsumption,
}

#[derive(Clone, Copy, Debug, PartialEq, Eq, Structural)]
pub enum MetricType {
    Counter,
    Gauge,
}

/// One normalised value read from a device.
#[derive(Debug)]
pub struct Sample {
    pub entity_type: EntityType,
    /// The vendor's product type string of the device.
    pub entity_name: String,
    pub sample_type: SampleType,
    /// The device's friendly name, or the label of a tariff.
    pub sample_name: String,
    pub metric_type: MetricType,
    pub value: Quantity,
}

/// A sample as a value of mathematics.
pub struct SampleModel {
    pub entity_type: EntityType,
    pub entity_name: Seq<char>,
    pub sample_type: SampleType,
    pub sample_name: Seq<char>,
    pub metric_type: MetricType,
    pub value: Quantity,
}

impl View for Sample {
    type V = SampleModel;

    open spec fn view(&self) -> SampleModel {
        SampleModel {
            entity_type: self.entity_type,
            entity_name: self.entity_name@,
            sample_type: self.sample_type,
            sample_name: self.sample_name@,
            metric_type: self.metric_type,
            value: self.value,
        }
    }
}

/// The models of a list of samples, in order.
pub open spec fn samples_model(v: Seq<Sample>) -> Seq<SampleModel> {
    v.map_values(|s: Sample| s@)
}

/// What the orchestrator hands to one collection cycle.
#[derive(Debug)]
pub struct Config {
    pub location: String,
    /// Friendly names by device serial; where a serial occurs twice, the
    /// first entry counts.
    pub names: Vec<(String, String)>,
}

/// The friendly name that `names` gives to `serial`, if any.
pub open spec fn name_for_serial(names: Seq<(String, String)>, serial: Seq<char>) -> Option<
    Seq<char>,
>
    decreases names.len(),
{
    if names.len() == 0 {
        None
    } else if names[0].0@ == serial {
        Some(names[0].1@)
    } else {
        name_for_serial(names.drop_first(), serial)
    }
}

impl Config {
    /// The friendly name configured for `serial`, if any.
    pub fn name_for(&self, serial: &String) -> (r: Option<&String>)
        ensures
            match r {
                Some(n) => name_for_serial(self.names@, serial@) == Some(n@),
                None => name_for_serial(self.names@, serial@) is None,
            },
    {
        let mut i: usize = 0;
        assert(self.names@.skip(0) =~= self.names@);
        while i < self.names.len()
            invariant
                i <= self.names@.len(),
                name_for_serial(self.names@, serial@) == name_for_serial(
                    self.names@.skip(i as int),
                    serial@,
                ),
            decreases self.names@.len() - i,
        {
            let ghost rest = self.names@.skip(i as int);
            assert(rest.drop_first() =~= self.names@.skip(i + 1));
            if self.names[i].0 == *serial {
                return Some(&self.names[i].1);
            }
            i = i + 1;
        }
        None
    }
}

/// The samples that one collection cycle gathered.
#[derive(Debug)]
pub struct Measurement {
    /// A fresh identifier of the cycle.
    pub id: String,
    /// The exporter that produced the measurement.
    pub source: String,
    pub location: String,
    pub samples: Vec<Sample>,
    /// When the cycle began, in milliseconds since the Unix epoch.
    pub measured_at_millis: i64,
}

} // verus!
