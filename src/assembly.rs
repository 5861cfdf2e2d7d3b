//! Assembly of one measurement out of what each device yielded.
use crate::client::{DeviceError, HomewizardClient};
use crate::model::{samples_model, Config, Measurement, Sample, SampleModel};
use vstd::prelude::*;

verus! {

/// What one device yielded: its samples, or why it yielded none.
pub open spec fn outcome_model(o: Result<Vec<Sample>, DeviceError>) -> Result<
    Seq<SampleModel>,
    DeviceError,
> {
    match o {
        Ok(v) => Ok(samples_model(v@)),
        Err(e) => Err(e),
    }
}

pub open spec fn outcomes_model(os: Seq<Result<Vec<Sample>, DeviceError>>) -> Seq<
    Result<Seq<SampleModel>, DeviceError>,
> {
    os.map_values(|o: Result<Vec<Sample>, DeviceError>| outcome_model(o))
}

/// The samples that a device with outcome `o` contributes: all of them, or
/// none where it failed.
pub open spec fn contribution(o: Result<Seq<SampleModel>, DeviceError>) -> Seq<SampleModel> {
    match o {
        Ok(s) => s,
        Err(_) => Seq::empty(),
    }
}

/// The samples of the devices that succeeded, in the order of `os`.
pub open spec fn collected(os: Seq<Result<Seq<SampleModel>, DeviceError>>) -> Seq<SampleModel>
    decreases os.len(),
{
    if os.len() == 0 {
        Seq::empty()
    } else {
        collected(os.drop_last()) + contribution(os.last())
    }
}

/// A device that failed contributes nothing: the samples collected are those
/// of the other devices alone.
pub proof fn lemma_failed_device_contributes_nothing(
    os: Seq<Result<Seq<SampleModel>, DeviceError>>,
    k: int,
)
    requires
        0 <= k < os.len(),
        os[k] is Err,
    ensures
        collected(os) == collected(os.remove(k)),
    decreases os.len(),
{
    if k == os.len() - 1 {
        assert(os.remove(k) =~= os.drop_last());
        assert(collected(os) =~= collected(os.drop_last()));
    } else {
        let rest = os.drop_last();
        lemma_failed_device_contributes_nothing(rest, k);
        assert(os.remove(k).drop_last() =~= rest.remove(k));
        assert(os.remove(k).last() == os.last());
    }
}

/// The identifier of the exporter in the measurements it produces.
pub open spec fn source_name() -> Seq<char> {
    "jarvis-homewizard-exporter"@
}

/// Relies on uuid::Uuid::new_v4 and the hyphenated form that its
/// `to_string` writes: a random identifier of 36 characters.
#[verifier::external_body]
fn new_measurement_id() -> (r: String)
    ensures
        r@.len() == 36,
{
    uuid::Uuid::new_v4().to_string()
}

/// Relies on chrono::Utc::now and DateTime::timestamp_millis: the current
/// time in milliseconds since the Unix epoch.
#[verifier::external_body]
fn now_millis() -> (r: i64) {
    chrono::Utc::now().timestamp_millis()
}

impl HomewizardClient {
    /// An empty measurement for the cycle that begins now, at the location
    /// of `config`, with a fresh identifier.
    pub fn start_measurement(&self, config: &Config) -> (r: Measurement)
        ensures
            r.id@.len() == 36,
            r.source@ == source_name(),
            r.location@ == config.location@,
            r.samples@.len() == 0,
    {
        let id = new_measurement_id();
        let measured_at_millis = now_millis();
        Measurement {
            id,
            source: "jarvis-homewizard-exporter".to_owned(),
            location: config.location.clone(),
            samples: Vec::new(),
            measured_at_millis,
        }
    }
}

impl Measurement {
    /// Adds what one device yielded: all its samples, in order, or nothing
    /// where it failed.
    pub fn add_device_outcome(&mut self, outcome: Result<Vec<Sample>, DeviceError>)
        ensures
            samples_model(final(self).samples@) == samples_model(old(self).samples@)
                + contribution(outcome_model(outcome)),
            final(self).id == old(self).id,
            final(self).source == old(self).source,
            final(self).location == old(self).location,
            final(self).measured_at_millis == old(self).measured_at_millis,
    {
        let ghost before = self.samples@;
        match outcome {
            Ok(mut v) => {
                let ghost added = v@;
                self.samples.append(&mut v);
                assert(samples_model(self.samples@) =~= samples_model(before) + samples_model(
                    added,
                ));
            },
            Err(_) => {
                assert(samples_model(self.samples@) =~= samples_model(before) + Seq::empty());
            },
        }
    }

    /// Adds what each device yielded, in order: the samples of those that
    /// succeeded, and nothing of those that failed.
    pub fn add_device_outcomes(&mut self, outcomes: Vec<Result<Vec<Sample>, DeviceError>>)
        ensures
            samples_model(final(self).samples@) == samples_model(old(self).samples@) + collected(
                outcomes_model(outcomes@),
            ),
            final(self).id == old(self).id,
            final(self).source == old(self).source,
            final(self).location == old(self).location,
            final(self).measured_at_millis == old(self).measured_at_millis,
    {
        let ghost all = outcomes_model(outcomes@);
        let ghost start = samples_model(self.samples@);
        let total = outcomes.len();
        let mut rest = outcomes;
        let mut done: usize = 0;
        assert(all.take(0) =~= Seq::<Result<Seq<SampleModel>, DeviceError>>::empty());
        while rest.len() > 0
            invariant
                done + rest@.len() == all.len(),
                all.len() == total,
                outcomes_model(rest@) == all.skip(done as int),
                samples_model(self.samples@) == start + collected(all.take(done as int)),
                self.id == old(self).id,
                self.source == old(self).source,
                self.location == old(self).location,
                self.measured_at_millis == old(self).measured_at_millis,
            decreases rest@.len(),
        {
            let ghost r0 = rest@;
            let o = rest.remove(0);
            assert(outcome_model(o) == all[done as int]) by {
                assert(outcomes_model(r0)[0] == all.skip(done as int)[0]);
            }
            assert(outcomes_model(rest@) =~= all.skip(done + 1)) by {
                assert(rest@ =~= r0.skip(1));
                assert forall|k: int| 0 <= k < rest@.len() implies outcomes_model(rest@)[k]
                    == all.skip(done + 1)[k] by {
                    assert(outcomes_model(r0)[k + 1] == all.skip(done as int)[k + 1]);
                }
            }
            self.add_device_outcome(o);
            assert(all.take(done + 1).drop_last() =~= all.take(done as int));
            done = done + 1;
            assert(samples_model(self.samples@) =~= start + collected(all.take(done as int)));
        }
        assert(all.take(done as int) =~= all);
    }
}

} // verus!
