use vstd::prelude::*;

use crate::errors::SensorError;
use crate::measure::Measure;
use crate::measure::SensorMeasureType;

verus! {

/// Simulated sensor: a smooth, bounded random walk per configured measure
/// type. A test and demo fixture for the rest of the pipeline.
pub struct Faker {
    measure: Measure,
    measure_types: Vec<SensorMeasureType>,
}

pub struct FakerConfig {
    pub measures: Vec<SensorMeasureType>,
}

impl Default for FakerConfig {
    /// By default the fixture simulates both known measure types.
    fn default() -> (r: Self)
        ensures
            r.measures@ == seq![
                SensorMeasureType::Temperature,
                SensorMeasureType::Humidity,
            ],
    {
        let mut measures: Vec<SensorMeasureType> = Vec::new();
        measures.push(SensorMeasureType::Temperature);
        measures.push(SensorMeasureType::Humidity);
        proof {
            assert(measures@ =~= seq![
                SensorMeasureType::Temperature,
                SensorMeasureType::Humidity,
            ]);
        }
        Self { measures }
    }
}

/// Relies on rand::Rng::gen_range on a half-open integer range: returns a
/// value drawn from [lo, hi). gen_range panics on an empty range, which the
/// precondition rules out; nothing more than the bounds holds of any one
/// outcome.
#[verifier::external_body]
fn rand_range_milli(lo: i64, hi: i64) -> (r: i64)
    requires
        lo < hi,
    ensures
        lo <= r < hi,
{
    rand::Rng::gen_range(&mut rand::thread_rng(), lo..hi)
}

/// Clamp bounds per measure type, in milli-units.
pub open spec fn spec_temperature_min() -> int {
    -20000
}

pub open spec fn spec_temperature_max() -> int {
    40000
}

pub open spec fn spec_humidity_min() -> int {
    0
}

pub open spec fn spec_humidity_max() -> int {
    100000
}

/// A value forced into [lo, hi].
pub open spec fn spec_clamp(v: int, lo: int, hi: int) -> int {
    if v < lo {
        lo
    } else if v > hi {
        hi
    } else {
        v
    }
}

/// What one step of the random walk leaves behind: the held value moved by
/// the delta, clamped to its safety range, rounded to two decimals.
pub open spec fn spec_walk_step(old_v: int, delta: int, lo: int, hi: int) -> int {
    spec_round_centi(spec_clamp(old_v + delta, lo, hi))
}

/// A milli-unit value rounded to two decimal places, half away from zero.
pub open spec fn spec_round_centi(v: int) -> int {
    if v >= 0 {
        ((v + 5) / 10) * 10
    } else {
        -(((-v + 5) / 10) * 10)
    }
}

/// Round a milli-unit value to two decimal places, half away from zero.
fn round_centi(v: i64) -> (r: i64)
    requires
        -1000000 <= v <= 1000000,
    ensures
        r == spec_round_centi(v as int),
        v - 5 <= r <= v + 5,
        r % 10 == 0,
{
    if v >= 0 {
        ((v + 5) / 10) * 10
    } else {
        -(((-v + 5) / 10) * 10)
    }
}

impl Faker {
    /// Every held value lies within its clamp range, and a value is held for
    /// a measure type exactly when that type was configured.
    pub closed spec fn wf(&self) -> bool {
        &&& self.measure.temperature is Some <==> self.measure_types@.contains(
            SensorMeasureType::Temperature,
        )
        &&& self.measure.humidity is Some <==> self.measure_types@.contains(
            SensorMeasureType::Humidity,
        )
        &&& self.measure.temperature is Some ==> spec_temperature_min()
            <= self.measure.temperature->0 <= spec_temperature_max()
        &&& self.measure.humidity is Some ==> spec_humidity_min() <= self.measure.humidity->0
            <= spec_humidity_max()
    }

    pub closed spec fn spec_measure_types(&self) -> Seq<SensorMeasureType> {
        self.measure_types@
    }

    pub closed spec fn spec_measure(&self) -> Measure {
        self.measure
    }

    /// Build the fixture: one held value per configured measure type, drawn
    /// from that type's plausible initial range (temperature 19.0..25.0,
    /// humidity 40.0..60.0); unconfigured types hold nothing.
    pub fn new(config: &FakerConfig) -> (r: Self)
        ensures
            r.wf(),
            r.spec_measure_types() == config.measures@,
            r.spec_measure().temperature is Some <==> config.measures@.contains(
                SensorMeasureType::Temperature,
            ),
            r.spec_measure().humidity is Some <==> config.measures@.contains(
                SensorMeasureType::Humidity,
            ),
            r.spec_measure().temperature is Some ==> 19000 <= r.spec_measure().temperature->0
                < 25000,
            r.spec_measure().humidity is Some ==> 40000 <= r.spec_measure().humidity->0 < 60000,
    {
        let mut measure = Measure { temperature: None, humidity: None };
        let mut measure_types: Vec<SensorMeasureType> = Vec::new();
        let mut i: usize = 0;
        while i < config.measures.len()
            invariant
                i <= config.measures@.len(),
                measure_types@ == config.measures@.take(i as int),
                measure.temperature is Some <==> measure_types@.contains(
                    SensorMeasureType::Temperature,
                ),
                measure.humidity is Some <==> measure_types@.contains(
                    SensorMeasureType::Humidity,
                ),
                measure.temperature is Some ==> 19000 <= measure.temperature->0 < 25000,
                measure.humidity is Some ==> 40000 <= measure.humidity->0 < 60000,
            decreases config.measures@.len() - i,
        {
            proof {
                broadcast use vstd::seq_lib::lemma_seq_contains_after_push;
            }
            let t = config.measures[i];
            match t {
                SensorMeasureType::Temperature => {
                    measure.temperature = Some(rand_range_milli(19000, 25000));
                    measure_types.push(SensorMeasureType::Temperature);
                },
                SensorMeasureType::Humidity => {
                    measure.humidity = Some(rand_range_milli(40000, 60000));
                    measure_types.push(SensorMeasureType::Humidity);
                },
            }
            proof {
                assert(config.measures@.take(i as int).push(config.measures@[i as int])
                    =~= config.measures@.take(i as int + 1));
            }
            i = i + 1;
        }
        proof {
            assert(config.measures@.take(config.measures@.len() as int) =~= config.measures@);
        }
        Faker { measure, measure_types }
    }

    /// One step of the random walk: perturb every held value by a delta in
    /// [-2.0, 2.0), clamp it to its safety range, round it to two decimals.
    /// Never fails; reports exactly the configured measure types, each moved
    /// by one such step from the value held before the call.
    pub fn measure(&mut self) -> (r: Result<Measure, SensorError>)
        requires
            old(self).wf(),
        ensures
            final(self).wf(),
            final(self).spec_measure_types() == old(self).spec_measure_types(),
            r is Ok,
            r->Ok_0 == final(self).spec_measure(),
            final(self).spec_measure().temperature is Some ==> exists|d: int|
                -2000 <= d < 2000 && final(self).spec_measure().temperature->0 == spec_walk_step(
                    old(self).spec_measure().temperature->0 as int,
                    d,
                    spec_temperature_min(),
                    spec_temperature_max(),
                ),
            final(self).spec_measure().humidity is Some ==> exists|d: int|
                -2000 <= d < 2000 && final(self).spec_measure().humidity->0 == spec_walk_step(
                    old(self).spec_measure().humidity->0 as int,
                    d,
                    spec_humidity_min(),
                    spec_humidity_max(),
                ),
            r->Ok_0.temperature is Some <==> old(self).spec_measure_types().contains(
                SensorMeasureType::Temperature,
            ),
            r->Ok_0.humidity is Some <==> old(self).spec_measure_types().contains(
                SensorMeasureType::Humidity,
            ),
            r->Ok_0.temperature is Some ==> spec_temperature_min() <= r->Ok_0.temperature->0
                <= spec_temperature_max(),
            r->Ok_0.humidity is Some ==> spec_humidity_min() <= r->Ok_0.humidity->0
                <= spec_humidity_max(),
    {
        if self.measure.humidity.is_some() {
            let h = self.measure.humidity.unwrap();
            let delta = rand_range_milli(-2000, 2000);
            let mut v = h + delta;
            if v < 0 {
                v = 0;
            }
            if v > 100000 {
                v = 100000;
            }
            v = round_centi(v);
            proof {
                assert(0 <= v <= 100000);
                assert(v == spec_walk_step(
                    h as int,
                    delta as int,
                    spec_humidity_min(),
                    spec_humidity_max(),
                ));
                assert(exists|d: int|
                    -2000 <= d < 2000 && v == spec_walk_step(
                        h as int,
                        d,
                        spec_humidity_min(),
                        spec_humidity_max(),
                    ));
            }
            self.measure.humidity = Some(v);
        }
        if self.measure.temperature.is_some() {
            let t = self.measure.temperature.unwrap();
            let delta = rand_range_milli(-2000, 2000);
            let mut v = t + delta;
            if v < -20000 {
                v = -20000;
            }
            if v > 40000 {
                v = 40000;
            }
            v = round_centi(v);
            proof {
                assert(-20000 <= v <= 40000);
                assert(v == spec_walk_step(
                    t as int,
                    delta as int,
                    spec_temperature_min(),
                    spec_temperature_max(),
                ));
                assert(exists|d: int|
                    -2000 <= d < 2000 && v == spec_walk_step(
                        t as int,
                        d,
                        spec_temperature_min(),
                        spec_temperature_max(),
                    ));
            }
            self.measure.temperature = Some(v);
        }
        Ok(self.measure)
    }

    pub fn measure_types(&self) -> (r: &Vec<SensorMeasureType>)
        ensures
            r@ == self.spec_measure_types(),
    {
        &self.measure_types
    }
}

} // verus!
