use vstd::prelude::*;

use crate::errors::SensorError;
use crate::measure::Measure;
use crate::measure::SensorMeasureType;

verus! {

/// One declare call the discovery pass must make: sensor and publisher are
/// indices into the realized sensor and publisher lists.
#[derive(Clone, Copy, Debug, PartialEq)]
pub struct DeclareCommand {
    pub sensor: usize,
    pub measure_type: SensorMeasureType,
    pub publisher: usize,
}

/// One publish call a tick must make: the reading of the sensor at index
/// `sensor` goes to the publisher at index `publisher`.
#[derive(Clone, Copy, Debug, PartialEq)]
pub struct PublishCommand {
    pub sensor: usize,
    pub publisher: usize,
    pub measure: Measure,
}

pub open spec fn spec_declare_row(
    sensor: int,
    measure_type: SensorMeasureType,
    n_publishers: int,
) -> Seq<DeclareCommand> {
    Seq::new(
        n_publishers as nat,
        |p: int|
            DeclareCommand {
                sensor: sensor as usize,
                measure_type,
                publisher: p as usize,
            },
    )
}

/// Declare commands of one sensor's first `j` measure types.
pub open spec fn spec_declare_for_sensor(
    sensor: int,
    measure_types: Seq<SensorMeasureType>,
    n_publishers: int,
    j: int,
) -> Seq<DeclareCommand>
    decreases j,
{
    if j <= 0 {
        seq![]
    } else {
        spec_declare_for_sensor(sensor, measure_types, n_publishers, j - 1) + spec_declare_row(
            sensor,
            measure_types[j - 1],
            n_publishers,
        )
    }
}

/// Declare commands of the first `i` sensors.
pub open spec fn spec_declare_plan_upto(
    sensors: Seq<Vec<SensorMeasureType>>,
    n_publishers: int,
    i: int,
) -> Seq<DeclareCommand>
    decreases i,
{
    if i <= 0 {
        seq![]
    } else {
        spec_declare_plan_upto(sensors, n_publishers, i - 1) + spec_declare_for_sensor(
            i - 1,
            sensors[i - 1]@,
            n_publishers,
            sensors[i - 1]@.len() as int,
        )
    }
}

/// The one-time discovery pass: for each sensor, for each of its measure
/// types, for each publisher, one declare call, in that order.
pub open spec fn spec_declare_plan(
    sensors: Seq<Vec<SensorMeasureType>>,
    n_publishers: int,
) -> Seq<DeclareCommand> {
    spec_declare_plan_upto(sensors, n_publishers, sensors.len() as int)
}

pub open spec fn spec_publish_row(sensor: int, measure: Measure, n_publishers: int) -> Seq<
    PublishCommand,
> {
    Seq::new(
        n_publishers as nat,
        |p: int| PublishCommand { sensor: sensor as usize, publisher: p as usize, measure },
    )
}

/// Publish commands for the first `i` sensors of a tick: a failed reading
/// contributes nothing, a successful one goes to every publisher.
pub open spec fn spec_tick_plan_upto(
    outcomes: Seq<Result<Measure, SensorError>>,
    n_publishers: int,
    i: int,
) -> Seq<PublishCommand>
    decreases i,
{
    if i <= 0 {
        seq![]
    } else {
        spec_tick_plan_upto(outcomes, n_publishers, i - 1) + (match outcomes[i - 1] {
            Ok(m) => spec_publish_row(i - 1, m, n_publishers),
            Err(_) => seq![],
        })
    }
}

/// What one tick publishes, given each sensor's measurement outcome.
pub open spec fn spec_tick_plan(
    outcomes: Seq<Result<Measure, SensorError>>,
    n_publishers: int,
) -> Seq<PublishCommand> {
    spec_tick_plan_upto(outcomes, n_publishers, outcomes.len() as int)
}

/// Compute the discovery pass for the realized sensors (each given by its
/// declared measure types) and the realized publishers.
pub fn plan_declare(sensors: &Vec<Vec<SensorMeasureType>>, n_publishers: usize) -> (r: Vec<
    DeclareCommand,
>)
    ensures
        r@ == spec_declare_plan(sensors@, n_publishers as int),
{
    let mut out: Vec<DeclareCommand> = Vec::new();
    let mut i: usize = 0;
    while i < sensors.len()
        invariant
            i <= sensors@.len(),
            out@ == spec_declare_plan_upto(sensors@, n_publishers as int, i as int),
        decreases sensors@.len() - i,
    {
        let measure_types = &sensors[i];
        let mut j: usize = 0;
        while j < measure_types.len()
            invariant
                i < sensors@.len(),
                j <= measure_types@.len(),
                measure_types@ == sensors@[i as int]@,
                out@ == spec_declare_plan_upto(sensors@, n_publishers as int, i as int)
                    + spec_declare_for_sensor(
                    i as int,
                    measure_types@,
                    n_publishers as int,
                    j as int,
                ),
            decreases measure_types@.len() - j,
        {
            let measure_type = measure_types[j];
            let mut p: usize = 0;
            while p < n_publishers
                invariant
                    i < sensors@.len(),
                    j < measure_types@.len(),
                    p <= n_publishers,
                    measure_type == measure_types@[j as int],
                    measure_types@ == sensors@[i as int]@,
                    out@ == spec_declare_plan_upto(sensors@, n_publishers as int, i as int)
                        + spec_declare_for_sensor(
                        i as int,
                        measure_types@,
                        n_publishers as int,
                        j as int,
                    ) + spec_declare_row(i as int, measure_type, n_publishers as int).take(
                        p as int,
                    ),
                decreases n_publishers - p,
            {
                out.push(DeclareCommand { sensor: i, measure_type, publisher: p });
                proof {
                    let row = spec_declare_row(i as int, measure_type, n_publishers as int);
                    assert(row.take(p as int).push(row[p as int]) =~= row.take(p as int + 1));
                }
                p = p + 1;
            }
            proof {
                let row = spec_declare_row(i as int, measure_type, n_publishers as int);
                assert(row.take(n_publishers as int) =~= row);
                assert(out@ =~= spec_declare_plan_upto(sensors@, n_publishers as int, i as int)
                    + spec_declare_for_sensor(
                    i as int,
                    measure_types@,
                    n_publishers as int,
                    j as int + 1,
                ));
            }
            j = j + 1;
        }
        proof {
            assert(out@ =~= spec_declare_plan_upto(sensors@, n_publishers as int, i as int + 1));
        }
        i = i + 1;
    }
    out
}

/// Compute one tick's publish calls from each sensor's measurement outcome.
///
/// A sensor whose reading failed appears in no command; a sensor whose
/// reading succeeded is sent to every publisher.
pub fn plan_tick(outcomes: &Vec<Result<Measure, SensorError>>, n_publishers: usize) -> (r: Vec<
    PublishCommand,
>)
    ensures
        r@ == spec_tick_plan(outcomes@, n_publishers as int),
{
    let mut out: Vec<PublishCommand> = Vec::new();
    let mut i: usize = 0;
    while i < outcomes.len()
        invariant
            i <= outcomes@.len(),
            out@ == spec_tick_plan_upto(outcomes@, n_publishers as int, i as int),
        decreases outcomes@.len() - i,
    {
        match &outcomes[i] {
            Ok(m) => {
                let measure = *m;
                let mut p: usize = 0;
                while p < n_publishers
                    invariant
                        i < outcomes@.len(),
                        p <= n_publishers,
                        outcomes@[i as int] is Ok,
                        measure == outcomes@[i as int]->Ok_0,
                        out@ == spec_tick_plan_upto(outcomes@, n_publishers as int, i as int)
                            + spec_publish_row(i as int, measure, n_publishers as int).take(
                            p as int,
                        ),
                    decreases n_publishers - p,
                {
                    out.push(PublishCommand { sensor: i, publisher: p, measure });
                    proof {
                        let row = spec_publish_row(i as int, measure, n_publishers as int);
                        assert(row.take(p as int).push(row[p as int]) =~= row.take(p as int + 1));
                    }
                    p = p + 1;
                }
                proof {
                    let row = spec_publish_row(i as int, measure, n_publishers as int);
                    assert(row.take(n_publishers as int) =~= row);
                    assert(out@ =~= spec_tick_plan_upto(
                        outcomes@,
                        n_publishers as int,
                        i as int + 1,
                    ));
                }
            },
            Err(_) => {
                proof {
                    assert(out@ + seq![] =~= out@);
                    assert(out@ =~= spec_tick_plan_upto(
                        outcomes@,
                        n_publishers as int,
                        i as int + 1,
                    ));
                }
            },
        }
        i = i + 1;
    }
    out
}

proof fn lemma_tick_plan_upto_sound(
    outcomes: Seq<Result<Measure, SensorError>>,
    n_publishers: int,
    i: int,
    k: int,
)
    requires
        0 <= n_publishers <= usize::MAX,
        0 <= i <= outcomes.len() <= usize::MAX,
        0 <= k < spec_tick_plan_upto(outcomes, n_publishers, i).len(),
    ensures
        ({
            let cmd = spec_tick_plan_upto(outcomes, n_publishers, i)[k];
            &&& cmd.sensor < i
            &&& outcomes[cmd.sensor as int] is Ok
            &&& cmd.measure == outcomes[cmd.sensor as int]->Ok_0
            &&& cmd.publisher < n_publishers
        }),
    decreases i,
{
    let prefix = spec_tick_plan_upto(outcomes, n_publishers, i - 1);
    if k < prefix.len() {
        lemma_tick_plan_upto_sound(outcomes, n_publishers, i - 1, k);
    }
}

/// Fault isolation, one direction: every command of a tick's plan reads a
/// sensor whose measurement succeeded and carries exactly that measurement.
/// A sensor whose reading failed therefore appears in no publish call.
pub proof fn lemma_tick_plan_sound(
    outcomes: Seq<Result<Measure, SensorError>>,
    n_publishers: int,
    k: int,
)
    requires
        0 <= n_publishers <= usize::MAX,
        outcomes.len() <= usize::MAX,
        0 <= k < spec_tick_plan(outcomes, n_publishers).len(),
    ensures
        ({
            let cmd = spec_tick_plan(outcomes, n_publishers)[k];
            &&& cmd.sensor < outcomes.len()
            &&& outcomes[cmd.sensor as int] is Ok
            &&& cmd.measure == outcomes[cmd.sensor as int]->Ok_0
            &&& cmd.publisher < n_publishers
        }),
{
    lemma_tick_plan_upto_sound(outcomes, n_publishers, outcomes.len() as int, k);
}

proof fn lemma_tick_plan_upto_complete(
    outcomes: Seq<Result<Measure, SensorError>>,
    n_publishers: int,
    i: int,
    s: int,
    p: int,
)
    requires
        0 <= n_publishers <= usize::MAX,
        0 <= s < i <= outcomes.len() <= usize::MAX,
        outcomes[s] is Ok,
        0 <= p < n_publishers,
    ensures
        spec_tick_plan_upto(outcomes, n_publishers, i).contains(
            PublishCommand {
                sensor: s as usize,
                publisher: p as usize,
                measure: outcomes[s]->Ok_0,
            },
        ),
    decreases i,
{
    let cmd = PublishCommand {
        sensor: s as usize,
        publisher: p as usize,
        measure: outcomes[s]->Ok_0,
    };
    let prefix = spec_tick_plan_upto(outcomes, n_publishers, i - 1);
    if s == i - 1 {
        let row = spec_publish_row(s, outcomes[s]->Ok_0, n_publishers);
        assert(row[p] == cmd);
        assert(spec_tick_plan_upto(outcomes, n_publishers, i)[prefix.len() + p] == cmd);
    } else {
        lemma_tick_plan_upto_complete(outcomes, n_publishers, i - 1, s, p);
        let j = choose|j: int|
            0 <= j < prefix.len() && prefix[j] == cmd;
        assert(spec_tick_plan_upto(outcomes, n_publishers, i)[j] == cmd);
    }
}

/// Fault isolation, the other direction: a sensor whose reading succeeded is
/// published to every publisher, whatever happened to the other sensors.
pub proof fn lemma_tick_plan_complete(
    outcomes: Seq<Result<Measure, SensorError>>,
    n_publishers: int,
    s: int,
    p: int,
)
    requires
        0 <= n_publishers <= usize::MAX,
        0 <= s < outcomes.len() <= usize::MAX,
        outcomes[s] is Ok,
        0 <= p < n_publishers,
    ensures
        spec_tick_plan(outcomes, n_publishers).contains(
            PublishCommand {
                sensor: s as usize,
                publisher: p as usize,
                measure: outcomes[s]->Ok_0,
            },
        ),
{
    lemma_tick_plan_upto_complete(outcomes, n_publishers, outcomes.len() as int, s, p);
}

} // verus!
