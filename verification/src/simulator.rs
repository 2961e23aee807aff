//! Deterministic telemetry simulator.
//!
//! A pure function of the requested keys and a monotonically increasing
//! sample index: each recognized key gets a smoothly varying, bounded value
//! from simple modular arithmetic, so a run is fully reproducible from the
//! indices alone. If no requested key is recognized, a single default
//! channel is emitted so a session never produces an empty sample.

use vstd::prelude::*;
use vstd::string::StringExecFns;
use crate::buffer::DecodedSample;
use crate::engine::now_timestamp_ms;
use crate::text::str_eq;
use crate::value::PhysValue;

verus! {

/// Simulated engine speed: a sawtooth around 750 with a floor of 650.
pub open spec fn spec_sim_rpm(i: u64) -> PhysValue {
    let base = 750 + ((i as int % 220) - 110) * 8;
    PhysValue {
        num: (if base >= 650 {
            base
        } else {
            650
        }) as i128,
        den: 1,
    }
}

/// The simulated value for a parameter key at a sample index; `None` for a
/// key the simulator does not recognize.
pub open spec fn spec_sim_value(key: Seq<char>, i: u64) -> Option<PhysValue> {
    if key == "engine-rpm"@ {
        Some(spec_sim_rpm(i))
    } else if key == "throttle-position"@ {
        Some(
            PhysValue {
                num: (if i as int % 100 <= 92 {
                    i as int % 100
                } else {
                    92
                }) as i128,
                den: 1,
            },
        )
    } else if key == "coolant-temp"@ {
        Some(PhysValue { num: (8800 + ((i as int % 12) - 6) * 15) as i128, den: 100 })
    } else if key == "iat"@ {
        Some(PhysValue { num: (380 + ((i as int % 20) - 10) * 2) as i128, den: 10 })
    } else if key == "vehicle-speed"@ {
        Some(PhysValue { num: (i as int % 145) as i128, den: 1 })
    } else if key == "timing-avg"@ {
        Some(PhysValue { num: (800 + ((i as int % 16) - 8) * 25) as i128, den: 100 })
    } else if key == "boost-actual"@ || key == "boost-target"@ {
        Some(
            PhysValue {
                num: ((120 + ((i as int % 60) - 30) * 7) * 145038) as i128,
                den: 10000000,
            },
        )
    } else if key == "afr-bank1"@ || key == "afr-bank2"@ {
        Some(PhysValue { num: (8400 + ((i as int % 30) - 15) * 15) as i128, den: 10000 })
    } else if key == "oil-temp"@ {
        Some(PhysValue { num: (950 + ((i as int % 16) - 8) * 2) as i128, den: 10 })
    } else if key == "fuel-pressure"@ {
        Some(PhysValue { num: (6200 + ((i as int % 20) - 10) * 25) as i128, den: 10 })
    } else {
        None
    }
}

/// The simulated entries for a key list, in request order: one entry per
/// recognized key.
pub open spec fn spec_sim_values(keys: Seq<Seq<char>>, i: u64) -> Seq<(Seq<char>, PhysValue)>
    decreases keys.len(),
{
    if keys.len() == 0 {
        seq![]
    } else {
        let rest = spec_sim_values(keys.drop_first(), i);
        match spec_sim_value(keys[0], i) {
            Some(v) => seq![(keys[0], v)] + rest,
            None => rest,
        }
    }
}

/// What one simulator tick emits: the recognized keys' entries, or the
/// single default channel when none of the requested keys is recognized.
pub open spec fn spec_sim_sample_values(keys: Seq<Seq<char>>, i: u64) -> Seq<
    (Seq<char>, PhysValue),
> {
    let values = spec_sim_values(keys, i);
    if values.len() == 0 {
        seq![("engine-rpm"@, spec_sim_rpm(i))]
    } else {
        values
    }
}

/// A simulator tick never emits an empty value map.
pub proof fn lemma_sim_sample_nonempty(keys: Seq<Seq<char>>, i: u64)
    ensures
        spec_sim_sample_values(keys, i).len() >= 1,
{
}

/// Computes the simulated value for one key at one sample index.
pub fn sim_value_for_key(key: &str, sample_index: u64) -> (r: Option<PhysValue>)
    ensures
        r == spec_sim_value(key@, sample_index),
        r matches Some(v) ==> v.wf(),
{
    let m: i128 = if str_eq(key, "engine-rpm") {
        let base: i128 = 750 + ((sample_index % 220) as i128 - 110) * 8;
        return Some(PhysValue::new(
            if base >= 650 {
                base
            } else {
                650
            },
            1,
        ));
    } else if str_eq(key, "throttle-position") {
        let t: i128 = (sample_index % 100) as i128;
        return Some(PhysValue::new(
            if t <= 92 {
                t
            } else {
                92
            },
            1,
        ));
    } else if str_eq(key, "coolant-temp") {
        return Some(PhysValue::new(8800 + ((sample_index % 12) as i128 - 6) * 15, 100));
    } else if str_eq(key, "iat") {
        return Some(PhysValue::new(380 + ((sample_index % 20) as i128 - 10) * 2, 10));
    } else if str_eq(key, "vehicle-speed") {
        return Some(PhysValue::new((sample_index % 145) as i128, 1));
    } else if str_eq(key, "timing-avg") {
        return Some(PhysValue::new(800 + ((sample_index % 16) as i128 - 8) * 25, 100));
    } else if str_eq(key, "boost-actual") || str_eq(key, "boost-target") {
        return Some(
            PhysValue::new((120 + ((sample_index % 60) as i128 - 30) * 7) * 145038, 10000000),
        );
    } else if str_eq(key, "afr-bank1") || str_eq(key, "afr-bank2") {
        return Some(PhysValue::new(8400 + ((sample_index % 30) as i128 - 15) * 15, 10000));
    } else if str_eq(key, "oil-temp") {
        return Some(PhysValue::new(950 + ((sample_index % 16) as i128 - 8) * 2, 10));
    } else if str_eq(key, "fuel-pressure") {
        return Some(PhysValue::new(6200 + ((sample_index % 20) as i128 - 10) * 25, 10));
    } else {
        return None;
    };
}

/// Builds one simulator tick's value map: one entry per recognized requested
/// key, in request order, falling back to the single default channel when
/// none is recognized. The result is never empty.
pub fn build_simulated_sample(parameter_keys: &Vec<String>, sample_index: u64) -> (r: Vec<
    (String, PhysValue),
>)
    ensures
        r@.map_values(|p: (String, PhysValue)| (p.0@, p.1)) == spec_sim_sample_values(
            parameter_keys@.map_values(|k: String| k@),
            sample_index,
        ),
        r@.len() >= 1,
{
    let ghost kv = parameter_keys@.map_values(|k: String| k@);
    let mut out: Vec<(String, PhysValue)> = Vec::new();
    let mut idx: usize = 0;
    proof {
        assert(kv.skip(0) =~= kv);
        assert(out@.map_values(|p: (String, PhysValue)| (p.0@, p.1)) + spec_sim_values(kv, sample_index)
            =~= spec_sim_values(kv, sample_index));
    }
    while idx < parameter_keys.len()
        invariant
            kv == parameter_keys@.map_values(|k: String| k@),
            idx <= parameter_keys@.len(),
            out@.map_values(|p: (String, PhysValue)| (p.0@, p.1)) + spec_sim_values(
                kv.skip(idx as int),
                sample_index,
            ) == spec_sim_values(kv, sample_index),
        decreases parameter_keys@.len() - idx,
    {
        let key = &parameter_keys[idx];
        proof {
            assert(kv.skip(idx as int)[0] == kv[idx as int]);
            assert(kv.skip(idx as int).drop_first() =~= kv.skip(idx as int + 1));
        }
        match sim_value_for_key(key.as_str(), sample_index) {
            Some(v) => {
                let ghost before = out@;
                out.push((key.clone(), v));
                proof {
                    assert(out@.map_values(|p: (String, PhysValue)| (p.0@, p.1)) =~= before.map_values(
                        |p: (String, PhysValue)| (p.0@, p.1),
                    ) + seq![(kv[idx as int], v)]);
                    assert(before.map_values(|p: (String, PhysValue)| (p.0@, p.1)) + (seq![
                        (kv[idx as int], v),
                    ] + spec_sim_values(kv.skip(idx as int + 1), sample_index)) =~= out@.map_values(
                        |p: (String, PhysValue)| (p.0@, p.1),
                    ) + spec_sim_values(kv.skip(idx as int + 1), sample_index));
                }
            },
            None => {},
        }
        idx = idx + 1;
    }
    proof {
        assert(kv.skip(idx as int) =~= Seq::<Seq<char>>::empty());
        assert(out@.map_values(|p: (String, PhysValue)| (p.0@, p.1)) =~= spec_sim_values(
            kv,
            sample_index,
        ));
    }
    if out.len() == 0 {
        match sim_value_for_key("engine-rpm", sample_index) {
            Some(v) => {
                out.push((String::from_str("engine-rpm"), v));
                proof {
                    assert(out@.map_values(|p: (String, PhysValue)| (p.0@, p.1)) =~= seq![
                        ("engine-rpm"@, spec_sim_rpm(sample_index)),
                    ]);
                }
            },
            None => {
                proof {
                    assert(false);
                }
            },
        }
    }
    out
}

/// One simulator tick: stamps the wall clock and builds the value map for
/// the requested keys. The value map is fully determined by the keys and
/// the index and is never empty; nothing is promised of the timestamp, the
/// clock may move arbitrarily between ticks.
pub fn simulator_tick(parameter_keys: &Vec<String>, sample_index: u64) -> (r: DecodedSample)
    ensures
        r.values@.map_values(|p: (String, PhysValue)| (p.0@, p.1)) == spec_sim_sample_values(
            parameter_keys@.map_values(|k: String| k@),
            sample_index,
        ),
        r.values@.len() >= 1,
{
    let timestamp_ms = now_timestamp_ms();
    let values = build_simulated_sample(parameter_keys, sample_index);
    DecodedSample { timestamp_ms, values }
}

} // verus!
