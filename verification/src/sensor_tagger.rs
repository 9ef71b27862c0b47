//! Tagger stage: one raw line in, at most one measurement point out.
//! A line is decoded as a tower record; an undecodable line is dropped.
//! A decoded record is deduplicated by its 32-bit sensor identity
//! against the second of the last accepted reading, then turned into a
//! point tagged with the model, the identity and the operator's
//! configured extra tags for that identity.

use crate::point::{spec_point, string_pairs_view, Point};
use crate::records::accurite::{spec_decode_line, AccuriteRecord};
use crate::text::{spec_dec_digits, str_eq, u64_to_dec_string};
use crate::DEDUP_WINDOW_SECS;
use std::collections::HashMap;
use vstd::prelude::*;

verus! {

broadcast use vstd::std_specs::hash::group_hash_axioms;

/// The measurement-family key of tower records: the measurement name
/// and the key under which the tag configuration lists their tags.
pub open spec fn spec_family_key() -> Seq<char> {
    "acutwr"@
}

/// The operator's static tags for one sensor instance, keyed by the
/// instance's decimal identity.
#[derive(Clone)]
pub struct InstanceConfig {
    pub id: String,
    pub tags: Vec<(String, String)>,
}

/// Spec-level value of an instance's tag configuration.
pub struct InstanceConfigV {
    pub id: Seq<char>,
    pub tags: Seq<(Seq<char>, Seq<char>)>,
}

impl View for InstanceConfig {
    type V = InstanceConfigV;

    open spec fn view(&self) -> InstanceConfigV {
        InstanceConfigV { id: self.id@, tags: string_pairs_view(self.tags@) }
    }
}

/// The operator's static tags for every configured instance of one
/// sensor family.
#[derive(Clone)]
pub struct SensorTypeConfig {
    pub instances: Vec<InstanceConfig>,
}

/// Spec-level value of a family's tag configuration.
pub struct SensorTypeConfigV {
    pub instances: Seq<InstanceConfigV>,
}

impl View for SensorTypeConfig {
    type V = SensorTypeConfigV;

    open spec fn view(&self) -> SensorTypeConfigV {
        SensorTypeConfigV {
            instances: Seq::new(self.instances@.len(), |i: int| self.instances@[i]@),
        }
    }
}

/// The spec view of the whole tag configuration.
pub open spec fn sensors_view(v: Seq<(String, SensorTypeConfig)>) -> Seq<
    (Seq<char>, SensorTypeConfigV),
> {
    Seq::new(v.len(), |k: int| (v[k].0@, v[k].1@))
}

/// The configuration of the first family entry with the given key.
pub open spec fn spec_family_config(
    sensors: Seq<(Seq<char>, SensorTypeConfigV)>,
    family: Seq<char>,
) -> Option<SensorTypeConfigV>
    decreases sensors.len(),
{
    if sensors.len() == 0 {
        None
    } else if sensors[0].0 == family {
        Some(sensors[0].1)
    } else {
        spec_family_config(sensors.drop_first(), family)
    }
}

/// The tags of the first instance entry with the given identity.
pub open spec fn spec_instance_tags(instances: Seq<InstanceConfigV>, id: Seq<char>) -> Seq<
    (Seq<char>, Seq<char>),
>
    decreases instances.len(),
{
    if instances.len() == 0 {
        Seq::empty()
    } else if instances[0].id == id {
        instances[0].tags
    } else {
        spec_instance_tags(instances.drop_first(), id)
    }
}

/// The extra tags the configuration holds for one sensor identity of
/// one family; empty when the family or the instance is not listed.
pub open spec fn spec_config_tags(
    sensors: Seq<(Seq<char>, SensorTypeConfigV)>,
    family: Seq<char>,
    id: Seq<char>,
) -> Seq<(Seq<char>, Seq<char>)> {
    match spec_family_config(sensors, family) {
        None => Seq::empty(),
        Some(c) => spec_instance_tags(c.instances, id),
    }
}

/// Whether a reading of identity `id` at second `now` passes the
/// deduplication window given the last accepted seconds in `m`: it
/// does when the identity is new, or when at least the window's length
/// has passed since the last accepted reading.
pub open spec fn dedup_accepts(m: Map<u32, u64>, id: u32, now: u64) -> bool {
    !m.contains_key(id) || (now >= m[id] && now - m[id] >= DEDUP_WINDOW_SECS)
}

/// Law: once a reading of `id` is accepted at second `t1`, a second
/// reading of the same identity is rejected exactly as long as the
/// dedup window has not passed, and accepted from `t1 + 5` on.
pub proof fn lemma_dedup_window(m: Map<u32, u64>, id: u32, t1: u64, t2: u64)
    ensures
        t2 < t1 + DEDUP_WINDOW_SECS ==> !dedup_accepts(m.insert(id, t1), id, t2),
        t2 >= t1 + DEDUP_WINDOW_SECS ==> dedup_accepts(m.insert(id, t1), id, t2),
{
}

/// The tagger stage: the static tag configuration and the mutable
/// dedup state, owned by this stage alone and reset on restart.
pub struct SensorTagger {
    pub sensors: Vec<(String, SensorTypeConfig)>,
    pub dedup: HashMap<u32, u64>,
}

impl SensorTagger {
    /// The last accepted second per 32-bit sensor identity.
    pub open spec fn dedup_map(&self) -> Map<u32, u64> {
        self.dedup@
    }

    /// A fresh tagger: no reading has been accepted yet.
    pub fn new(sensors: Vec<(String, SensorTypeConfig)>) -> (t: SensorTagger)
        ensures
            t.sensors == sensors,
            t.dedup_map() == Map::<u32, u64>::empty(),
    {
        SensorTagger { sensors, dedup: HashMap::new() }
    }

    fn family_config<'a>(&'a self, family: &str) -> (r: Option<&'a SensorTypeConfig>)
        ensures
            match r {
                Some(c) => spec_family_config(sensors_view(self.sensors@), family@) == Some(c@),
                None => spec_family_config(sensors_view(self.sensors@), family@) is None,
            },
    {
        let ghost all = sensors_view(self.sensors@);
        proof {
            assert(all.skip(0) =~= all);
        }
        let mut i: usize = 0;
        while i < self.sensors.len()
            invariant
                i <= self.sensors@.len(),
                all == sensors_view(self.sensors@),
                spec_family_config(all, family@) == spec_family_config(
                    all.skip(i as int),
                    family@,
                ),
            decreases self.sensors@.len() - i,
        {
            let p = &self.sensors[i];
            if str_eq(p.0.as_str(), family) {
                proof {
                    assert(all.skip(i as int)[0] == (p.0@, p.1@));
                }
                return Some(&p.1);
            }
            proof {
                assert(all.skip(i as int)[0] == (p.0@, p.1@));
                assert(all.skip(i as int).drop_first() =~= all.skip(i as int + 1));
            }
            i = i + 1;
        }
        proof {
            assert(all.skip(self.sensors@.len() as int).len() == 0);
        }
        None
    }

    fn instance_tags<'a>(config: &'a SensorTypeConfig, id: &str) -> (r: Option<
        &'a Vec<(String, String)>,
    >)
        ensures
            match r {
                Some(t) => spec_instance_tags(config@.instances, id@) == string_pairs_view(t@),
                None => spec_instance_tags(config@.instances, id@) == Seq::<
                    (Seq<char>, Seq<char>),
                >::empty(),
            },
    {
        let ghost all = config@.instances;
        proof {
            assert(all.skip(0) =~= all);
        }
        let mut i: usize = 0;
        while i < config.instances.len()
            invariant
                i <= config.instances@.len(),
                all == config@.instances,
                spec_instance_tags(all, id@) == spec_instance_tags(all.skip(i as int), id@),
            decreases config.instances@.len() - i,
        {
            let p = &config.instances[i];
            if str_eq(p.id.as_str(), id) {
                proof {
                    assert(all.skip(i as int)[0] == p@);
                }
                return Some(&p.tags);
            }
            proof {
                assert(all.skip(i as int)[0] == p@);
                assert(all.skip(i as int).drop_first() =~= all.skip(i as int + 1));
            }
            i = i + 1;
        }
        proof {
            assert(all.skip(config.instances@.len() as int).len() == 0);
        }
        None
    }

    /// Processes one raw record at processing second `now_sec` and
    /// wall-clock nanosecond `now_ns`: decodes it, deduplicates it,
    /// and builds the completed measurement point of every accepted
    /// reading. Undecodable and duplicate records yield nothing and
    /// leave the dedup state unchanged; an accepted reading records
    /// its processing second for its identity.
    pub fn process_raw(&mut self, line: &str, now_sec: u64, now_ns: i64) -> (r: Option<Point>)
        ensures
            final(self).sensors == old(self).sensors,
            match spec_decode_line(line@) {
                Err(_) => r is None && final(self).dedup_map() == old(self).dedup_map(),
                Ok(rec) => {
                    let id32 = (rec.id % 0x1_0000_0000) as u32;
                    if dedup_accepts(old(self).dedup_map(), id32, now_sec) {
                        &&& final(self).dedup_map() == old(self).dedup_map().insert(id32, now_sec)
                        &&& r matches Some(p) && p@ == spec_point(
                            spec_family_key(),
                            rec,
                            spec_config_tags(
                                sensors_view(old(self).sensors@),
                                spec_family_key(),
                                spec_dec_digits(rec.id),
                            ),
                            now_ns as int,
                        )
                    } else {
                        r is None && final(self).dedup_map() == old(self).dedup_map()
                    }
                },
            },
    {
        let rec = match AccuriteRecord::decode(line) {
            Err(_) => {
                return None;
            },
            Ok(rec) => rec,
        };
        let id32 = (rec.id % 0x1_0000_0000u64) as u32;
        let accept = match self.dedup.get(&id32) {
            None => true,
            Some(last) => now_sec >= *last && now_sec - *last >= DEDUP_WINDOW_SECS,
        };
        if !accept {
            return None;
        }
        self.dedup.insert(id32, now_sec);
        let id_str = u64_to_dec_string(rec.id);
        let empty_tags: Vec<(String, String)> = Vec::new();
        let extras: &Vec<(String, String)> = match self.family_config("acutwr") {
            None => &empty_tags,
            Some(c) => match SensorTagger::instance_tags(c, id_str.as_str()) {
                None => &empty_tags,
                Some(t) => t,
            },
        };
        let p = Point::build("acutwr", &rec, extras, now_ns);
        Some(p)
    }
}

} // verus!
