//! The metrics projector: the pure transformation from one status snapshot
//! to the set of metric samples that a refresh writes into the registry.
//!
//! Pilots and prefiles are grouped by the non-empty airport codes of their
//! flight plans, in order of first occurrence; each controller yields one
//! cumulative online-seconds sample with its facility resolved against the
//! snapshot's facility table (a sentinel label stands in on a lookup miss);
//! each pilot yields one row of instantaneous position gauges.

use vstd::prelude::*;
use vstd::pervasive::VecAdditionalExecFns;

use crate::vatsim::{Controller, Facility, FlightPlan, Pilot, Prefile, VatsimStatus};

verus! {

/// One airport gauge: the number of flight plans that name `icao`.
pub struct AirportCount {
    pub icao: String,
    pub count: u64,
}

/// The airport gauges as mathematical pairs of key and count.
pub open spec fn counts_abs(v: Seq<AirportCount>) -> Seq<(Seq<char>, int)> {
    v.map_values(|a: AirportCount| (a.icao@, a.count as int))
}

/// The views of a sequence of strings.
pub open spec fn keys_abs(v: Seq<String>) -> Seq<Seq<char>> {
    v.map_values(|s: String| s@)
}

/// How often `k` occurs in `keys`.
pub open spec fn key_count(keys: Seq<Seq<char>>, k: Seq<char>) -> int
    decreases keys.len(),
{
    if keys.len() == 0 {
        0
    } else {
        key_count(keys.drop_last(), k) + if keys.last() == k {
            1int
        } else {
            0int
        }
    }
}

/// The total of the counts of a gauge list.
pub open spec fn sum_counts(g: Seq<(Seq<char>, int)>) -> int
    decreases g.len(),
{
    if g.len() == 0 {
        0
    } else {
        sum_counts(g.drop_last()) + g.last().1
    }
}

/// Whether some entry of `g` carries the key `k`.
pub open spec fn has_key(g: Seq<(Seq<char>, int)>, k: Seq<char>) -> bool {
    exists|i: int| 0 <= i < g.len() && g[i].0 == k
}

/// The index of the entry of `g` that carries `k`.
pub open spec fn index_of_key(g: Seq<(Seq<char>, int)>, k: Seq<char>) -> int {
    choose|i: int| 0 <= i < g.len() && g[i].0 == k
}

/// No two entries carry the same key.
pub open spec fn distinct_keys(g: Seq<(Seq<char>, int)>) -> bool {
    forall|i: int, j: int| 0 <= i < j < g.len() ==> g[i].0 != g[j].0
}

/// One more observation of `k`: the entry that carries `k` is incremented,
/// or a fresh entry with count one is appended.
pub open spec fn bump_key(g: Seq<(Seq<char>, int)>, k: Seq<char>) -> Seq<(Seq<char>, int)> {
    if has_key(g, k) {
        let i = index_of_key(g, k);
        g.update(i, (k, g[i].1 + 1))
    } else {
        g.push((k, 1))
    }
}

/// The airport gauges for a sequence of codes: one entry per distinct code,
/// in order of first occurrence, counting that code's occurrences.
pub open spec fn group_counts(keys: Seq<Seq<char>>) -> Seq<(Seq<char>, int)>
    decreases keys.len(),
{
    if keys.len() == 0 {
        Seq::empty()
    } else {
        bump_key(group_counts(keys.drop_last()), keys.last())
    }
}

/// A code's occurrence count is bounded by the length of the sequence.
pub proof fn lemma_key_count_nonneg(keys: Seq<Seq<char>>, k: Seq<char>)
    ensures
        0 <= key_count(keys, k) <= keys.len(),
    decreases keys.len(),
{
    if keys.len() > 0 {
        lemma_key_count_nonneg(keys.drop_last(), k);
    }
}

proof fn lemma_sum_update(g: Seq<(Seq<char>, int)>, i: int, e: (Seq<char>, int))
    requires
        0 <= i < g.len(),
    ensures
        sum_counts(g.update(i, e)) == sum_counts(g) - g[i].1 + e.1,
    decreases g.len(),
{
    let u = g.update(i, e);
    if i == g.len() - 1 {
        assert(u.drop_last() =~= g.drop_last());
    } else {
        assert(u.drop_last() =~= g.drop_last().update(i, e));
        lemma_sum_update(g.drop_last(), i, e);
    }
}

/// Law: grouping never carries the same key twice.
pub proof fn lemma_group_counts_distinct(keys: Seq<Seq<char>>)
    ensures
        distinct_keys(group_counts(keys)),
    decreases keys.len(),
{
    if keys.len() > 0 {
        let pre = keys.drop_last();
        let k = keys.last();
        let g0 = group_counts(pre);
        lemma_group_counts_distinct(pre);
        if has_key(g0, k) {
            let i = index_of_key(g0, k);
            assert(0 <= i < g0.len() && g0[i].0 == k);
            assert(distinct_keys(g0.update(i, (k, g0[i].1 + 1))));
        }
    }
}

/// Law (aggregation correctness): the gauge list of a code sequence carries
/// exactly the codes that occur in it, and the entry of a code counts its
/// occurrences.
pub proof fn lemma_group_counts_correct(keys: Seq<Seq<char>>)
    ensures
        forall|k: Seq<char>| #[trigger] has_key(group_counts(keys), k) <==> key_count(keys, k) > 0,
        forall|i: int|
            0 <= i < group_counts(keys).len() ==> (#[trigger] group_counts(keys)[i]).1
                == key_count(keys, group_counts(keys)[i].0),
    decreases keys.len(),
{
    let g = group_counts(keys);
    if keys.len() == 0 {
        assert(forall|k: Seq<char>| !has_key(g, k));
    } else {
        let pre = keys.drop_last();
        let last = keys.last();
        let g0 = group_counts(pre);
        lemma_group_counts_correct(pre);
        lemma_group_counts_distinct(pre);
        if has_key(g0, last) {
            let i = index_of_key(g0, last);
            assert(0 <= i < g0.len() && g0[i].0 == last);
            assert(g == g0.update(i, (last, g0[i].1 + 1)));
            assert forall|k: Seq<char>| #[trigger] has_key(g, k) implies key_count(keys, k)
                > 0 by {
                lemma_key_count_nonneg(pre, k);
                let w = choose|m: int| 0 <= m < g.len() && g[m].0 == k;
                if w == i {
                    assert(k == last);
                    assert(key_count(keys, k) == key_count(pre, k) + 1);
                } else {
                    assert(g0[w].0 == k);
                    assert(has_key(g0, k));
                    assert(key_count(pre, k) > 0);
                }
            }
            assert forall|k: Seq<char>| key_count(keys, k) > 0 implies has_key(g, k) by {
                if k == last {
                    assert(g[i].0 == k);
                } else {
                    assert(key_count(keys, k) == key_count(pre, k));
                    assert(has_key(g0, k));
                    let w = choose|m: int| 0 <= m < g0.len() && g0[m].0 == k;
                    assert(w != i);
                    assert(g[w].0 == k);
                }
            }
            assert forall|m: int| 0 <= m < g.len() implies (#[trigger] g[m]).1
                == key_count(keys, g[m].0) by {
                if m == i {
                    assert(g[m] == (last, g0[i].1 + 1));
                    assert(g0[i].1 == key_count(pre, last));
                    assert(key_count(keys, last) == key_count(pre, last) + 1);
                } else {
                    assert(g[m] == g0[m]);
                    assert(g0[m].1 == key_count(pre, g0[m].0));
                    assert(g0[m].0 != g0[i].0);
                    assert(key_count(keys, g0[m].0) == key_count(pre, g0[m].0));
                }
            }
        } else {
            assert(g == g0.push((last, 1int)));
            assert forall|k: Seq<char>| #[trigger] has_key(g, k) implies key_count(keys, k)
                > 0 by {
                lemma_key_count_nonneg(pre, k);
                let w = choose|m: int| 0 <= m < g.len() && g[m].0 == k;
                if w < g0.len() {
                    assert(g0[w].0 == k);
                    assert(has_key(g0, k));
                    assert(key_count(pre, k) > 0);
                    assert(key_count(keys, k) >= key_count(pre, k));
                } else {
                    assert(g[w] == (last, 1int));
                    assert(k == last);
                    assert(key_count(keys, k) == key_count(pre, k) + 1);
                }
            }
            assert forall|k: Seq<char>| key_count(keys, k) > 0 implies has_key(g, k) by {
                if k == last {
                    assert(g[g.len() - 1].0 == k);
                } else {
                    assert(key_count(keys, k) == key_count(pre, k));
                    assert(has_key(g0, k));
                    let w = choose|m: int| 0 <= m < g0.len() && g0[m].0 == k;
                    assert(g[w].0 == k);
                }
            }
            assert forall|m: int| 0 <= m < g.len() implies (#[trigger] g[m]).1
                == key_count(keys, g[m].0) by {
                lemma_key_count_nonneg(pre, g[m].0);
                if m < g0.len() {
                    assert(g[m] == g0[m]);
                    assert(g0[m].1 == key_count(pre, g0[m].0));
                    if g0[m].0 == last {
                        assert(has_key(g0, last));
                    }
                    assert(key_count(keys, g0[m].0) == key_count(pre, g0[m].0));
                } else {
                    assert(g[m] == (last, 1int));
                    if key_count(pre, last) > 0 {
                        assert(has_key(g0, last));
                    }
                    assert(key_count(keys, last) == key_count(pre, last) + 1);
                }
            }
        }
    }
}

/// Law (conservation): the counts of a gauge list total the length of the
/// code sequence it was grouped from — no observation is lost or invented.
pub proof fn lemma_group_counts_sum(keys: Seq<Seq<char>>)
    ensures
        sum_counts(group_counts(keys)) == keys.len(),
    decreases keys.len(),
{
    if keys.len() > 0 {
        let pre = keys.drop_last();
        let last = keys.last();
        let g0 = group_counts(pre);
        lemma_group_counts_sum(pre);
        if has_key(g0, last) {
            let i = index_of_key(g0, last);
            assert(0 <= i < g0.len() && g0[i].0 == last);
            lemma_sum_update(g0, i, (last, g0[i].1 + 1));
        } else {
            assert(g0.push((last, 1int)).drop_last() =~= g0);
        }
    }
}

/// The position in `v` of the gauge that carries `k`, if any.
fn find_icao(v: &Vec<AirportCount>, k: &String) -> (r: Option<usize>)
    ensures
        (match r {
            Some(i) => i < v@.len() && v@[i as int].icao@ == k@,
            None => forall|m: int| 0 <= m < v@.len() ==> v@[m].icao@ != k@,
        }),
{
    let mut i: usize = 0;
    while i < v.len()
        invariant
            i <= v@.len(),
            forall|m: int| 0 <= m < i ==> v@[m].icao@ != k@,
        decreases v@.len() - i,
    {
        if v[i].icao == *k {
            return Some(i);
        }
        i = i + 1;
    }
    None
}

/// Groups a sequence of airport codes: one gauge per distinct code, in order
/// of first occurrence, counting that code's occurrences.
pub fn count_keys(keys: &Vec<String>) -> (r: Vec<AirportCount>)
    ensures
        counts_abs(r@) == group_counts(keys_abs(keys@)),
{
    let ghost all: Seq<Seq<char>> = keys_abs(keys@);
    let mut out: Vec<AirportCount> = Vec::new();
    let mut idx: usize = 0;
    proof {
        assert(counts_abs(out@) =~= group_counts(all.take(0)));
    }
    while idx < keys.len()
        invariant
            idx <= keys@.len(),
            all == keys_abs(keys@),
            counts_abs(out@) == group_counts(all.take(idx as int)),
        decreases keys@.len() - idx,
    {
        let k = &keys[idx];
        let ghost sofar = all.take(idx as int);
        let ghost g0 = group_counts(sofar);
        proof {
            assert(all.take(idx + 1).drop_last() =~= sofar);
            assert(all.take(idx + 1).last() == keys@[idx as int]@);
            assert(group_counts(all.take(idx + 1)) == bump_key(g0, k@));
            lemma_group_counts_distinct(sofar);
            lemma_group_counts_correct(sofar);
        }
        match find_icao(&out, k) {
            Some(pos) => {
                proof {
                    assert(counts_abs(out@)[pos as int].0 == k@);
                    assert(has_key(g0, k@));
                    let i = index_of_key(g0, k@);
                    assert(0 <= i < g0.len() && g0[i].0 == k@);
                    assert(i == pos as int);
                    assert(g0[pos as int].1 == key_count(sofar, k@));
                    lemma_key_count_nonneg(sofar, k@);
                }
                let icao = out[pos].icao.clone();
                let count = out[pos].count;
                out.set(pos, AirportCount { icao, count: count + 1 });
                proof {
                    assert(counts_abs(out@) =~= bump_key(g0, k@));
                }
            },
            None => {
                out.push(AirportCount { icao: k.clone(), count: 1 });
                proof {
                    assert(forall|m: int|
                        0 <= m < g0.len() ==> (#[trigger] g0[m]).0 != k@);
                    assert(!has_key(g0, k@));
                    assert(counts_abs(out@) =~= bump_key(g0, k@));
                }
            },
        }
        idx = idx + 1;
    }
    proof {
        assert(all.take(keys@.len() as int) =~= all);
    }
    out
}

/// The airport code a flight plan contributes to one aggregation side.
pub open spec fn plan_field(fp: FlightPlan, departure: bool) -> Seq<char> {
    if departure {
        fp.departure@
    } else {
        fp.arrival@
    }
}

/// The non-empty airport codes of the pilots' flight plans, in pilot order.
/// A pilot without a plan, or whose plan leaves the side empty, contributes
/// nothing.
pub open spec fn pilot_plan_keys(pilots: Seq<Pilot>, departure: bool) -> Seq<Seq<char>>
    decreases pilots.len(),
{
    if pilots.len() == 0 {
        Seq::empty()
    } else {
        let rest = pilot_plan_keys(pilots.drop_last(), departure);
        match pilots.last().flight_plan {
            Some(fp) => if plan_field(fp, departure).len() > 0 {
                rest.push(plan_field(fp, departure))
            } else {
                rest
            },
            None => rest,
        }
    }
}

/// The non-empty airport codes of the prefiled plans, in prefile order.
pub open spec fn prefile_plan_keys(prefiles: Seq<Prefile>, departure: bool) -> Seq<Seq<char>>
    decreases prefiles.len(),
{
    if prefiles.len() == 0 {
        Seq::empty()
    } else {
        let rest = prefile_plan_keys(prefiles.drop_last(), departure);
        if plan_field(prefiles.last().flight_plan, departure).len() > 0 {
            rest.push(plan_field(prefiles.last().flight_plan, departure))
        } else {
            rest
        }
    }
}

/// Collects the non-empty airport codes of the pilots' flight plans.
pub fn pilot_keys(pilots: &Vec<Pilot>, departure: bool) -> (r: Vec<String>)
    ensures
        keys_abs(r@) == pilot_plan_keys(pilots@, departure),
{
    let mut out: Vec<String> = Vec::new();
    let mut i: usize = 0;
    proof {
        assert(keys_abs(out@) =~= pilot_plan_keys(pilots@.take(0), departure));
    }
    while i < pilots.len()
        invariant
            i <= pilots@.len(),
            keys_abs(out@) == pilot_plan_keys(pilots@.take(i as int), departure),
        decreases pilots@.len() - i,
    {
        proof {
            assert(pilots@.take(i + 1).drop_last() =~= pilots@.take(i as int));
            assert(pilots@.take(i + 1).last() == pilots@[i as int]);
        }
        match &pilots[i].flight_plan {
            Some(fp) => {
                let field = if departure {
                    &fp.departure
                } else {
                    &fp.arrival
                };
                if !field.as_str().is_empty() {
                    out.push(field.clone());
                    proof {
                        assert(keys_abs(out@) =~= pilot_plan_keys(pilots@.take(i + 1), departure));
                    }
                }
            },
            None => {},
        }
        i = i + 1;
    }
    proof {
        assert(pilots@.take(pilots@.len() as int) =~= pilots@);
    }
    out
}

/// Collects the non-empty airport codes of the prefiled plans.
pub fn prefile_keys(prefiles: &Vec<Prefile>, departure: bool) -> (r: Vec<String>)
    ensures
        keys_abs(r@) == prefile_plan_keys(prefiles@, departure),
{
    let mut out: Vec<String> = Vec::new();
    let mut i: usize = 0;
    proof {
        assert(keys_abs(out@) =~= prefile_plan_keys(prefiles@.take(0), departure));
    }
    while i < prefiles.len()
        invariant
            i <= prefiles@.len(),
            keys_abs(out@) == prefile_plan_keys(prefiles@.take(i as int), departure),
        decreases prefiles@.len() - i,
    {
        proof {
            assert(prefiles@.take(i + 1).drop_last() =~= prefiles@.take(i as int));
            assert(prefiles@.take(i + 1).last() == prefiles@[i as int]);
        }
        let fp = &prefiles[i].flight_plan;
        let field = if departure {
            &fp.departure
        } else {
            &fp.arrival
        };
        if !field.as_str().is_empty() {
            out.push(field.clone());
            proof {
                assert(keys_abs(out@) =~= prefile_plan_keys(prefiles@.take(i + 1), departure));
            }
        }
        i = i + 1;
    }
    proof {
        assert(prefiles@.take(prefiles@.len() as int) =~= prefiles@);
    }
    out
}

/// The short label of the first facility whose id matches, or the sentinel
/// `UNKNOWN` where the foreign key has no matching row: a lookup miss is a
/// data-quality event, never a dropped refresh cycle.
pub open spec fn facility_short(facilities: Seq<Facility>, id: u8) -> Seq<char>
    decreases facilities.len(),
{
    if facilities.len() == 0 {
        "UNKNOWN"@
    } else if facilities.first().id == id {
        facilities.first().short@
    } else {
        facility_short(facilities.drop_first(), id)
    }
}

/// Resolves a controller's facility id against the facility table, with the
/// sentinel label on a miss.
pub fn find_facility_short(facilities: &Vec<Facility>, id: u8) -> (r: String)
    ensures
        r@ == facility_short(facilities@, id),
{
    let mut i: usize = 0;
    proof {
        assert(facilities@.skip(0) =~= facilities@);
    }
    while i < facilities.len()
        invariant
            i <= facilities@.len(),
            facility_short(facilities@, id) == facility_short(facilities@.skip(i as int), id),
            forall|m: int| 0 <= m < i ==> facilities@[m].id != id,
        decreases facilities@.len() - i,
    {
        proof {
            assert(facilities@.skip(i as int).first() == facilities@[i as int]);
            assert(facilities@.skip(i as int).drop_first() =~= facilities@.skip(i + 1));
        }
        if facilities[i].id == id {
            return facilities[i].short.clone();
        }
        i = i + 1;
    }
    proof {
        assert(facilities@.skip(facilities@.len() as int) =~= Seq::<Facility>::empty());
    }
    String::from_str("UNKNOWN")
}

/// The cumulative seconds a session has been online at `now`, clamped to
/// zero where the recorded logon instant lies in the future.
pub open spec fn online_seconds_spec(now: i64, logon: i64) -> int {
    if now >= logon {
        now - logon
    } else {
        0
    }
}

/// Computes a session's cumulative online seconds.
pub fn online_seconds(now: i64, logon: i64) -> (r: u64)
    ensures
        r as int == online_seconds_spec(now, logon),
{
    if now >= logon {
        ((now as i128) - (logon as i128)) as u64
    } else {
        0
    }
}

/// One controller counter sample: cumulative online seconds, labeled by
/// callsign, member id, name and resolved facility.
pub struct ControllerSample {
    pub callsign: String,
    pub cid: u32,
    pub name: String,
    pub facility: String,
    pub online_seconds: u64,
}

/// What one controller's sample must hold, given the facility table and the
/// projection instant.
pub open spec fn controller_sample_matches(
    s: ControllerSample,
    c: Controller,
    facilities: Seq<Facility>,
    now: i64,
) -> bool {
    &&& s.callsign@ == c.callsign@
    &&& s.cid == c.cid
    &&& s.name@ == c.name@
    &&& s.facility@ == facility_short(facilities, c.facility)
    &&& s.online_seconds as int == online_seconds_spec(now, c.logon_time)
}

/// Projects every controller to its counter sample. A facility lookup miss
/// yields the sentinel label, never a missing sample.
pub fn controller_samples(
    controllers: &Vec<Controller>,
    facilities: &Vec<Facility>,
    now: i64,
) -> (r: Vec<ControllerSample>)
    ensures
        r@.len() == controllers@.len(),
        forall|i: int|
            0 <= i < r@.len() ==> controller_sample_matches(
                #[trigger] r@[i],
                controllers@[i],
                facilities@,
                now,
            ),
{
    let mut out: Vec<ControllerSample> = Vec::new();
    let mut i: usize = 0;
    while i < controllers.len()
        invariant
            i <= controllers@.len(),
            out@.len() == i,
            forall|m: int|
                0 <= m < i ==> controller_sample_matches(
                    #[trigger] out@[m],
                    controllers@[m],
                    facilities@,
                    now,
                ),
        decreases controllers@.len() - i,
    {
        let c = &controllers[i];
        out.push(ControllerSample {
            callsign: c.callsign.clone(),
            cid: c.cid,
            name: c.name.clone(),
            facility: find_facility_short(facilities, c.facility),
            online_seconds: online_seconds(now, c.logon_time),
        });
        i = i + 1;
    }
    out
}

/// One pilot's row of instantaneous gauges, labeled by callsign, member id
/// and name. Coordinates stay the raw IEEE-754 bits the snapshot carries.
pub struct PilotSample {
    pub callsign: String,
    pub cid: u32,
    pub name: String,
    pub groundspeed: i32,
    pub altitude: i32,
    pub heading: u16,
    pub latitude_bits: u64,
    pub longitude_bits: u64,
}

/// What one pilot's gauge row must hold.
pub open spec fn pilot_sample_matches(s: PilotSample, p: Pilot) -> bool {
    &&& s.callsign@ == p.callsign@
    &&& s.cid == p.cid
    &&& s.name@ == p.name@
    &&& s.groundspeed == p.groundspeed
    &&& s.altitude == p.altitude
    &&& s.heading == p.heading
    &&& s.latitude_bits == p.latitude_bits
    &&& s.longitude_bits == p.longitude_bits
}

/// Projects every pilot to its gauge row.
pub fn pilot_samples(pilots: &Vec<Pilot>) -> (r: Vec<PilotSample>)
    ensures
        r@.len() == pilots@.len(),
        forall|i: int| 0 <= i < r@.len() ==> pilot_sample_matches(#[trigger] r@[i], pilots@[i]),
{
    let mut out: Vec<PilotSample> = Vec::new();
    let mut i: usize = 0;
    while i < pilots.len()
        invariant
            i <= pilots@.len(),
            out@.len() == i,
            forall|m: int| 0 <= m < i ==> pilot_sample_matches(#[trigger] out@[m], pilots@[m]),
        decreases pilots@.len() - i,
    {
        let p = &pilots[i];
        out.push(PilotSample {
            callsign: p.callsign.clone(),
            cid: p.cid,
            name: p.name.clone(),
            groundspeed: p.groundspeed,
            altitude: p.altitude,
            heading: p.heading,
            latitude_bits: p.latitude_bits,
            longitude_bits: p.longitude_bits,
        });
        i = i + 1;
    }
    out
}

/// Everything one refresh writes into the metric registry, as plain values.
/// Writing it is an idempotent overwrite per label set: each value fully
/// replaces the previous one, it does not increment it.
pub struct MetricsUpdate {
    pub arrivals_online: Vec<AirportCount>,
    pub arrivals_prefiled: Vec<AirportCount>,
    pub departures_online: Vec<AirportCount>,
    pub departures_prefiled: Vec<AirportCount>,
    pub controllers: Vec<ControllerSample>,
    pub pilots: Vec<PilotSample>,
}

/// The full contract of the projection: every section of the update is
/// determined by the snapshot and the projection instant.
pub open spec fn metrics_update_matches(u: MetricsUpdate, s: VatsimStatus, now: i64) -> bool {
    &&& counts_abs(u.arrivals_online@) == group_counts(pilot_plan_keys(s.pilots@, false))
    &&& counts_abs(u.departures_online@) == group_counts(pilot_plan_keys(s.pilots@, true))
    &&& counts_abs(u.arrivals_prefiled@) == group_counts(prefile_plan_keys(s.prefiles@, false))
    &&& counts_abs(u.departures_prefiled@) == group_counts(
        prefile_plan_keys(s.prefiles@, true),
    )
    &&& u.controllers@.len() == s.controllers@.len()
    &&& (forall|i: int|
        0 <= i < u.controllers@.len() ==> controller_sample_matches(
            #[trigger] u.controllers@[i],
            s.controllers@[i],
            s.facilities@,
            now,
        ))
    &&& u.pilots@.len() == s.pilots@.len()
    &&& (forall|i: int|
        0 <= i < u.pilots@.len() ==> pilot_sample_matches(#[trigger] u.pilots@[i], s.pilots@[i]))
}

/// Law (per-airport correctness): a gauge list grouped from a code sequence
/// names each airport at most once, carries exactly the airports that occur,
/// and gauges each at the number of flight plans naming it. Through
/// `metrics_update_matches` this holds of every section of a projected
/// update against its key sequence.
pub proof fn lemma_gauges_count_occurrences(v: Seq<AirportCount>, keys: Seq<Seq<char>>)
    requires
        counts_abs(v) == group_counts(keys),
    ensures
        distinct_keys(counts_abs(v)),
        forall|i: int|
            0 <= i < v.len() ==> (#[trigger] v[i]).count as int == key_count(keys, v[i].icao@),
        forall|k: Seq<char>| #[trigger] has_key(counts_abs(v), k) <==> key_count(keys, k) > 0,
{
    lemma_group_counts_distinct(keys);
    lemma_group_counts_correct(keys);
    assert forall|i: int| 0 <= i < v.len() implies (#[trigger] v[i]).count as int == key_count(
        keys,
        v[i].icao@,
    ) by {
        assert(counts_abs(v)[i] == (v[i].icao@, v[i].count as int));
        assert(group_counts(keys)[i].1 == key_count(keys, group_counts(keys)[i].0));
    }
}

/// Law (conservation per metric): for any projected update, the online
/// arrival gauges sum to the number of pilots whose flight plan names a
/// non-empty arrival airport, and likewise for departures and for prefiled
/// plans — the length of the corresponding key sequence.
pub proof fn lemma_airport_gauges_sum(u: MetricsUpdate, s: VatsimStatus, now: i64)
    requires
        metrics_update_matches(u, s, now),
    ensures
        sum_counts(counts_abs(u.arrivals_online@)) == pilot_plan_keys(s.pilots@, false).len(),
        sum_counts(counts_abs(u.departures_online@)) == pilot_plan_keys(s.pilots@, true).len(),
        sum_counts(counts_abs(u.arrivals_prefiled@)) == prefile_plan_keys(
            s.prefiles@,
            false,
        ).len(),
        sum_counts(counts_abs(u.departures_prefiled@)) == prefile_plan_keys(
            s.prefiles@,
            true,
        ).len(),
{
    lemma_group_counts_sum(pilot_plan_keys(s.pilots@, false));
    lemma_group_counts_sum(pilot_plan_keys(s.pilots@, true));
    lemma_group_counts_sum(prefile_plan_keys(s.prefiles@, false));
    lemma_group_counts_sum(prefile_plan_keys(s.prefiles@, true));
}

/// Law (empty snapshot): a snapshot with no pilots and no prefiles projects
/// to an update with no airport gauges at all.
pub proof fn lemma_empty_snapshot_no_airport_gauges(u: MetricsUpdate, s: VatsimStatus, now: i64)
    requires
        metrics_update_matches(u, s, now),
        s.pilots@.len() == 0,
        s.prefiles@.len() == 0,
    ensures
        u.arrivals_online@.len() == 0,
        u.arrivals_prefiled@.len() == 0,
        u.departures_online@.len() == 0,
        u.departures_prefiled@.len() == 0,
{
    assert(counts_abs(u.arrivals_online@).len() == u.arrivals_online@.len());
    assert(counts_abs(u.arrivals_prefiled@).len() == u.arrivals_prefiled@.len());
    assert(counts_abs(u.departures_online@).len() == u.departures_online@.len());
    assert(counts_abs(u.departures_prefiled@).len() == u.departures_prefiled@.len());
}

/// The metrics projector: turns one snapshot into the deterministic set of
/// metric samples for the registry, at projection instant `now`.
pub fn project(s: &VatsimStatus, now: i64) -> (u: MetricsUpdate)
    ensures
        metrics_update_matches(u, *s, now),
{
    MetricsUpdate {
        arrivals_online: count_keys(&pilot_keys(&s.pilots, false)),
        arrivals_prefiled: count_keys(&prefile_keys(&s.prefiles, false)),
        departures_online: count_keys(&pilot_keys(&s.pilots, true)),
        departures_prefiled: count_keys(&prefile_keys(&s.prefiles, true)),
        controllers: controller_samples(&s.controllers, &s.facilities, now),
        pilots: pilot_samples(&s.pilots),
    }
}

} // verus!
