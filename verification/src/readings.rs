//! What the server reports of a user's readings: the lists of each field, and whether the
//! boiler was on more often than off.
use vstd::prelude::*;
use crate::models::{Frame, SensorDatas};
use crate::sql_actions::{frames_of, get_frames, Database};

verus! {

/// `s` lists the fields of the readings `fs`, field by field, in the same order.
pub open spec fn lists_fields_of(s: SensorDatas, fs: Seq<Frame>) -> bool {
    &&& s.datetimes@ == fs.map_values(|f: Frame| f.datetime)
    &&& s.temps@ == fs.map_values(|f: Frame| f.temp)
    &&& s.ppms@ == fs.map_values(|f: Frame| f.ppm)
    &&& s.lights@ == fs.map_values(|f: Frame| f.light)
    &&& s.boilers@ == fs.map_values(|f: Frame| f.boiler)
}

/// How many of the readings have the boiler on.
pub open spec fn count_boiler_on(fs: Seq<Frame>) -> nat
    decreases fs.len(),
{
    if fs.len() == 0 {
        0
    } else {
        count_boiler_on(fs.drop_last()) + if fs.last().boiler {
            1nat
        } else {
            0nat
        }
    }
}

/// The number of readings with the boiler on is the length of those readings.
pub proof fn lemma_count_is_filter_len(fs: Seq<Frame>)
    ensures
        count_boiler_on(fs) == fs.filter(|g: Frame| g.boiler).len(),
    decreases fs.len(),
{
    reveal(Seq::filter);
    if fs.len() > 0 {
        lemma_count_is_filter_len(fs.drop_last());
    }
}

/// The readings of the user `uid`, field by field; `None` when it has none (an unknown
/// user has none).
pub fn get_list_data(db: &Database, uid: &String) -> (r: Option<SensorDatas>)
    ensures
        match r {
            None => frames_of(db@.frames, uid@).len() == 0,
            Some(s) => frames_of(db@.frames, uid@).len() > 0 && lists_fields_of(
                s,
                frames_of(db@.frames, uid@),
            ),
        },
        r matches Some(s) ==> {
            let fs = frames_of(db@.frames, uid@);
            &&& s.datetimes@.len() == fs.len() && s.temps@.len() == fs.len()
            &&& s.ppms@.len() == fs.len() && s.lights@.len() == fs.len()
            &&& s.boilers@.len() == fs.len()
            &&& forall|j: int| 0 <= j < fs.len() ==> #[trigger] s.datetimes@[j] == fs[j].datetime
            &&& forall|j: int| 0 <= j < fs.len() ==> #[trigger] s.temps@[j] == fs[j].temp
            &&& forall|j: int| 0 <= j < fs.len() ==> #[trigger] s.ppms@[j] == fs[j].ppm
            &&& forall|j: int| 0 <= j < fs.len() ==> #[trigger] s.lights@[j] == fs[j].light
            &&& forall|j: int| 0 <= j < fs.len() ==> #[trigger] s.boilers@[j] == fs[j].boiler
        },
{
    let datas = get_frames(&db.frames, uid);
    if datas.len() == 0 {
        return None;
    }
    let mut datetimes: Vec<String> = Vec::new();
    let mut temps: Vec<u32> = Vec::new();
    let mut ppms: Vec<u32> = Vec::new();
    let mut lights: Vec<u32> = Vec::new();
    let mut boilers: Vec<bool> = Vec::new();
    let mut i: usize = 0;
    while i < datas.len()
        invariant
            i <= datas@.len(),
            datetimes@.len() == i,
            temps@.len() == i,
            ppms@.len() == i,
            lights@.len() == i,
            boilers@.len() == i,
            forall|j: int| 0 <= j < i ==> #[trigger] datetimes@[j] == datas@[j].datetime,
            forall|j: int| 0 <= j < i ==> #[trigger] temps@[j] == datas@[j].temp,
            forall|j: int| 0 <= j < i ==> #[trigger] ppms@[j] == datas@[j].ppm,
            forall|j: int| 0 <= j < i ==> #[trigger] lights@[j] == datas@[j].light,
            forall|j: int| 0 <= j < i ==> #[trigger] boilers@[j] == datas@[j].boiler,
        decreases datas@.len() - i,
    {
        let f = &datas[i];
        datetimes.push(f.datetime.clone());
        temps.push(f.temp);
        ppms.push(f.ppm);
        lights.push(f.light);
        boilers.push(f.boiler);
        i = i + 1;
    }
    let sensor_datas = SensorDatas { datetimes, temps, ppms, lights, boilers };
    assert(lists_fields_of(sensor_datas, datas@)) by {
        assert(sensor_datas.datetimes@ =~= datas@.map_values(|f: Frame| f.datetime));
        assert(sensor_datas.temps@ =~= datas@.map_values(|f: Frame| f.temp));
        assert(sensor_datas.ppms@ =~= datas@.map_values(|f: Frame| f.ppm));
        assert(sensor_datas.lights@ =~= datas@.map_values(|f: Frame| f.light));
        assert(sensor_datas.boilers@ =~= datas@.map_values(|f: Frame| f.boiler));
    }
    Some(sensor_datas)
}

/// Whether the boiler was on in at least half of the readings; `false` when there are
/// none.
pub fn average_boiler(frames: &Vec<Frame>) -> (r: bool)
    ensures
        r == (frames@.len() > 0 && 2 * count_boiler_on(frames@) >= frames@.len()),
        r == (frames@.len() > 0 && 2 * frames@.filter(|f: Frame| f.boiler).len()
            >= frames@.len()),
{
    let mut boiler_bool_count: usize = 0;
    let mut i: usize = 0;
    while i < frames.len()
        invariant
            i <= frames@.len(),
            boiler_bool_count == count_boiler_on(frames@.take(i as int)),
            boiler_bool_count <= i,
        decreases frames@.len() - i,
    {
        assert(frames@.take(i + 1).drop_last() =~= frames@.take(i as int));
        if frames[i].boiler {
            boiler_bool_count = boiler_bool_count + 1;
        }
        i = i + 1;
    }
    assert(frames@.take(frames@.len() as int) =~= frames@);
    proof {
        lemma_count_is_filter_len(frames@);
    }
    frames.len() > 0 && boiler_bool_count >= frames.len() - boiler_bool_count
}

} // verus!
