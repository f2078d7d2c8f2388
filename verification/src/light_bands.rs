//! Light bands: values of a map's light settings (colors, fog distances, …) over the time of day.
use vstd::prelude::*;

verus! {

/// A value of a light band at a time of day (in half minutes).
#[derive(Debug, Clone, Copy)]
pub struct LightBandTuple<T> {
    pub time: i32,
    pub data: T,
}

/// A light band: its values over the day.
#[derive(Debug, Clone)]
pub struct LightBandEntry<T> {
    pub data: Vec<LightBandTuple<T>>,
}

/// A row of a light band table (integer or float bands): the number of values and the
/// columns of times and values.
#[derive(Debug, Clone, Copy)]
pub struct LightBandRow<T> {
    pub num: i32,
    pub time: [i32; 16],
    pub data: [T; 16],
}

/// The first value of a band at the given time.
pub open spec fn tuple_for_time<T>(data: Seq<LightBandTuple<T>>, time: i32) -> Option<
    LightBandTuple<T>,
>
    decreases data.len(),
{
    if data.len() == 0 {
        None
    } else if data[0].time == time {
        Some(data[0])
    } else {
        tuple_for_time(data.drop_first(), time)
    }
}

/// The number of values that a row holds: its count, at most the 16 columns (a negative count,
/// read as a huge unsigned number, keeps all columns).
pub open spec fn row_len(num: i32) -> int {
    if num < 0 || num >= 16 {
        16
    } else {
        num as int
    }
}

/// The band of a row: the first `row_len(num)` pairs of time and value.
pub open spec fn band_of<T>(row: LightBandRow<T>) -> Seq<LightBandTuple<T>> {
    Seq::new(
        row_len(row.num) as nat,
        |k: int| LightBandTuple { time: row.time[k], data: row.data[k] },
    )
}

impl<T> LightBandEntry<T> {
    /// The first value of the band at the given time.
    pub fn get_value_for_time(&self, time: i32) -> (r: Option<&T>)
        ensures
            r is Some <==> tuple_for_time(self.data@, time) is Some,
            r matches Some(v) ==> *v == tuple_for_time(self.data@, time)->0.data,
    {
        match self.get_tuple_for_time(time) {
            Some(band) => Some(&band.data),
            None => None,
        }
    }

    /// The first pair of the band at the given time.
    pub fn get_tuple_for_time(&self, time: i32) -> (r: Option<&LightBandTuple<T>>)
        ensures
            r is Some <==> tuple_for_time(self.data@, time) is Some,
            r matches Some(t) ==> *t == tuple_for_time(self.data@, time)->0,
    {
        let n = self.data.len();
        let mut i: usize = 0;
        assert(self.data@.skip(0) =~= self.data@);
        while i < n
            invariant
                n == self.data@.len(),
                i <= n,
                tuple_for_time(self.data@, time) == tuple_for_time(self.data@.skip(i as int), time),
            decreases n - i,
        {
            assert(self.data@.skip(i as int).drop_first() =~= self.data@.skip(i + 1));
            if self.data[i].time == time {
                return Some(&self.data[i]);
            }
            i += 1;
        }
        None
    }
}

impl<T: Copy> LightBandEntry<T> {
    /// The band of a row of a light band table.
    pub fn new(row: &LightBandRow<T>) -> (r: Self)
        ensures
            r.data@ == band_of(*row),
    {
        let count: usize = if row.num < 0 || row.num >= 16 {
            16
        } else {
            row.num as usize
        };
        let mut data: Vec<LightBandTuple<T>> = Vec::new();
        let mut k: usize = 0;
        while k < count
            invariant
                count as int == row_len(row.num),
                k <= count,
                data@ =~= band_of(*row).subrange(0, k as int),
            decreases count - k,
        {
            data.push(LightBandTuple { time: row.time[k], data: row.data[k] });
            k += 1;
        }
        LightBandEntry { data }
    }
}

/// The rows of the bands of a light parameter set: `per_id` bands per set, read from the rows
/// `id * per_id - per_id + 1` to `id * per_id` of the table.
pub open spec fn band_rows<T>(rows: Seq<LightBandRow<T>>, id: int, per_id: int) -> Seq<
    LightBandRow<T>,
> {
    rows.subrange(id * per_id - per_id + 1, id * per_id + 1)
}

/// The bands of the light parameter set `id`, `per_id` of them (18 integer bands, 6 float
/// bands per set). The set must be at least 1 and its rows must be in the table.
pub fn bands_for_params<T: Copy>(rows: &Vec<LightBandRow<T>>, id: usize, per_id: usize) -> (r: Vec<
    LightBandEntry<T>,
>)
    requires
        1 <= id,
        1 <= per_id,
        id * per_id + 1 <= rows@.len(),
    ensures
        r@.len() == per_id,
        forall|k: int|
            0 <= k < per_id ==> #[trigger] r@[k].data@ == band_of(
                band_rows(rows@, id as int, per_id as int)[k],
            ),
{
    proof {
        assert(id * per_id >= per_id) by (nonlinear_arith)
            requires
                1 <= id,
                1 <= per_id,
        ;
    }
    let len = rows.len();
    assert(id * per_id < len);
    let start = id * per_id - per_id + 1;
    let mut r: Vec<LightBandEntry<T>> = Vec::new();
    let mut k: usize = 0;
    while k < per_id
        invariant
            start == id * per_id - per_id + 1,
            len == rows@.len(),
            start + per_id == id * per_id + 1,
            id * per_id + 1 <= rows@.len(),
            k <= per_id,
            r@.len() == k,
            forall|j: int|
                0 <= j < k ==> #[trigger] r@[j].data@ == band_of(
                    band_rows(rows@, id as int, per_id as int)[j],
                ),
        decreases per_id - k,
    {
        r.push(LightBandEntry::new(&rows[start + k]));
        k += 1;
    }
    r
}

/// The indices of the lights of a map: those whose continent is the map.
pub fn light_indices_for_map(continent_ids: &Vec<i32>, map_id: i32) -> (r: Vec<usize>)
    ensures
        forall|j: int| 0 <= j < r@.len() ==> #[trigger] r@[j] < continent_ids@.len()
            && continent_ids@[r@[j] as int] == map_id,
        forall|i: int|
            0 <= i < continent_ids@.len() && continent_ids@[i] == map_id ==> r@.contains(
                i as usize,
            ),
        forall|a: int, b: int| 0 <= a < b < r@.len() ==> r@[a] < r@[b],
{
    let n = continent_ids.len();
    let mut r: Vec<usize> = Vec::new();
    let mut i: usize = 0;
    while i < n
        invariant
            n == continent_ids@.len(),
            i <= n,
            forall|j: int| 0 <= j < r@.len() ==> #[trigger] r@[j] < i && continent_ids@[r@[j] as int]
                == map_id,
            forall|m: int| 0 <= m < i && continent_ids@[m] == map_id ==> r@.contains(m as usize),
            forall|a: int, b: int| 0 <= a < b < r@.len() ==> r@[a] < r@[b],
        decreases n - i,
    {
        let ghost before = r@;
        if continent_ids[i] == map_id {
            r.push(i);
            assert(r@[r@.len() - 1] == i);
        }
        assert forall|m: int|
            0 <= m < i + 1 && continent_ids@[m] == map_id implies r@.contains(m as usize) by {
            if m < i {
                let j = choose|j: int| 0 <= j < before.len() && before[j] == m as usize;
                assert(r@[j] == m as usize);
            } else {
                assert(r@[r@.len() - 1] == m as usize);
            }
        }
        i += 1;
    }
    r
}

} // verus!
