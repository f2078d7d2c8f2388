//! The zone music that is currently selected: which sound file plays next and how long the
//! silence after it lasts.
use crate::tables::{find_row, lookup, Keyed};
use rand::Rng;
use std::collections::HashMap;
use vstd::prelude::*;

verus! {

broadcast use vstd::std_specs::hash::group_hash_axioms;

/// A row of the sound entries table, with the fields that the zone music reads.
/// `volume_bits` carries the bits of the row's `f32` volume through unchanged.
pub struct SoundEntry {
    pub id: i32,
    pub directory_base: String,
    pub file: [String; 10],
    pub freq: [i32; 10],
    pub volume_bits: u32,
}

/// A row of the zone music table.
#[derive(Debug, Clone, Copy)]
pub struct ZoneMusicInfo {
    pub id: i32,
    pub silence_interval_min: [i32; 2],
    pub silence_interval_max: [i32; 2],
    pub sounds: [i32; 2],
}

/// A row of the zone intro music table.
#[derive(Debug, Clone, Copy, PartialEq, Eq, Structural)]
pub struct ZoneIntroMusic {
    pub id: i32,
    pub sound_id: i32,
    pub min_delay_minutes: i32,
}

/// A row of the area table, with the fields that the zone music reads.
#[derive(Debug, Clone, Copy, PartialEq, Eq, Structural)]
pub struct AreaInfo {
    pub id: i32,
    pub zone_music: i32,
    pub intro_sound: i32,
}

impl Keyed for SoundEntry {
    open spec fn key_spec(&self) -> i32 {
        self.id
    }

    fn key(&self) -> (k: i32) {
        self.id
    }
}

impl Keyed for ZoneMusicInfo {
    open spec fn key_spec(&self) -> i32 {
        self.id
    }

    fn key(&self) -> (k: i32) {
        self.id
    }
}

impl Keyed for ZoneIntroMusic {
    open spec fn key_spec(&self) -> i32 {
        self.id
    }

    fn key(&self) -> (k: i32) {
        self.id
    }
}

impl Keyed for AreaInfo {
    open spec fn key_spec(&self) -> i32 {
        self.id
    }

    fn key(&self) -> (k: i32) {
        self.id
    }
}

impl SoundEntry {
    /// A copy of the entry.
    pub fn duplicate(&self) -> (r: SoundEntry)
        ensures
            r == *self,
    {
        let file = [
            self.file[0].clone(),
            self.file[1].clone(),
            self.file[2].clone(),
            self.file[3].clone(),
            self.file[4].clone(),
            self.file[5].clone(),
            self.file[6].clone(),
            self.file[7].clone(),
            self.file[8].clone(),
            self.file[9].clone(),
        ];
        assert(file =~= self.file);
        SoundEntry {
            id: self.id,
            directory_base: self.directory_base.clone(),
            file,
            freq: self.freq,
            volume_bits: self.volume_bits,
        }
    }
}

/// `p` is the position of the first empty file name (`files.len()` if there is none).
pub open spec fn is_first_empty(files: Seq<String>, p: int) -> bool {
    &&& 0 <= p <= files.len()
    &&& forall|k: int| 0 <= k < p ==> files[k]@.len() > 0
    &&& p < files.len() ==> files[p]@.len() == 0
}

/// The highest index of a file of the entry: the files before the first empty name count.
pub open spec fn highest_file_index(entry: SoundEntry) -> int {
    (choose|p: int| is_first_empty(entry.file@, p)) - 1
}

/// The sum of the frequencies of the first `n` slices, each read as a `u32`.
pub open spec fn freq_sum(freq: Seq<i32>, n: int) -> int
    decreases n,
{
    if n <= 0 {
        0
    } else {
        freq_sum(freq, n - 1) + (freq[n - 1] as u32) as int
    }
}

/// The sum of the frequencies of the slices that can be played.
pub open spec fn total_freq(entry: SoundEntry) -> int {
    freq_sum(entry.freq@, highest_file_index(entry) + 1)
}

/// An entry that a slice can be picked from: its first file name is not empty, and the
/// frequencies of its files sum to a positive `u32`.
pub open spec fn playable(entry: SoundEntry) -> bool {
    &&& entry.file@[0]@.len() > 0
    &&& 0 < total_freq(entry) <= u32::MAX
}

/// `slice` is the slice that the roll `roll` picks: the first slice whose cumulative frequency
/// exceeds the roll.
pub open spec fn slice_for_roll(entry: SoundEntry, roll: int, slice: int) -> bool {
    &&& 0 <= slice <= highest_file_index(entry)
    &&& roll < freq_sum(entry.freq@, slice + 1)
    &&& forall|k: int| 1 <= k <= slice ==> roll >= #[trigger] freq_sum(entry.freq@, k)
}

proof fn lemma_first_empty_unique(files: Seq<String>, p: int, q: int)
    requires
        is_first_empty(files, p),
        is_first_empty(files, q),
    ensures
        p == q,
{
    if p < q {
        assert(files[p]@.len() > 0);
    } else if q < p {
        assert(files[q]@.len() > 0);
    }
}

proof fn lemma_freq_sum_monotonic(freq: Seq<i32>, a: int, b: int)
    requires
        a <= b,
    ensures
        freq_sum(freq, a) <= freq_sum(freq, b),
    decreases b - a,
{
    if a < b {
        lemma_freq_sum_monotonic(freq, a, b - 1);
    }
}

proof fn lemma_freq_sum_bound(freq: Seq<i32>, n: int)
    requires
        0 <= n,
    ensures
        0 <= freq_sum(freq, n) <= n * 0xffff_ffff,
    decreases n,
{
    if n > 0 {
        lemma_freq_sum_bound(freq, n - 1);
    }
}

/// A random number in `low..=high`, from `rand::Rng::random_range` on the thread-local
/// generator `rand::rng()`. It panics on an empty range, so `requires` rules that out; of the
/// result only the range is known.
#[verifier::external_body]
fn random_in_range(low: i64, high: i64) -> (r: i64)
    requires
        low <= high,
    ensures
        low <= r <= high,
{
    rand::rng().random_range(low..=high)
}

/// The zone music selected for the current area: an optional intro and the zone's sound.
pub struct CurrentZoneMusic {
    intro_opt: Option<ZoneIntroMusic>,
    intro_sound_entry: Option<SoundEntry>,
    is_still_playing_intro: bool,
    zone_music: ZoneMusicInfo,
    zone_sound_entry: SoundEntry,
}

impl CurrentZoneMusic {
    pub closed spec fn intro(&self) -> Option<ZoneIntroMusic> {
        self.intro_opt
    }

    pub closed spec fn intro_entry(&self) -> Option<SoundEntry> {
        self.intro_sound_entry
    }

    pub closed spec fn playing_intro(&self) -> bool {
        self.is_still_playing_intro
    }

    pub closed spec fn music(&self) -> ZoneMusicInfo {
        self.zone_music
    }

    pub closed spec fn zone_entry(&self) -> SoundEntry {
        self.zone_sound_entry
    }

    /// The sound entry that plays now: the intro's while it is still playing (and known),
    /// else the zone's.
    pub open spec fn current(&self) -> SoundEntry {
        if self.playing_intro() && self.intro_entry() is Some {
            self.intro_entry()->0
        } else {
            self.zone_entry()
        }
    }

    /// Whether the cooldown comes from the intro (a fixed delay) rather than from the zone
    /// music's silence interval.
    pub open spec fn intro_cooldown(&self) -> bool {
        self.playing_intro() && self.intro() is Some
    }

    /// The music can be played: the current entry is playable, and where the cooldown is drawn
    /// from the silence interval, the interval is not empty.
    pub open spec fn ready(&self) -> bool {
        &&& playable(self.current())
        &&& !self.intro_cooldown() ==> self.music().silence_interval_min[0]
            <= self.music().silence_interval_max[0]
    }

    pub fn new(
        intro_opt: Option<ZoneIntroMusic>,
        intro_sound_entry: Option<SoundEntry>,
        is_still_playing_intro: bool,
        zone_music: ZoneMusicInfo,
        zone_sound_entry: SoundEntry,
    ) -> (r: Self)
        ensures
            r.intro() == intro_opt,
            r.intro_entry() == intro_sound_entry,
            r.playing_intro() == is_still_playing_intro,
            r.music() == zone_music,
            r.zone_entry() == zone_sound_entry,
    {
        Self {
            intro_opt,
            intro_sound_entry,
            is_still_playing_intro,
            zone_music,
            zone_sound_entry,
        }
    }

    /// The sound entry that plays now.
    pub fn current_entry(&self) -> (r: &SoundEntry)
        ensures
            *r == self.current(),
    {
        if self.is_still_playing_intro {
            if let Some(intro) = &self.intro_sound_entry {
                intro
            } else {
                &self.zone_sound_entry
            }
        } else {
            &self.zone_sound_entry
        }
    }

    /// Whether the music can be played (see `ready`).
    pub fn is_ready(&self) -> (r: bool)
        ensures
            r == self.ready(),
    {
        let entry = self.current_entry();
        if entry.file[0].as_str().is_empty() {
            return false;
        }
        let highest_index = self.highest_index();
        let mut sum: u64 = 0;
        let mut index: usize = 0;
        while index <= highest_index as usize
            invariant
                *entry == self.current(),
                highest_index as int == highest_file_index(*entry),
                highest_index <= 9,
                index <= highest_index + 1,
                sum as int == freq_sum(entry.freq@, index as int),
            decreases highest_index + 1 - index,
        {
            proof {
                lemma_freq_sum_bound(entry.freq@, index + 1);
            }
            sum = sum + (entry.freq[index] as u32) as u64;
            index += 1;
        }
        if sum == 0 || sum > 0xffff_ffff {
            return false;
        }
        if !(self.is_still_playing_intro && self.intro_opt.is_some()) {
            if self.zone_music.silence_interval_min[0] > self.zone_music.silence_interval_max[0] {
                return false;
            }
        }
        true
    }

    /// A copy of the music.
    pub fn duplicate(&self) -> (r: Self)
        ensures
            r == *self,
    {
        let intro_sound_entry = match &self.intro_sound_entry {
            Some(entry) => Some(entry.duplicate()),
            None => None,
        };
        CurrentZoneMusic {
            intro_opt: self.intro_opt,
            intro_sound_entry,
            is_still_playing_intro: self.is_still_playing_intro,
            zone_music: self.zone_music,
            zone_sound_entry: self.zone_sound_entry.duplicate(),
        }
    }

    /// The highest index of a file of the current entry. The first file name must not be empty
    /// (the index would underflow).
    pub fn highest_index(&self) -> (r: u8)
        requires
            self.current().file@[0]@.len() > 0,
        ensures
            r as int == highest_file_index(self.current()),
            r <= 9,
    {
        let entry = self.current_entry();
        let mut i: usize = 0;
        while i < 10 && !entry.file[i].as_str().is_empty()
            invariant
                i <= 10,
                forall|k: int| 0 <= k < i ==> entry.file@[k]@.len() > 0,
            decreases 10 - i,
        {
            i += 1;
        }
        proof {
            assert(is_first_empty(entry.file@, i as int));
            let p = choose|p: int| is_first_empty(entry.file@, p);
            lemma_first_empty_unique(entry.file@, p, i as int);
            assert(i >= 1);
        }
        (i as u8) - 1
    }

    /// The slice that a roll picks: the first slice whose cumulative frequency exceeds it.
    pub fn slice_for(&self, roll: u32) -> (r: u8)
        requires
            playable(self.current()),
            (roll as int) < total_freq(self.current()),
        ensures
            slice_for_roll(self.current(), roll as int, r as int),
            r <= 9,
    {
        let highest_index = self.highest_index();
        let entry = self.current_entry();
        let ghost freq = entry.freq@;
        let mut cumulative: u32 = 0;
        let mut index: usize = 0;
        while index <= highest_index as usize
            invariant
                *entry == self.current(),
                freq == entry.freq@,
                highest_index as int == highest_file_index(*entry),
                highest_index <= 9,
                index <= highest_index + 1,
                cumulative as int == freq_sum(freq, index as int),
                (roll as int) < freq_sum(freq, highest_index + 1),
                freq_sum(freq, highest_index + 1) <= u32::MAX,
                forall|k: int| 1 <= k <= index ==> roll >= #[trigger] freq_sum(freq, k),
            decreases highest_index + 1 - index,
        {
            proof {
                lemma_freq_sum_monotonic(freq, index + 1, highest_index + 1);
            }
            cumulative = cumulative + (entry.freq[index] as u32);
            assert(cumulative as int == freq_sum(freq, index + 1));
            if roll < cumulative {
                return index as u8;
            }
            index += 1;
        }
        highest_index
    }

    /// Picks the slice to play next at random, weighted by the frequencies of the slices.
    /// The assumption is that zone intros aren't meant to be played in succession.
    pub fn pick_next_slice(&self) -> (r: u8)
        requires
            playable(self.current()),
        ensures
            exists|roll: int|
                0 <= roll < total_freq(self.current()) && slice_for_roll(
                    self.current(),
                    roll,
                    r as int,
                ),
            r <= 9,
    {
        let highest_index = self.highest_index();
        let entry = self.current_entry();
        let mut sum: u32 = 0;
        let mut index: usize = 0;
        while index <= highest_index as usize
            invariant
                highest_index as int == highest_file_index(*entry),
                highest_index <= 9,
                index <= highest_index + 1,
                sum as int == freq_sum(entry.freq@, index as int),
                freq_sum(entry.freq@, highest_index + 1) <= u32::MAX,
            decreases highest_index + 1 - index,
        {
            proof {
                lemma_freq_sum_monotonic(entry.freq@, index + 1, highest_index + 1);
            }
            sum = sum + (entry.freq[index] as u32);
            index += 1;
        }
        let roll = random_in_range(0, (sum as i64) - 1) as u32;
        self.slice_for(roll)
    }

    /// The path of the sound file of a slice of the current entry:
    /// `directory_base\file`.
    pub fn sound_path(&self, slice: u8) -> (path: String)
        requires
            slice < 10,
        ensures
            path@ == self.current().directory_base@ + "\\"@ + self.current().file@[slice as int]@,
    {
        let entry = self.current_entry();
        let mut path = entry.directory_base.clone();
        path.append("\\");
        path.append(entry.file[slice as usize].as_str());
        path
    }

    /// The path of the next sound to play, picked at random, and the bits of its volume.
    pub fn get_next_sound(&self) -> (r: (String, u32))
        requires
            playable(self.current()),
        ensures
            exists|roll: int, slice: int|
                0 <= roll < total_freq(self.current()) && slice_for_roll(
                    self.current(),
                    roll,
                    slice,
                ) && r.0@ == self.current().directory_base@ + "\\"@
                    + self.current().file@[slice]@,
            r.1 == self.current().volume_bits,
    {
        let next_index = self.pick_next_slice();
        let path = self.sound_path(next_index);
        (path, self.current_entry().volume_bits)
    }

    pub fn is_still_intro(&self) -> (r: bool)
        ensures
            r == self.playing_intro(),
    {
        self.is_still_playing_intro
    }

    /// Marks the intro as played: from now on, the zone's sound plays.
    pub fn finish_intro(&mut self)
        ensures
            final(self).playing_intro() == false,
            final(self).intro() == old(self).intro(),
            final(self).intro_entry() == old(self).intro_entry(),
            final(self).music() == old(self).music(),
            final(self).zone_entry() == old(self).zone_entry(),
    {
        self.is_still_playing_intro = false;
    }

    /// The cooldown (in milliseconds) that follows the sound, and the sound entry id it is kept
    /// under: while the intro plays, its fixed delay in minutes; else a random duration from the
    /// zone music's silence interval.
    pub fn get_cooldown_duration(&self) -> (r: (i64, i32))
        requires
            !self.intro_cooldown() ==> self.music().silence_interval_min[0]
                <= self.music().silence_interval_max[0],
        ensures
            self.intro_cooldown() ==> r.0 == (self.intro()->0.min_delay_minutes as int) * 60000
                && r.1 == self.intro()->0.sound_id,
            !self.intro_cooldown() ==> self.music().silence_interval_min[0] <= r.0
                <= self.music().silence_interval_max[0] && r.1 == self.zone_entry().id,
    {
        if self.is_still_playing_intro && self.intro_opt.is_some() {
            let intro = self.intro_opt.unwrap();
            ((intro.min_delay_minutes as i64) * 60000, intro.sound_id)
        } else {
            let min = self.zone_music.silence_interval_min[0] as i64;
            let max = self.zone_music.silence_interval_max[0] as i64;
            (random_in_range(min, max), self.zone_sound_entry.id)
        }
    }
}

} // verus!

verus! {

/// Whether a cooldown that lasts until `until` still runs at `now`.
fn still_resting(until: i64, now: i64) -> (r: bool)
    ensures
        r == (until > now),
{
    until > now
}

/// `HashMap::retain` of std with the predicate `still_resting(until, now)` on each cooldown:
/// as std documents, exactly the entries for which the predicate is false are removed.
#[verifier::external_body]
fn retain_resting(cooldowns: &mut HashMap<i32, i64>, now: i64)
    ensures
        final(cooldowns)@ == old(cooldowns)@.restrict(
            old(cooldowns)@.dom().filter(|k: i32| old(cooldowns)@[k] > now),
        ),
{
    cooldowns.retain(|_, until| still_resting(*until, now));
}

} // verus!

verus! {

/// A sound that the zone music wants played: the file, its volume, and the cooldown that the
/// sound entry `cooldown_key` gets once the sound has played.
pub struct PlayRequest {
    pub path: String,
    pub volume_bits: u32,
    pub cooldown_ms: i64,
    pub cooldown_key: i32,
}

/// What the sound output has to do after a step of the zone music: fade out the sound that
/// plays, and start a new one.
pub struct ZoneMusicAction {
    pub stop_current_sound: bool,
    pub play: Option<PlayRequest>,
}

/// `req` is a request that the music `music` makes: a slice of its current entry picked by some
/// roll, the entry's volume, and its cooldown.
pub open spec fn request_for(music: CurrentZoneMusic, req: PlayRequest) -> bool {
    &&& exists|roll: int, slice: int|
        0 <= roll < total_freq(music.current()) && slice_for_roll(music.current(), roll, slice)
            && req.path@ == music.current().directory_base@ + "\\"@ + music.current().file@[slice]@
    &&& req.volume_bits == music.current().volume_bits
    &&& music.intro_cooldown() ==> req.cooldown_ms == (music.intro()->0.min_delay_minutes as int)
        * 60000 && req.cooldown_key == music.intro()->0.sound_id
    &&& !music.intro_cooldown() ==> music.music().silence_interval_min[0] <= req.cooldown_ms
        <= music.music().silence_interval_max[0] && req.cooldown_key == music.zone_entry().id
}

/// A cooldown duration as the tables give them (below 2^47 milliseconds either way).
pub open spec fn cooldown_bounded(ms: int) -> bool {
    -0x8000_0000_0000 < ms < 0x8000_0000_0000
}

/// A point in time (milliseconds) far enough from the ends of `i64` to add a cooldown to.
pub open spec fn time_bounded(now: int) -> bool {
    -0x4000_0000_0000_0000 < now < 0x4000_0000_0000_0000
}

impl CurrentZoneMusic {
    /// The music with the given parts.
    pub closed spec fn from_parts(
        intro_opt: Option<ZoneIntroMusic>,
        intro_sound_entry: Option<SoundEntry>,
        is_still_playing_intro: bool,
        zone_music: ZoneMusicInfo,
        zone_sound_entry: SoundEntry,
    ) -> CurrentZoneMusic {
        CurrentZoneMusic {
            intro_opt,
            intro_sound_entry,
            is_still_playing_intro,
            zone_music,
            zone_sound_entry,
        }
    }

    /// The same music, with the intro played.
    pub open spec fn finished(self) -> CurrentZoneMusic {
        CurrentZoneMusic::from_parts(
            self.intro(),
            self.intro_entry(),
            false,
            self.music(),
            self.zone_entry(),
        )
    }
}

/// What a change of the player's terrain tile does to the zone music.
pub enum TileSelection {
    /// The music stays as it is.
    Keep,
    /// The music stops.
    Stop,
    /// The given music replaces the current one and starts.
    Start(CurrentZoneMusic),
}

/// The zone music: selects the music of the player's area, and decides when which sound of it
/// plays. The sound output itself is driven by the caller through the returned actions.
pub struct ZoneMusicManager {
    area_table: Vec<AreaInfo>,
    zone_music: Vec<ZoneMusicInfo>,
    zone_intro_music_table: Vec<ZoneIntroMusic>,
    sound_entries: Vec<SoundEntry>,
    cooldowns: HashMap<i32, i64>,
    current_zone_music: Option<CurrentZoneMusic>,
    current_sound_playing: bool,
    pending_cooldown: Option<(i32, i64)>,
    continuous_zone_music: bool,
}

impl ZoneMusicManager {
    pub closed spec fn areas(&self) -> Seq<AreaInfo> {
        self.area_table@
    }

    pub closed spec fn musics(&self) -> Seq<ZoneMusicInfo> {
        self.zone_music@
    }

    pub closed spec fn intros(&self) -> Seq<ZoneIntroMusic> {
        self.zone_intro_music_table@
    }

    pub closed spec fn entries(&self) -> Seq<SoundEntry> {
        self.sound_entries@
    }

    /// The sound entries that rest, and until when.
    pub closed spec fn cooldowns(&self) -> Map<i32, i64> {
        self.cooldowns@
    }

    pub closed spec fn current(&self) -> Option<CurrentZoneMusic> {
        self.current_zone_music
    }

    /// A sound has been started and has not been seen stopped yet.
    pub closed spec fn playing(&self) -> bool {
        self.current_sound_playing
    }

    /// The cooldown that the playing sound's entry gets when the sound ends.
    pub closed spec fn pending(&self) -> Option<(i32, i64)> {
        self.pending_cooldown
    }

    /// Music plays on without waiting for cooldowns.
    pub closed spec fn continuous(&self) -> bool {
        self.continuous_zone_music
    }

    pub closed spec fn well_formed(&self) -> bool {
        &&& self.pending_cooldown matches Some(p) ==> cooldown_bounded(p.1 as int)
    }

    /// The tables and the settings are those of `other`.
    pub open spec fn same_tables(&self, other: &Self) -> bool {
        &&& self.areas() == other.areas()
        &&& self.musics() == other.musics()
        &&& self.intros() == other.intros()
        &&& self.entries() == other.entries()
        &&& self.continuous() == other.continuous()
    }

    /// The area with the id that a terrain tile gives (ids that do not fit an `i32` are found
    /// in no table).
    pub open spec fn area_for(&self, area_id: u32) -> Option<AreaInfo> {
        if area_id <= 0x7fff_ffff {
            lookup(self.areas(), area_id as i32)
        } else {
            None
        }
    }

    /// The intro of an area and its sound entry, where both are found.
    pub open spec fn intro_for(&self, area: AreaInfo) -> Option<(ZoneIntroMusic, SoundEntry)> {
        match lookup(self.intros(), area.intro_sound) {
            Some(zim) => match lookup(self.entries(), zim.sound_id) {
                Some(entry) => Some((zim, entry)),
                None => None,
            },
            None => None,
        }
    }

    /// The music `c` is the music given by the zone music `zm` and the intro `intro`.
    pub open spec fn same_music(
        c: CurrentZoneMusic,
        zm: ZoneMusicInfo,
        intro: Option<(ZoneIntroMusic, SoundEntry)>,
    ) -> bool {
        &&& c.music().id == zm.id
        &&& match c.intro() {
            Some(i) => intro is Some && intro.unwrap().0.id == i.id,
            None => intro is None,
        }
    }

    /// The music of an area: its intro (played unless it rests) and its zone music.
    pub open spec fn music_for(
        &self,
        intro: Option<(ZoneIntroMusic, SoundEntry)>,
        zm: ZoneMusicInfo,
        zone_sound: SoundEntry,
    ) -> CurrentZoneMusic {
        CurrentZoneMusic::from_parts(
            match intro {
                Some(i) => Some(i.0),
                None => None,
            },
            match intro {
                Some(i) => Some(i.1),
                None => None,
            },
            intro is Some && !self.cooldowns().contains_key(intro.unwrap().0.sound_id),
            zm,
            zone_sound,
        )
    }

    /// What a change of the terrain tile does. `None` stands for an unloaded map. An unknown
    /// area keeps the music; an area without zone music or zone sound stops it; the music that
    /// already plays is kept; else the area's music starts.
    pub open spec fn selection(&self, tile_area: Option<u32>) -> TileSelection {
        match tile_area {
            None => TileSelection::Stop,
            Some(id) => match self.area_for(id) {
                None => TileSelection::Keep,
                Some(area) => match lookup(self.musics(), area.zone_music) {
                    None => TileSelection::Stop,
                    Some(zm) => match lookup(self.entries(), zm.sounds[0]) {
                        None => TileSelection::Stop,
                        Some(zone_sound) => {
                            let intro = self.intro_for(area);
                            if self.current() is Some && Self::same_music(
                                self.current()->0,
                                zm,
                                intro,
                            ) {
                                TileSelection::Keep
                            } else {
                                TileSelection::Start(self.music_for(intro, zm, zone_sound))
                            }
                        },
                    },
                },
            },
        }
    }

    /// The cooldowns once the playing sound has ended at `now`.
    pub open spec fn cooldowns_after_sound(&self, now: i64) -> Map<i32, i64> {
        match self.pending() {
            Some(p) => self.cooldowns().insert(p.0, (now + p.1) as i64),
            None => self.cooldowns(),
        }
    }

    /// The music may start its next sound: it plays continuously, or the entry does not rest.
    pub open spec fn may_start(&self, c: CurrentZoneMusic, cooldowns: Map<i32, i64>) -> bool {
        self.continuous() || !cooldowns.contains_key(c.current().id)
    }

    /// The music whose next sound starts in `update_running_sound`: when the playing sound has
    /// ended, the zone music after an intro, else the current music if it may start; nothing
    /// while a sound plays.
    pub open spec fn running_sound_start(&self, handle_stopped: bool, now: i64) -> Option<
        CurrentZoneMusic,
    > {
        if self.playing() && !handle_stopped {
            None
        } else if self.playing() {
            match self.current() {
                None => None,
                Some(c) => if c.playing_intro() {
                    Some(c.finished())
                } else if self.may_start(c, self.cooldowns_after_sound(now)) {
                    Some(c)
                } else {
                    None
                },
            }
        } else {
            match self.current() {
                Some(c) => if self.may_start(c, self.cooldowns()) {
                    Some(c)
                } else {
                    None
                },
                None => None,
            }
        }
    }

    pub fn new(
        area_table: Vec<AreaInfo>,
        zone_music: Vec<ZoneMusicInfo>,
        zone_intro_music_table: Vec<ZoneIntroMusic>,
        sound_entries: Vec<SoundEntry>,
        continuous_zone_music: bool,
    ) -> (m: Self)
        ensures
            m.well_formed(),
            m.areas() == area_table@,
            m.musics() == zone_music@,
            m.intros() == zone_intro_music_table@,
            m.entries() == sound_entries@,
            m.continuous() == continuous_zone_music,
            m.cooldowns() == Map::<i32, i64>::empty(),
            m.current() is None,
            !m.playing(),
            m.pending() is None,
    {
        ZoneMusicManager {
            area_table,
            zone_music,
            zone_intro_music_table,
            sound_entries,
            cooldowns: HashMap::new(),
            current_zone_music: None,
            current_sound_playing: false,
            pending_cooldown: None,
            continuous_zone_music,
        }
    }

    /// What a change of the terrain tile does (see `selection`), without doing it.
    pub fn select(&self, tile_area: Option<u32>) -> (r: TileSelection)
        requires
            self.well_formed(),
        ensures
            r == self.selection(tile_area),
    {
        let id = match tile_area {
            None => {
                return TileSelection::Stop;
            },
            Some(id) => id,
        };
        if id > 0x7fff_ffff {
            return TileSelection::Keep;
        }
        let area = match find_row(&self.area_table, id as i32) {
            None => {
                return TileSelection::Keep;
            },
            Some(area) => *area,
        };
        let zone_music = match find_row(&self.zone_music, area.zone_music) {
            None => {
                return TileSelection::Stop;
            },
            Some(zm) => *zm,
        };
        let zone_sound = match find_row(&self.sound_entries, zone_music.sounds[0]) {
            None => {
                return TileSelection::Stop;
            },
            Some(zone_sound) => zone_sound.duplicate(),
        };
        let zone_intro_opt: Option<(ZoneIntroMusic, SoundEntry)> = match find_row(
            &self.zone_intro_music_table,
            area.intro_sound,
        ) {
            Some(zim) => match find_row(&self.sound_entries, zim.sound_id) {
                Some(entry) => Some((*zim, entry.duplicate())),
                None => None,
            },
            None => None,
        };
        let play_intro = match &zone_intro_opt {
            Some(intro) => !self.cooldowns.contains_key(&intro.0.sound_id),
            None => false,
        };
        if let Some(old_zone_music) = &self.current_zone_music {
            let same_intro = match (&old_zone_music.intro_opt, &zone_intro_opt) {
                (Some(row), Some(intro)) => row.id == intro.0.id,
                (None, None) => true,
                _ => false,
            };
            if old_zone_music.zone_music.id == zone_music.id && same_intro {
                return TileSelection::Keep;
            }
        }
        let (zim, intro) = match zone_intro_opt {
            Some((zim, intro)) => (Some(zim), Some(intro)),
            None => (None, None),
        };
        TileSelection::Start(CurrentZoneMusic::new(zim, intro, play_intro, zone_music, zone_sound))
    }

    /// Whether a change to the tile can be made: a music that it starts can be played.
    pub fn tile_change_ready(&self, tile_area: Option<u32>) -> (r: bool)
        requires
            self.well_formed(),
        ensures
            r == (self.selection(tile_area) matches TileSelection::Start(c) ==> c.ready()),
    {
        match self.select(tile_area) {
            TileSelection::Start(c) => c.is_ready(),
            _ => true,
        }
    }

    /// Reacts to a change of the player's terrain tile (`None`: the map was unloaded).
    pub fn on_tile_changed(&mut self, tile_area: Option<u32>) -> (action: ZoneMusicAction)
        requires
            old(self).well_formed(),
            old(self).selection(tile_area) matches TileSelection::Start(c) ==> c.ready(),
        ensures
            final(self).well_formed(),
            final(self).same_tables(old(self)),
            final(self).cooldowns() == old(self).cooldowns(),
            final(self).playing() == old(self).playing(),
            final(self).pending() == old(self).pending(),
            match old(self).selection(tile_area) {
                TileSelection::Keep => {
                    &&& final(self).current() == old(self).current()
                    &&& !action.stop_current_sound
                    &&& action.play is None
                },
                TileSelection::Stop => {
                    &&& final(self).current() is None
                    &&& action.stop_current_sound == old(self).playing()
                    &&& action.play is None
                },
                TileSelection::Start(c) => {
                    &&& final(self).current() == Some(c)
                    &&& action.stop_current_sound == old(self).playing()
                    &&& action.play matches Some(req) && request_for(c, req)
                },
            },
    {
        match self.select(tile_area) {
            TileSelection::Keep => ZoneMusicAction { stop_current_sound: false, play: None },
            TileSelection::Stop => {
                let stop = self.stop_playing();
                ZoneMusicAction { stop_current_sound: stop, play: None }
            },
            TileSelection::Start(music) => {
                let stop = self.stop_playing();
                self.current_zone_music = Some(music);
                let play = self.start_playing();
                ZoneMusicAction { stop_current_sound: stop, play }
            },
        }
    }

    /// Forgets the current music; gives whether a playing sound is to be faded out.
    fn stop_playing(&mut self) -> (stop: bool)
        ensures
            stop == old(self).playing(),
            final(self).current() is None,
            final(self).same_tables(old(self)),
            final(self).cooldowns == old(self).cooldowns,
            final(self).playing() == old(self).playing(),
            final(self).pending() == old(self).pending(),
    {
        self.current_zone_music = None;
        self.current_sound_playing
    }

    /// The request to play the next sound of the current music, if there is one.
    fn start_playing(&self) -> (r: Option<PlayRequest>)
        requires
            self.current() matches Some(c) ==> c.ready(),
        ensures
            r is Some <==> self.current() is Some,
            r matches Some(req) ==> request_for(self.current()->0, req),
    {
        match &self.current_zone_music {
            None => None,
            Some(current_music) => {
                let (path, volume_bits) = current_music.get_next_sound();
                let (cooldown_ms, cooldown_key) = current_music.get_cooldown_duration();
                Some(PlayRequest { path, volume_bits, cooldown_ms, cooldown_key })
            },
        }
    }

    /// Records the outcome of playing a requested sound at `now`: a sound that started plays
    /// and its cooldown waits for its end; a sound that failed to start rests at once.
    pub fn playback_result(&mut self, request: &PlayRequest, started: bool, now: i64)
        requires
            old(self).well_formed(),
            cooldown_bounded(request.cooldown_ms as int),
            time_bounded(now as int),
        ensures
            final(self).well_formed(),
            final(self).same_tables(old(self)),
            final(self).current() == old(self).current(),
            started ==> final(self).playing() && final(self).pending() == Some(
                (request.cooldown_key, request.cooldown_ms),
            ) && final(self).cooldowns() == old(self).cooldowns(),
            !started ==> final(self).playing() == old(self).playing() && final(self).pending()
                == old(self).pending() && final(self).cooldowns() == old(self).cooldowns().insert(
                request.cooldown_key,
                (now + request.cooldown_ms) as i64,
            ),
    {
        if started {
            self.current_sound_playing = true;
            self.pending_cooldown = Some((request.cooldown_key, request.cooldown_ms));
        } else {
            self.cooldowns.insert(request.cooldown_key, now + request.cooldown_ms);
        }
    }

    /// Ends the cooldowns that are over at `now`.
    pub fn update_cooldowns(&mut self, now: i64)
        requires
            old(self).well_formed(),
        ensures
            final(self).well_formed(),
            final(self).same_tables(old(self)),
            final(self).current() == old(self).current(),
            final(self).playing() == old(self).playing(),
            final(self).pending() == old(self).pending(),
            final(self).cooldowns() == old(self).cooldowns().restrict(
                old(self).cooldowns().dom().filter(|k: i32| old(self).cooldowns()[k] > now),
            ),
    {
        retain_resting(&mut self.cooldowns, now);
    }

    /// The music whose next sound `update_running_sound` would request (see
    /// `running_sound_start`), without changing anything.
    pub fn next_start(&self, handle_stopped: bool, now: i64) -> (r: Option<CurrentZoneMusic>)
        requires
            self.well_formed(),
            time_bounded(now as int),
        ensures
            r == self.running_sound_start(handle_stopped, now),
    {
        if self.current_sound_playing && !handle_stopped {
            return None;
        }
        let current = match &self.current_zone_music {
            None => {
                return None;
            },
            Some(c) => c,
        };
        if self.current_sound_playing {
            if current.is_still_intro() {
                let mut finished = current.duplicate();
                finished.finish_intro();
                return Some(finished);
            }
            let rests = match self.pending_cooldown {
                Some(pending) => pending.0 == current.current_entry().id || self.cooldowns.contains_key(
                    &current.current_entry().id,
                ),
                None => self.cooldowns.contains_key(&current.current_entry().id),
            };
            if self.continuous_zone_music || !rests {
                Some(current.duplicate())
            } else {
                None
            }
        } else if self.continuous_zone_music || !self.cooldowns.contains_key(
            &current.current_entry().id,
        ) {
            Some(current.duplicate())
        } else {
            None
        }
    }

    /// Whether `update_running_sound` can run: a music whose next sound it requests can be
    /// played.
    pub fn running_sound_ready(&self, handle_stopped: bool, now: i64) -> (r: bool)
        requires
            self.well_formed(),
            time_bounded(now as int),
        ensures
            r == (self.running_sound_start(handle_stopped, now) matches Some(c) ==> c.ready()),
    {
        match self.next_start(handle_stopped, now) {
            Some(c) => c.is_ready(),
            None => true,
        }
    }

    /// Follows the playing sound: when it has ended (`handle_stopped`), its cooldown starts and
    /// the next sound is requested (the zone's sound after an intro, else the next sound if the
    /// entry does not rest); with no sound playing, the next sound is requested when the entry
    /// does not rest.
    pub fn update_running_sound(&mut self, handle_stopped: bool, now: i64) -> (r: Option<
        PlayRequest,
    >)
        requires
            old(self).well_formed(),
            time_bounded(now as int),
            old(self).running_sound_start(handle_stopped, now) matches Some(c) ==> c.ready(),
        ensures
            final(self).well_formed(),
            final(self).same_tables(old(self)),
            r is Some <==> old(self).running_sound_start(handle_stopped, now) is Some,
            r matches Some(req) ==> request_for(
                old(self).running_sound_start(handle_stopped, now)->0,
                req,
            ),
            old(self).playing() && !handle_stopped ==> {
                &&& final(self).cooldowns() == old(self).cooldowns()
                &&& final(self).current() == old(self).current()
                &&& final(self).playing()
                &&& final(self).pending() == old(self).pending()
            },
            old(self).playing() && handle_stopped ==> {
                &&& final(self).cooldowns() == old(self).cooldowns_after_sound(now)
                &&& !final(self).playing()
                &&& final(self).pending() is None
                &&& final(self).current() == match old(self).current() {
                    Some(c) => if c.playing_intro() {
                        Some(c.finished())
                    } else {
                        Some(c)
                    },
                    None => None,
                }
            },
            !old(self).playing() ==> {
                &&& final(self).cooldowns() == old(self).cooldowns()
                &&& final(self).current() == old(self).current()
                &&& !final(self).playing()
                &&& final(self).pending() == old(self).pending()
            },
    {
        if self.current_sound_playing {
            if !handle_stopped {
                return None;
            }
            if let Some(pending) = self.pending_cooldown {
                self.cooldowns.insert(pending.0, now + pending.1);
            }
            self.pending_cooldown = None;
            self.current_sound_playing = false;
            match self.current_zone_music.take() {
                None => {
                    return None;
                },
                Some(mut current_music) => {
                    if current_music.is_still_intro() {
                        current_music.finish_intro();
                        self.current_zone_music = Some(current_music);
                        return self.start_playing();
                    }
                    self.current_zone_music = Some(current_music);
                },
            }
        }
        if !self.current_sound_playing {
            if let Some(current_music) = &self.current_zone_music {
                if self.continuous_zone_music || !self.cooldowns.contains_key(
                    &current_music.current_entry().id,
                ) {
                    return self.start_playing();
                }
            }
        }
        None
    }
}

} // verus!

verus! {

/// A slice is only ever picked if it has a positive frequency.
pub proof fn lemma_picked_slice_has_weight(entry: SoundEntry, roll: int, slice: int)
    requires
        0 <= roll,
        slice_for_roll(entry, roll, slice),
    ensures
        (entry.freq@[slice] as u32) > 0,
{
    assert(freq_sum(entry.freq@, slice + 1) == freq_sum(entry.freq@, slice) + (
    entry.freq@[slice] as u32) as int);
    if slice > 0 {
        assert(roll >= freq_sum(entry.freq@, slice));
    } else {
        assert(freq_sum(entry.freq@, 0) == 0);
    }
}

/// An entry with a single file always plays that file.
pub proof fn lemma_single_file_plays_first(entry: SoundEntry, roll: int, slice: int)
    requires
        highest_file_index(entry) == 0,
        slice_for_roll(entry, roll, slice),
    ensures
        slice == 0,
{
}

/// Changing to a tile of the same area again keeps the music that the first change started.
pub proof fn lemma_same_area_keeps_music(
    m1: ZoneMusicManager,
    m2: ZoneMusicManager,
    area_id: u32,
    c: CurrentZoneMusic,
)
    requires
        m1.selection(Some(area_id)) == TileSelection::Start(c),
        m2.same_tables(&m1),
        m2.current() == Some(c),
    ensures
        m2.selection(Some(area_id)) == TileSelection::Keep,
{
}

/// The id of an intro row, if there is one.
pub open spec fn intro_row_id(intro: Option<ZoneIntroMusic>) -> Option<i32> {
    match intro {
        Some(row) => Some(row.id),
        None => None,
    }
}

/// On a tile change to an area with a zone music and its zone sound, the current music is kept
/// exactly when it is that zone music with that area's intro (the same intro row, or no intro on
/// either side); in every other case (no music playing, another zone music, or another intro,
/// where one has an intro and the other none as well) that area's music starts over, with its
/// zone music and its own intro.
pub proof fn lemma_tile_change_keeps_only_same_music(
    m: ZoneMusicManager,
    area_id: u32,
    area: AreaInfo,
    zm: ZoneMusicInfo,
)
    requires
        m.area_for(area_id) == Some(area),
        lookup(m.musics(), area.zone_music) == Some(zm),
        lookup(m.entries(), zm.sounds[0]) is Some,
    ensures
        m.selection(Some(area_id)) is Keep <==> m.current() is Some && m.current()->0.music().id
            == zm.id && intro_row_id(m.current()->0.intro()) == match m.intro_for(area) {
            Some(i) => Some(i.0.id),
            None => None,
        },
        m.selection(Some(area_id)) is Keep || m.selection(Some(area_id)) is Start,
        m.selection(Some(area_id)) matches TileSelection::Start(c) ==> c.music() == zm
            && intro_row_id(c.intro()) == match m.intro_for(area) {
            Some(i) => Some(i.0.id),
            None => None,
        },
        m.selection(Some(area_id)) matches TileSelection::Start(c) ==> Some(c.zone_entry())
            == lookup(m.entries(), zm.sounds[0]),
        m.selection(Some(area_id)) matches TileSelection::Start(c) ==> (c.playing_intro() <==> (
        lookup(m.intros(), area.intro_sound) matches Some(zim) && lookup(m.entries(), zim.sound_id)
            is Some && !m.cooldowns().contains_key(zim.sound_id))),
        m.selection(Some(area_id)) matches TileSelection::Start(c) ==> (c.intro_entry() is Some
            <==> c.intro() is Some),
{
}

/// An unloaded map stops the music; a tile of an area that the area table does not know keeps
/// it; a known area whose zone music, or whose zone music's first sound entry, is not in the
/// tables stops it.
pub proof fn lemma_tile_change_without_area_music(m: ZoneMusicManager, area_id: u32)
    ensures
        m.selection(None) is Stop,
        area_id > 0x7fff_ffff ==> m.selection(Some(area_id)) is Keep,
        area_id <= 0x7fff_ffff && lookup(m.areas(), area_id as i32) is None ==> m.selection(
            Some(area_id),
        ) is Keep,
        m.area_for(area_id) matches Some(area) && lookup(m.musics(), area.zone_music) is None
            ==> m.selection(Some(area_id)) is Stop,
        m.area_for(area_id) matches Some(area) && lookup(m.musics(), area.zone_music) matches Some(
            zm,
        ) && lookup(m.entries(), zm.sounds[0]) is None ==> m.selection(Some(area_id)) is Stop,
{
}

} // verus!
