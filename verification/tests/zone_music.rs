use sargerust::tables::find_row;
use sargerust::zone_music::{
    AreaInfo, CurrentZoneMusic, PlayRequest, SoundEntry, ZoneIntroMusic, ZoneMusicInfo,
    ZoneMusicManager,
};

fn build_zone_music_row() -> ZoneMusicInfo {
    ZoneMusicInfo {
        id: 1,
        silence_interval_min: [0, 0],
        silence_interval_max: [1, 1],
        sounds: [1; 2],
    }
}

fn files(names: &[&str]) -> [String; 10] {
    std::array::from_fn(|i| names.get(i).map(|s| s.to_string()).unwrap_or_default())
}

fn entry(id: i32, directory_base: &str, names: &[&str], freq: [i32; 10]) -> SoundEntry {
    SoundEntry {
        id,
        directory_base: directory_base.to_string(),
        file: files(names),
        freq,
        volume_bits: 1.0f32.to_bits(),
    }
}

#[test]
pub fn highest_index_if_all_filled() {
    let entry = SoundEntry {
        id: 1,
        directory_base: "".to_string(),
        file: [
            "file1.ogg".to_string(),
            "file2.ogg".to_string(),
            "file3.ogg".to_string(),
            "file4.ogg".to_string(),
            "file5.ogg".to_string(),
            "file6.ogg".to_string(),
            "file7.ogg".to_string(),
            "file8.ogg".to_string(),
            "file9.ogg".to_string(),
            "file10.ogg".to_string(),
        ],
        freq: [0; 10],
        volume_bits: 1.0f32.to_bits(),
    };

    let current_music = CurrentZoneMusic::new(None, None, false, build_zone_music_row(), entry);
    assert_eq!(current_music.highest_index(), 9);
}

#[test]
pub fn highest_index_general() {
    let entry = SoundEntry {
        id: 1,
        directory_base: "".to_string(),
        file: [
            "file1.ogg".to_string(),
            "file2.ogg".to_string(),
            "file3.ogg".to_string(),
            "file4.ogg".to_string(),
            "file5.ogg".to_string(),
            "".to_string(),
            "".to_string(),
            "".to_string(),
            "".to_string(),
            "".to_string(),
        ],
        freq: [0; 10],
        volume_bits: 1.0f32.to_bits(),
    };

    let current_music = CurrentZoneMusic::new(None, None, false, build_zone_music_row(), entry);
    assert_eq!(current_music.highest_index(), 4);
}

#[test]
pub fn pick_next_slice_works_for_one_entry() {
    let entry = SoundEntry {
        id: 1,
        directory_base: "".to_string(),
        file: [
            "file1.ogg".to_string(),
            "".to_string(),
            "".to_string(),
            "".to_string(),
            "".to_string(),
            "".to_string(),
            "".to_string(),
            "".to_string(),
            "".to_string(),
            "".to_string(),
        ],
        freq: [1; 10],
        volume_bits: 1.0f32.to_bits(),
    };

    let current_music = CurrentZoneMusic::new(None, None, false, build_zone_music_row(), entry);
    assert_eq!(current_music.pick_next_slice(), 0);
    assert_eq!(current_music.pick_next_slice(), 0);
    assert_eq!(current_music.pick_next_slice(), 0);
}

#[test]
fn slice_for_roll_follows_cumulative_frequencies() {
    let e = entry(1, "", &["a", "b", "c"], [2, 0, 3, 9, 9, 9, 9, 9, 9, 9]);
    let music = CurrentZoneMusic::new(None, None, false, build_zone_music_row(), e);
    assert_eq!(music.slice_for(0), 0);
    assert_eq!(music.slice_for(1), 0);
    assert_eq!(music.slice_for(2), 2);
    assert_eq!(music.slice_for(4), 2);
    for _ in 0..50 {
        // a slice with frequency 0 is never picked
        assert_ne!(music.pick_next_slice(), 1);
    }
}

#[test]
fn next_sound_path_and_volume() {
    let e = entry(7, "Sound\\Music", &["day.mp3"], [1; 10]);
    let music = CurrentZoneMusic::new(None, None, false, build_zone_music_row(), e);
    assert_eq!(music.sound_path(0), "Sound\\Music\\day.mp3");
    let (path, volume) = music.get_next_sound();
    assert_eq!(path, "Sound\\Music\\day.mp3");
    assert_eq!(f32::from_bits(volume), 1.0);
}

#[test]
fn intro_plays_first_and_has_fixed_cooldown() {
    let intro_entry = entry(20, "Intro", &["intro.mp3"], [1; 10]);
    let zone_entry = entry(21, "Zone", &["zone.mp3"], [1; 10]);
    let intro = ZoneIntroMusic { id: 3, sound_id: 20, min_delay_minutes: 5 };
    let mut music =
        CurrentZoneMusic::new(Some(intro), Some(intro_entry), true, build_zone_music_row(), zone_entry);
    assert_eq!(music.current_entry().id, 20);
    assert_eq!(music.get_cooldown_duration(), (300_000, 20));
    assert!(music.is_still_intro());
    music.finish_intro();
    assert!(!music.is_still_intro());
    assert_eq!(music.current_entry().id, 21);
    let (cooldown, key) = music.get_cooldown_duration();
    assert!((0..=1).contains(&cooldown));
    assert_eq!(key, 21);
}

#[test]
fn find_row_gives_first_row_with_id() {
    let rows = vec![
        AreaInfo { id: 1, zone_music: 10, intro_sound: 0 },
        AreaInfo { id: 2, zone_music: 20, intro_sound: 0 },
        AreaInfo { id: 2, zone_music: 30, intro_sound: 0 },
    ];
    assert_eq!(find_row(&rows, 2).map(|a| a.zone_music), Some(20));
    assert!(find_row(&rows, 3).is_none());
}

fn manager(continuous: bool) -> ZoneMusicManager {
    let areas = vec![
        AreaInfo { id: 12, zone_music: 1, intro_sound: 3 },
        AreaInfo { id: 13, zone_music: 99, intro_sound: 0 },
        AreaInfo { id: 14, zone_music: 2, intro_sound: 0 },
    ];
    let musics = vec![
        ZoneMusicInfo { id: 1, silence_interval_min: [10, 10], silence_interval_max: [20, 20], sounds: [21, 21] },
        ZoneMusicInfo { id: 2, silence_interval_min: [10, 10], silence_interval_max: [20, 20], sounds: [22, 22] },
    ];
    let intros = vec![ZoneIntroMusic { id: 3, sound_id: 20, min_delay_minutes: 1 }];
    let entries = vec![
        entry(20, "Intro", &["intro.mp3"], [1; 10]),
        entry(21, "Zone", &["zone.mp3"], [1; 10]),
        entry(22, "Other", &["other.mp3"], [1; 10]),
    ];
    ZoneMusicManager::new(areas, musics, intros, entries, continuous)
}

fn started(m: &mut ZoneMusicManager, request: &PlayRequest, now: i64) {
    m.playback_result(request, true, now);
}

#[test]
fn tile_change_starts_intro_then_zone_music() {
    let mut m = manager(false);
    let action = m.on_tile_changed(Some(12));
    assert!(!action.stop_current_sound);
    let request = action.play.expect("intro starts");
    assert_eq!(request.path, "Intro\\intro.mp3");
    assert_eq!(request.cooldown_ms, 60_000);
    assert_eq!(request.cooldown_key, 20);
    started(&mut m, &request, 1_000);

    // the same area again keeps the music
    let again = m.on_tile_changed(Some(12));
    assert!(again.play.is_none());
    assert!(!again.stop_current_sound);

    // still playing: nothing happens
    assert!(m.update_running_sound(false, 2_000).is_none());
    // the intro ended: the zone's music follows at once
    let next = m.update_running_sound(true, 3_000).expect("zone music follows the intro");
    assert_eq!(next.path, "Zone\\zone.mp3");
    assert_eq!(next.cooldown_key, 21);
    assert!((10..=20).contains(&next.cooldown_ms));
}

#[test]
fn zone_music_rests_after_it_played() {
    let mut m = manager(false);
    let request = m.on_tile_changed(Some(14)).play.expect("zone music starts");
    assert_eq!(request.path, "Other\\other.mp3");
    started(&mut m, &request, 0);
    // the sound ended at 100: entry 22 rests until 100 + cooldown, so nothing starts
    assert!(m.update_running_sound(true, 100).is_none());
    m.update_cooldowns(105);
    assert!(m.update_running_sound(false, 105).is_none());
    // after the cooldown is over, the music plays again
    m.update_cooldowns(200);
    let again = m.update_running_sound(false, 200).expect("music plays again");
    assert_eq!(again.path, "Other\\other.mp3");
}

#[test]
fn continuous_music_ignores_cooldowns() {
    let mut m = manager(true);
    let request = m.on_tile_changed(Some(14)).play.expect("zone music starts");
    started(&mut m, &request, 0);
    assert!(m.update_running_sound(true, 100).is_some());
}

#[test]
fn unknown_area_keeps_and_missing_music_stops() {
    let mut m = manager(false);
    let request = m.on_tile_changed(Some(14)).play.expect("zone music starts");
    started(&mut m, &request, 0);
    let keep = m.on_tile_changed(Some(4242));
    assert!(keep.play.is_none() && !keep.stop_current_sound);
    let keep = m.on_tile_changed(Some(u32::MAX));
    assert!(keep.play.is_none() && !keep.stop_current_sound);
    let stop = m.on_tile_changed(Some(13));
    assert!(stop.play.is_none() && stop.stop_current_sound);
    // no music any more: nothing starts after the sound ended
    assert!(m.update_running_sound(true, 10).is_none());
    let unload = m.on_tile_changed(None);
    assert!(unload.play.is_none());
}

#[test]
fn failed_playback_rests_the_entry_and_skips_the_intro_next_time() {
    let mut m = manager(false);
    let request = m.on_tile_changed(Some(12)).play.expect("intro starts");
    m.playback_result(&request, false, 1_000);
    // switching away and back: the intro rests, so the zone's music starts directly
    let other = m.on_tile_changed(Some(14)).play.expect("other music");
    assert_eq!(other.path, "Other\\other.mp3");
    let back = m.on_tile_changed(Some(12)).play.expect("zone music");
    assert_eq!(back.path, "Zone\\zone.mp3");
    m.update_cooldowns(61_001);
    let other = m.on_tile_changed(Some(14)).play.expect("other music");
    assert_eq!(other.path, "Other\\other.mp3");
    let back = m.on_tile_changed(Some(12)).play.expect("intro again");
    assert_eq!(back.path, "Intro\\intro.mp3");
}

#[test]
fn readiness_of_music_and_managers() {
    let ready = CurrentZoneMusic::new(None, None, false, build_zone_music_row(), entry(1, "D", &["a.mp3"], [1; 10]));
    assert!(ready.is_ready());
    let no_files = CurrentZoneMusic::new(None, None, false, build_zone_music_row(), entry(1, "D", &[], [1; 10]));
    assert!(!no_files.is_ready());
    let no_weight = CurrentZoneMusic::new(None, None, false, build_zone_music_row(), entry(1, "D", &["a.mp3"], [0; 10]));
    assert!(!no_weight.is_ready());
    let mut empty_interval = build_zone_music_row();
    empty_interval.silence_interval_min = [5, 0];
    empty_interval.silence_interval_max = [4, 0];
    let bad_interval = CurrentZoneMusic::new(None, None, false, empty_interval, entry(1, "D", &["a.mp3"], [1; 10]));
    assert!(!bad_interval.is_ready());
    // the intro's fixed delay does not need the interval
    let intro = ZoneIntroMusic { id: 3, sound_id: 2, min_delay_minutes: 1 };
    let intro_music = CurrentZoneMusic::new(
        Some(intro),
        Some(entry(2, "I", &["i.mp3"], [1; 10])),
        true,
        empty_interval,
        entry(1, "D", &["a.mp3"], [1; 10]),
    );
    assert!(intro_music.is_ready());

    let mut m = manager(false);
    assert!(m.tile_change_ready(Some(12)) && m.tile_change_ready(Some(4242)) && m.tile_change_ready(None));
    assert!(m.running_sound_ready(false, 0));
    let request = m.on_tile_changed(Some(12)).play.unwrap();
    m.playback_result(&request, true, 0);
    assert!(m.next_start(false, 10).is_none());
    let next = m.next_start(true, 10).expect("zone music follows");
    assert!(!next.is_still_intro());
    assert!(m.running_sound_ready(true, 10));

    let unplayable = ZoneMusicManager::new(
        vec![AreaInfo { id: 1, zone_music: 1, intro_sound: 0 }],
        vec![build_zone_music_row()],
        vec![],
        vec![entry(1, "D", &[], [0; 10])],
        false,
    );
    assert!(!unplayable.tile_change_ready(Some(1)));
}
