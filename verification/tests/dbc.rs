use sargerust::dbc::{
    check_dbc, read_area_table, read_char_hair_geosets, read_char_sections, read_creature_display_info,
    read_creature_display_info_extra, read_creature_model_data, read_facial_hair_styles, read_item_display_info,
    read_light_int_band, read_sound_entries, read_zone_intro_music, read_zone_music, DbcReadError,
};

/// The bytes of a DBC file with the given records (each a list of 4-byte fields) and strings.
fn dbc(field_count: u32, records: &[Vec<u32>], strings: &[u8]) -> Vec<u8> {
    let mut out = Vec::new();
    for v in [0x43424457u32, records.len() as u32, field_count, field_count * 4, strings.len() as u32] {
        out.extend_from_slice(&v.to_le_bytes());
    }
    for record in records {
        assert_eq!(record.len() as u32, field_count);
        for v in record {
            out.extend_from_slice(&v.to_le_bytes());
        }
    }
    out.extend_from_slice(strings);
    out
}

fn record(field_count: usize, fields: &[(usize, u32)]) -> Vec<u32> {
    let mut r = vec![0u32; field_count];
    for (i, v) in fields {
        r[*i] = *v;
    }
    r
}

// String block: offset 1 "Sound\Music", offset 13 "a.wav", offset 19 "Tex.blp", offset 27 "Wolf.mdx".
const STRINGS: &[u8] = b"\0Sound\\Music\0a.wav\0Tex.blp\0Wolf.mdx\0";

#[test]
fn area_table_rows_are_read() {
    let bytes = dbc(36, &[record(36, &[(0, 12), (8, 3), (9, 4), (11, 1)])], STRINGS);
    let rows = read_area_table(&bytes).unwrap();
    assert_eq!(rows.len(), 1);
    assert_eq!((rows[0].id, rows[0].zone_music, rows[0].intro_sound), (12, 3, 4));
}

#[test]
fn zone_music_rows_are_read() {
    let bytes = dbc(8, &[record(8, &[(0, 3), (1, 13), (2, 120000), (3, 60000), (4, 180000), (5, 90000), (6, 7), (7, 8)])], STRINGS);
    let rows = read_zone_music(&bytes).unwrap();
    assert_eq!(rows[0].id, 3);
    assert_eq!(rows[0].silence_interval_min, [120000, 60000]);
    assert_eq!(rows[0].silence_interval_max, [180000, 90000]);
    assert_eq!(rows[0].sounds, [7, 8]);
}

#[test]
fn zone_intro_music_rows_are_read() {
    let bytes = dbc(5, &[record(5, &[(0, 4), (1, 13), (2, 9), (4, 5)])], STRINGS);
    let rows = read_zone_intro_music(&bytes).unwrap();
    assert_eq!((rows[0].id, rows[0].sound_id, rows[0].min_delay_minutes), (4, 9, 5));
}

#[test]
fn sound_entry_rows_are_read() {
    let volume = 0.5f32.to_bits();
    let bytes = dbc(30, &[record(30, &[(0, 7), (2, 13), (3, 13), (13, 2), (23, 1), (24, volume)])], STRINGS);
    let rows = read_sound_entries(&bytes).unwrap();
    assert_eq!(rows[0].id, 7);
    assert_eq!(rows[0].directory_base, "Sound\\Music");
    assert_eq!(rows[0].file[0], "a.wav");
    assert_eq!(rows[0].file[1], "");
    assert_eq!(rows[0].freq[0], 2);
    assert_eq!(f32::from_bits(rows[0].volume_bits), 0.5);
}

#[test]
fn creature_display_info_rows_are_read() {
    let bytes = dbc(16, &[record(16, &[(0, 10), (1, 20), (3, 7), (6, 19), (9, 13)])], STRINGS);
    let rows = read_creature_display_info(&bytes).unwrap();
    assert_eq!((rows[0].id, rows[0].model_id, rows[0].extended_display_info_id), (10, 20, 7));
    assert_eq!(rows[0].texture_variation, ["Tex.blp".to_string(), String::new(), String::new()]);
}

#[test]
fn creature_display_info_extra_rows_are_read() {
    let bytes = dbc(21, &[record(21, &[(0, 7), (1, 1), (3, 2), (6, 5), (14, 500), (20, 19)])], STRINGS);
    let rows = read_creature_display_info_extra(&bytes).unwrap();
    assert_eq!((rows[0].id, rows[0].display_race_id, rows[0].skin_id, rows[0].hair_color_id), (7, 1, 2, 5));
    assert_eq!(rows[0].n_p_c_item_display[6], 500);
    assert_eq!(rows[0].bake_name, "Tex.blp");
}

#[test]
fn creature_model_data_rows_are_read() {
    let bytes = dbc(28, &[record(28, &[(0, 20), (2, 27)])], STRINGS);
    let rows = read_creature_model_data(&bytes).unwrap();
    assert_eq!(rows[0].id, 20);
    assert_eq!(rows[0].model_name, "Wolf.mdx");
}

#[test]
fn char_section_rows_are_read() {
    let bytes = dbc(10, &[record(10, &[(0, 1), (1, 2), (2, 1), (3, 3), (4, 19), (8, 4), (9, 5)])], STRINGS);
    let rows = read_char_sections(&bytes).unwrap();
    assert_eq!((rows[0].race_id, rows[0].sex_id, rows[0].base_section), (2, 1, 3));
    assert_eq!((rows[0].variation_index, rows[0].color_index), (4, 5));
    assert_eq!(rows[0].texture_name[0], "Tex.blp");
}

#[test]
fn hair_geoset_and_facial_hair_rows_are_read() {
    let bytes = dbc(6, &[record(6, &[(0, 1), (1, 2), (2, 1), (3, 4), (4, 9)])], b"");
    let rows = read_char_hair_geosets(&bytes).unwrap();
    assert_eq!((rows[0].race_id, rows[0].sex_id, rows[0].variation_id, rows[0].geoset_id), (2, 1, 4, 9));
    let bytes = dbc(8, &[record(8, &[(0, 2), (1, 1), (2, 6), (3, 1), (4, 2), (7, 5)])], b"");
    let rows = read_facial_hair_styles(&bytes).unwrap();
    assert_eq!((rows[0].race_id, rows[0].sex_id, rows[0].variation_id), (2, 1, 6));
    assert_eq!(rows[0].geoset, [1, 2, 0, 0, 5]);
}

#[test]
fn item_display_info_rows_are_read() {
    let bytes = dbc(25, &[record(25, &[(0, 500), (1, 19), (7, 2), (9, 1), (15, 27)])], STRINGS);
    let rows = read_item_display_info(&bytes).unwrap();
    assert_eq!(rows[0].id, 500);
    assert_eq!(rows[0].geoset_group, [2, 0, 1]);
}

#[test]
fn light_int_band_rows_are_read() {
    let bytes = dbc(34, &[record(34, &[(0, 1), (1, 2), (2, 0), (3, 1440), (18, 0xff0000), (19, 0x00ff00)])], b"");
    let rows = read_light_int_band(&bytes).unwrap();
    assert_eq!(rows[0].num, 2);
    assert_eq!(&rows[0].time[..2], &[0, 1440]);
    assert_eq!(&rows[0].data[..2], &[0xff0000, 0x00ff00]);
}

#[test]
fn dbc_problems_are_reported() {
    // The header declares two records, the file holds one.
    let mut truncated = dbc(5, &[record(5, &[(0, 1)])], b"");
    truncated[4] = 2;
    assert_eq!(check_dbc(&truncated, 20, 5, [(1, 2), (0, 0), (0, 0), (0, 0)]), Some(DbcReadError::Truncated));
    assert!(matches!(read_zone_intro_music(&truncated), Err(DbcReadError::Truncated)));

    // A string reference past the string block.
    let outside = dbc(5, &[record(5, &[(0, 1), (1, 40)])], STRINGS);
    assert!(matches!(read_zone_intro_music(&outside), Err(DbcReadError::BadStringReference)));

    // A string without its NUL.
    let unterminated = dbc(5, &[record(5, &[(0, 1), (1, 1)])], b"\0abc");
    assert!(matches!(read_zone_intro_music(&unterminated), Err(DbcReadError::BadStringReference)));

    // Not a DBC file, or one of another table: the reader refuses it.
    assert!(matches!(read_zone_intro_music(b"nothing"), Err(DbcReadError::Malformed)));
    let other_table = dbc(6, &[record(6, &[(0, 1)])], b"");
    assert_eq!(check_dbc(&other_table, 20, 5, [(1, 2), (0, 0), (0, 0), (0, 0)]), None);
    assert!(matches!(read_zone_intro_music(&other_table), Err(DbcReadError::Malformed)));

    // Invalid UTF-8 in a string.
    let bad_utf8 = dbc(5, &[record(5, &[(0, 1), (1, 1)])], b"\0\xff\xfe\0");
    assert!(matches!(read_zone_intro_music(&bad_utf8), Err(DbcReadError::Malformed)));

    // An empty table is fine.
    assert!(read_zone_intro_music(&dbc(5, &[], b"")).unwrap().is_empty());
}

#[test]
fn tables_without_strings_ignore_the_string_block() {
    // The header declares a string block of 100 bytes that the file does not hold: a table
    // without string fields does not read it.
    let mut bytes = dbc(6, &[record(6, &[(0, 1), (1, u32::MAX), (4, 9)])], b"");
    bytes[16] = 100;
    let rows = read_char_hair_geosets(&bytes).unwrap();
    assert_eq!((rows[0].race_id, rows[0].geoset_id), (-1, 9));
    // A table with string fields does read it.
    let mut with_strings = dbc(5, &[record(5, &[(0, 1)])], b"");
    with_strings[16] = 100;
    assert!(matches!(read_zone_intro_music(&with_strings), Err(DbcReadError::Truncated)));
    // Records that do not fit are reported before the reader runs.
    let mut short = dbc(6, &[record(6, &[(0, 1)])], b"");
    short[4] = 2;
    assert!(matches!(read_char_hair_geosets(&short), Err(DbcReadError::Truncated)));
}
