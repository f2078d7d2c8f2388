use sargerust::dbc::{read_light, read_light_float_band, read_light_params, read_light_skybox};
use sargerust::light_bands::LightBandRow;
use sargerust::light_settings::{LightParamsRow, LightRow, LightSkyboxRow, MapLightSettingsProvider};

fn band_row(num: i32, first_value: i32) -> LightBandRow<i32> {
    let mut time = [0; 16];
    let mut data = [0; 16];
    for k in 0..16 {
        time[k] = k as i32 * 120;
        data[k] = first_value + k as i32;
    }
    LightBandRow { num, time, data }
}

fn float_band_row(num: i32, value: f32) -> LightBandRow<u32> {
    LightBandRow { num, time: [0; 16], data: [value.to_bits(); 16] }
}

fn light(id: i32, continent_id: i32, light_params_id: [i32; 8]) -> LightRow {
    LightRow {
        id,
        continent_id,
        game_coords_bits: [1.0f32.to_bits(), 2.0f32.to_bits(), 3.0f32.to_bits()],
        game_falloff_start_bits: 10.0f32.to_bits(),
        game_falloff_end_bits: 20.0f32.to_bits(),
        light_params_id,
    }
}

fn params(id: i32, highlight_sky: i32, light_skybox_id: i32) -> LightParamsRow {
    LightParamsRow {
        id,
        highlight_sky,
        light_skybox_id,
        glow_bits: 0.5f32.to_bits(),
        water_shallow_alpha_bits: 0.25f32.to_bits(),
        water_deep_alpha_bits: 1.0f32.to_bits(),
        ocean_shallow_alpha_bits: 0.75f32.to_bits(),
        ocean_deep_alpha_bits: 1.0f32.to_bits(),
        flags: 4,
    }
}

fn provider() -> MapLightSettingsProvider {
    MapLightSettingsProvider::build(
        vec![
            light(1, 0, [1, 1, 1, 1, 1, 0, 0, 2]),
            light(2, 1, [1, 1, 1, 1, 7, 0, 0, 0]),
            light(3, 0, [2, 2, 2, 2, 2, 2, 2, 2]),
        ],
        vec![LightSkyboxRow { id: 5, name: "Environments\\Stars\\Sky.m2".to_string() }],
        vec![params(1, 1, 5), params(2, 0, 9)],
        (0..37).map(|i| band_row(i % 3, i * 100)).collect(),
        (0..13).map(|i| float_band_row(2, i as f32)).collect(),
    )
}

#[test]
fn light_parameters_take_their_bands_and_skybox() {
    let p = provider();
    let clear = p.get_light_parameters(1).expect("parameter set 1");
    assert!(clear.highlight_sky);
    assert_eq!(clear.light_skybox.as_deref(), Some("Environments\\Stars\\Sky.m2"));
    assert_eq!(f32::from_bits(clear.glow_bits), 0.5);
    assert_eq!(clear.flags, 4);
    assert_eq!(clear.int_bands.len(), 18);
    assert_eq!(clear.float_bands.len(), 6);
    // set 1 takes the rows 1 to 18: row 1 has one value (1 % 3), row 2 two values.
    assert_eq!(clear.int_bands[0].data.len(), 1);
    assert_eq!(clear.int_bands[0].get_value_for_time(0), Some(&100));
    assert_eq!(clear.int_bands[1].get_value_for_time(120), Some(&201));
    assert_eq!(clear.int_bands[16].get_value_for_time(0), Some(&1700));
    // row 18 holds no values (18 % 3 == 0)
    assert!(clear.int_bands[17].data.is_empty());
    assert_eq!(clear.float_bands[5].get_value_for_time(0).map(|b| f32::from_bits(*b)), Some(6.0));
    let other = p.get_light_parameters(2).expect("parameter set 2");
    assert!(!other.highlight_sky);
    assert!(other.light_skybox.is_none());
    assert_eq!(other.int_bands[0].get_value_for_time(0), Some(&1900));
    assert!(p.get_light_parameters(0).is_none());
    assert_eq!(p.get_skybox(5).as_deref(), Some("Environments\\Stars\\Sky.m2"));
}

#[test]
fn settings_of_a_map_are_its_lights_in_order() {
    let p = provider();
    assert!(p.can_load_map(0));
    let settings = p.get_settings_for_map(0);
    assert_eq!(settings.len(), 2);
    assert_eq!(settings[0].light_id, 1);
    assert_eq!(settings[1].light_id, 3);
    assert_eq!(f32::from_bits(settings[0].game_coords_bits[2]), 3.0);
    assert_eq!(f32::from_bits(settings[0].game_falloff_end_bits), 20.0);
    assert!(settings[0].clear.highlight_sky);
    assert!(settings[0].wotlk_unk1.is_none());
    assert!(settings[0].wotlk_unk3.is_some());
    assert!(!settings[1].death.highlight_sky);
    assert!(p.get_settings_for_map(42).is_empty());
    // map 1's light needs parameter set 7, which the table does not have.
    assert!(!p.can_load_map(1));
    assert!(p.can_load_params(1) && p.can_load_params(7));
}

fn dbc(field_count: u32, records: &[Vec<u32>], strings: &[u8]) -> Vec<u8> {
    let mut out = Vec::new();
    for v in [0x43424457u32, records.len() as u32, field_count, field_count * 4, strings.len() as u32] {
        out.extend_from_slice(&v.to_le_bytes());
    }
    for record in records {
        for v in record {
            out.extend_from_slice(&v.to_le_bytes());
        }
    }
    out.extend_from_slice(strings);
    out
}

#[test]
fn light_tables_are_read() {
    let mut light_record = vec![0u32; 15];
    light_record[0] = 4;
    light_record[1] = 571;
    light_record[2] = 1.5f32.to_bits();
    light_record[5] = 30.0f32.to_bits();
    light_record[7] = 12;
    light_record[14] = 19;
    let lights = read_light(&dbc(15, &[light_record], b"")).unwrap();
    assert_eq!((lights[0].id, lights[0].continent_id), (4, 571));
    assert_eq!(f32::from_bits(lights[0].game_coords_bits[0]), 1.5);
    assert_eq!(f32::from_bits(lights[0].game_falloff_start_bits), 30.0);
    assert_eq!(lights[0].light_params_id[0], 12);
    assert_eq!(lights[0].light_params_id[7], 19);

    let params = read_light_params(&dbc(9, &[vec![12, 1, 5, 0.5f32.to_bits(), 0, 0, 0, 0, 16]], b"")).unwrap();
    assert_eq!((params[0].id, params[0].highlight_sky, params[0].light_skybox_id, params[0].flags), (12, 1, 5, 16));
    assert_eq!(f32::from_bits(params[0].glow_bits), 0.5);

    let skyboxes = read_light_skybox(&dbc(3, &[vec![5, 1, 0]], b"\0Sky.m2\0")).unwrap();
    assert_eq!((skyboxes[0].id, skyboxes[0].name.as_str()), (5, "Sky.m2"));

    let mut band = vec![0u32; 34];
    band[0] = 1;
    band[1] = 1;
    band[2] = 60;
    band[18] = 0.25f32.to_bits();
    let bands = read_light_float_band(&dbc(34, &[band], b"")).unwrap();
    assert_eq!(bands[0].num, 1);
    assert_eq!(bands[0].time[0], 60);
    assert_eq!(f32::from_bits(bands[0].data[0]), 0.25);
}
