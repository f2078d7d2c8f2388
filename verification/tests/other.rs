use sargerust::char_sections::{
    get_base_skin_section, get_face_section, get_facial_hair_section, get_hair_section,
    get_underwear_section, CharHairGeoset, CharSection, CreatureDisplayInfoExtra, FacialHairStyle,
};
use sargerust::game_time::{advance_tick, ticks_from_time};
use sargerust::geosets::{
    default_geoset_for, geoset_whitelist, item_slot_id_to_geoset_id, sources_showable, GeosetSources,
};
use sargerust::light_bands::{bands_for_params, light_indices_for_map, LightBandEntry, LightBandRow, LightBandTuple};
use sargerust::movement::{decide_movement_packet, is_moving, MovementPacket};
use sargerust::packet_header::{is_large_header, large_header_size_and_opcode, small_header_size_and_opcode};
use sargerust::spline::{spline_step, SplineStep, SplineWalkerSystem};
use sargerust::textures::{
    doodad_model, dynamic_texture_name, fix_model_name, is_skipped_wmo, model_base_path, TextureComponent,
};
use std::collections::HashSet;

fn section(base_section: i32, variation_index: i32, color_index: i32, texture: &str) -> CharSection {
    CharSection {
        race_id: 1,
        sex_id: 0,
        base_section,
        texture_name: [texture.to_string(), String::new(), String::new()],
        variation_index,
        color_index,
    }
}

fn extra() -> CreatureDisplayInfoExtra {
    CreatureDisplayInfoExtra {
        id: 1,
        display_race_id: 1,
        display_sex_id: 0,
        skin_id: 2,
        face_id: 3,
        hair_style_id: 4,
        hair_color_id: 5,
        facial_hair_id: 6,
        n_p_c_item_display: [0; 11],
        bake_name: "Baked.blp".to_string(),
    }
}

#[test]
fn geoset_defaults_and_item_slots() {
    assert_eq!(default_geoset_for(0), 0);
    assert_eq!(default_geoset_for(4), 401);
    assert_eq!(default_geoset_for(7), 702);
    assert_eq!(default_geoset_for(28), 2801);
    assert_eq!(item_slot_id_to_geoset_id(0, 0), Some(27));
    assert_eq!(item_slot_id_to_geoset_id(3, 4), Some(28));
    assert_eq!(item_slot_id_to_geoset_id(7, 0), None);
    assert_eq!(item_slot_id_to_geoset_id(5, 3), None);
    assert_eq!(item_slot_id_to_geoset_id(14, 0), None);
}

#[test]
fn whitelist_overrides_replace_defaults() {
    let mut items = vec![None; 11];
    items[6] = Some([2, 0, 0]); // boots: group 5, value 2 -> 503
    let sources = GeosetSources {
        facial_hair_geosets: Some([1, 2, 3, 0, 0]),
        hair_geoset: Some(5),
        underwear_variation: Some(0),
        items: Some(items),
    };
    let whitelist = geoset_whitelist(&sources);
    let expected: HashSet<u16> = [
        101, 202, 303, 1600, 1700, 5, 401, 503, 600, 702, 801, 901, 1001, 1101, 1201, 1301, 1400,
        1501, 1801, 1900, 2001, 2101, 2201, 2301, 2400, 2500, 2600, 2701, 2801, 0,
    ]
    .into_iter()
    .collect();
    assert_eq!(whitelist, expected);
}

#[test]
fn whitelist_without_sources_is_all_defaults() {
    let sources = GeosetSources { facial_hair_geosets: None, hair_geoset: None, underwear_variation: None, items: None };
    let whitelist = geoset_whitelist(&sources);
    assert_eq!(whitelist.len(), 29);
    assert!(whitelist.contains(&0) && whitelist.contains(&702) && whitelist.contains(&2801));
    for group in 0..29u16 {
        assert!(whitelist.iter().any(|g| group * 100 <= *g && *g < group * 100 + 100));
    }
}

#[test]
fn unshowable_sources_are_detected() {
    let ok = GeosetSources { facial_hair_geosets: None, hair_geoset: None, underwear_variation: Some(3), items: None };
    assert!(sources_showable(&ok));
    let mut items = vec![None; 11];
    items[7] = Some([1, 0, 0]); // wrists have no geoset group
    let wrists = GeosetSources { facial_hair_geosets: None, hair_geoset: None, underwear_variation: None, items: Some(items) };
    assert!(!sources_showable(&wrists));
    let overflow = GeosetSources {
        facial_hair_geosets: Some([i32::MAX, 0, 0, 0, 0]),
        hair_geoset: None,
        underwear_variation: None,
        items: None,
    };
    assert!(!sources_showable(&overflow));
    let mut big = vec![None; 11];
    big[0] = Some([65000, 0, 0]); // helm group 27: 2700 + 65000 + 1 does not fit a u16
    let too_big = GeosetSources { facial_hair_geosets: None, hair_geoset: None, underwear_variation: None, items: Some(big) };
    assert!(!sources_showable(&too_big));
}

#[test]
fn sections_are_found_only_when_unique() {
    let sections = vec![
        section(0, 0, 2, "skin"),
        section(1, 3, 2, "face"),
        section(3, 7, 5, "hair"),
        section(2, 8, 5, "beard"),
        section(4, 0, 2, "underwear"),
        section(4, 1, 2, "underwear2"),
    ];
    let e = extra();
    assert_eq!(get_base_skin_section(&e, &sections).unwrap().texture_name[0], "skin");
    assert_eq!(get_face_section(&e, &sections).unwrap().texture_name[0], "face");
    // two underwear sections match: none is taken
    assert!(get_underwear_section(&e, &sections).is_none());

    let hair_styles = vec![
        CharHairGeoset { race_id: 1, sex_id: 0, variation_id: 4, geoset_id: 7 },
        CharHairGeoset { race_id: 1, sex_id: 0, variation_id: 4, geoset_id: 9 },
    ];
    let hair = vec![section(3, 4, 5, "hair4")];
    let (style, hair_section) = get_hair_section(&e, &hair_styles, &hair).unwrap();
    assert_eq!(style.geoset_id, 7);
    assert_eq!(hair_section.texture_name[0], "hair4");
    assert!(get_hair_section(&e, &[].to_vec(), &hair).is_none());

    let facial = vec![FacialHairStyle { race_id: 1, sex_id: 0, variation_id: 6, geoset: [1, 2, 3, 4, 5] }];
    let beard = vec![section(2, 6, 5, "beard6")];
    let (geoset, beard_section) = get_facial_hair_section(&e, &beard, &facial).unwrap();
    assert_eq!(geoset, [1, 2, 3, 4, 5]);
    assert_eq!(beard_section.texture_name[0], "beard6");
}

#[test]
fn texture_and_model_names() {
    let name = fix_model_name("Creature\\Wolf\\Wolf.MDX");
    assert_eq!(name, "creature\\wolf\\wolf.m2");
    assert_eq!(fix_model_name("A\\B.mdl"), "a\\b.m2");
    let base = model_base_path(&name).unwrap();
    assert_eq!(base, "creature\\wolf");
    assert!(model_base_path("wolf.m2").is_none());

    let variations = ["WolfSkin".to_string(), "Other.blp".to_string(), String::new()];
    assert_eq!(
        dynamic_texture_name(TextureComponent::Monster1, &variations, None, None, &base),
        Some("creature\\wolf\\WolfSkin.blp".to_string())
    );
    assert_eq!(
        dynamic_texture_name(TextureComponent::Monster2, &variations, None, None, &base),
        Some("Other.blp".to_string())
    );
    assert_eq!(dynamic_texture_name(TextureComponent::Monster3, &variations, None, None, &base), None);
    let e = extra();
    assert_eq!(
        dynamic_texture_name(TextureComponent::Skin, &variations, None, Some(&e), &base),
        Some("textures\\BakedNpcTextures\\Baked.blp".to_string())
    );
    assert_eq!(dynamic_texture_name(TextureComponent::CharacterHair, &variations, None, Some(&e), &base), None);
    let hair = section(3, 4, 5, "Hair\\HumanHair");
    assert_eq!(
        dynamic_texture_name(TextureComponent::CharacterHair, &variations, Some(&hair), None, &base),
        Some("creature\\wolf\\Hair\\HumanHair.blp".to_string())
    );
    assert_eq!(dynamic_texture_name(TextureComponent::Other, &variations, None, Some(&e), &base), None);
}

#[test]
fn light_bands_lookup_and_rows() {
    let row = LightBandRow { num: 3, time: [0, 100, 200, 300, 0, 0, 0, 0, 0, 0, 0, 0, 0, 0, 0, 0], data: [7, 8, 9, 10, 0, 0, 0, 0, 0, 0, 0, 0, 0, 0, 0, 0] };
    let band = LightBandEntry::new(&row);
    assert_eq!(band.data.len(), 3);
    assert_eq!(band.get_value_for_time(100), Some(&8));
    assert_eq!(band.get_value_for_time(300), None);
    assert_eq!(band.get_tuple_for_time(200).map(|t| (t.time, t.data)), Some((200, 9)));
    let all = LightBandEntry::new(&LightBandRow { num: -1, time: [1; 16], data: [0.5f32; 16] });
    assert_eq!(all.data.len(), 16);
    assert_eq!(all.get_value_for_time(1), Some(&0.5));
    let entry = LightBandEntry { data: vec![LightBandTuple { time: 5, data: 1 }, LightBandTuple { time: 5, data: 2 }] };
    assert_eq!(entry.get_value_for_time(5), Some(&1));

    let rows: Vec<LightBandRow<i32>> = (0..40).map(|i| LightBandRow { num: 1, time: [0; 16], data: [i; 16] }).collect();
    let bands = bands_for_params(&rows, 2, 18);
    assert_eq!(bands.len(), 18);
    assert_eq!(bands[0].data[0].data, 19);
    assert_eq!(bands[17].data[0].data, 36);
    assert_eq!(light_indices_for_map(&vec![0, 1, 0, 530], 0), vec![0, 2]);
}

#[test]
fn game_time_ticks() {
    assert_eq!(ticks_from_time(0, 0), 0);
    assert_eq!(ticks_from_time(12, 30), 1500);
    assert_eq!(ticks_from_time(23, 59), 2878);
    assert_eq!(advance_tick(0), 1);
    assert_eq!(advance_tick(2878), 2879);
    assert_eq!(advance_tick(2879), 0);
    assert_eq!(advance_tick(u16::MAX), 0);
    let mut t = 2000;
    for _ in 0..2880 {
        t = advance_tick(t);
        assert!(t < 2880);
    }
    assert_eq!(t, 2000);
}

#[test]
fn movement_packets() {
    assert!(is_moving(0x1) && is_moving(0x8) && !is_moving(0x1000));
    assert_eq!(decide_movement_packet(0, 0x1, 0).packet, MovementPacket::Stop);
    assert_eq!(decide_movement_packet(0, 0, 1000).packet, MovementPacket::Nothing);
    assert_eq!(decide_movement_packet(0x1, 0, 0).packet, MovementPacket::StartForward);
    assert_eq!(decide_movement_packet(0x2, 0x1, 0).packet, MovementPacket::StartBackward);
    assert_eq!(decide_movement_packet(0x6, 0, 0).packet, MovementPacket::StartBackward);
    assert_eq!(decide_movement_packet(0x4, 0, 0).packet, MovementPacket::StartStrafeLeft);
    assert_eq!(decide_movement_packet(0x8, 0, 0).packet, MovementPacket::StartStrafeRight);
    let falling = decide_movement_packet(0x1000, 0, 0);
    assert_eq!(falling.packet, MovementPacket::Nothing);
    assert!(falling.reset_heartbeat);
    assert_eq!(decide_movement_packet(0x1, 0x1, 499).packet, MovementPacket::Nothing);
    let beat = decide_movement_packet(0x1, 0x1, 500);
    assert_eq!(beat.packet, MovementPacket::Heartbeat);
    assert!(beat.reset_heartbeat);
}

#[test]
fn server_packet_headers() {
    assert!(is_large_header(0x80));
    assert!(!is_large_header(0x7F));
    assert_eq!(small_header_size_and_opcode([0x00, 0x06, 0xEF, 0x02]), (4, 0x02EF));
    assert_eq!(small_header_size_and_opcode([0x00, 0x01, 0x01, 0x00]), (0, 1));
    assert_eq!(large_header_size_and_opcode([0x81, 0x00, 0x05, 0xAB], 0xCD), (0x10002, 0xCDAB));
    assert_eq!(large_header_size_and_opcode([0x80, 0x00, 0x02, 0x01], 0x00), (0, 1));
}

#[test]
fn spline_steps() {
    assert_eq!(spline_step(0, 3, false), SplineStep::Interpolate { from: 0, to: 1 });
    assert_eq!(spline_step(1, 3, false), SplineStep::Interpolate { from: 1, to: 2 });
    assert_eq!(spline_step(2, 3, false), SplineStep::Finish { last: 2 });
    assert_eq!(spline_step(2, 3, true), SplineStep::Restart);
    assert_eq!(spline_step(0, 1, false), SplineStep::Finish { last: 0 });
    let _system = SplineWalkerSystem::new();
}

#[test]
fn doodad_and_map_object_names() {
    assert_eq!(doodad_model("World\\Generic\\Trees\\Elm.MDX").as_deref(), Some("world\\generic\\trees\\elm.m2"));
    assert_eq!(doodad_model("World\\Generic\\Torch.mdl").as_deref(), Some("world\\generic\\torch.m2"));
    assert!(doodad_model("World\\Generic\\FireEmitter.MDX").is_none());
    assert!(is_skipped_wmo("World\\wmo\\Stormwind\\STORMWIND.WMO"));
    assert!(!is_skipped_wmo("World\\wmo\\Stormwind\\stormwind.wmo"));
    assert!(!is_skipped_wmo("World\\wmo\\Goldshire\\Inn.WMO"));
}
