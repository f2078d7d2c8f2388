use sargerust::char_sections::{CharHairGeoset, CharSection, CreatureDisplayInfoExtra, FacialHairStyle};
use sargerust::display_resolver::{
    CreatureDisplayInfoRow, CreatureModelDataRow, DisplayIdResolverSystem, ItemDisplayInfoRow, ResolveError,
};
use sargerust::textures::TextureComponent;

fn section(base_section: i32, variation_index: i32, color_index: i32, texture: &str) -> CharSection {
    CharSection {
        race_id: 1,
        sex_id: 0,
        base_section,
        texture_name: [texture.to_string(), String::new(), String::new()],
        variation_index,
        color_index,
    }
}

fn display(id: i32, model_id: i32, extra_id: i32) -> CreatureDisplayInfoRow {
    CreatureDisplayInfoRow {
        id,
        model_id,
        extended_display_info_id: extra_id,
        texture_variation: ["WolfSkin".to_string(), String::new(), "Fur.blp".to_string()],
    }
}

fn resolver() -> DisplayIdResolverSystem {
    let mut items = [0; 11];
    items[6] = 500; // boots
    items[7] = 600; // wrists: the row has no geoset groups
    let extra = CreatureDisplayInfoExtra {
        id: 7,
        display_race_id: 1,
        display_sex_id: 0,
        skin_id: 2,
        face_id: 3,
        hair_style_id: 4,
        hair_color_id: 5,
        facial_hair_id: 6,
        n_p_c_item_display: items,
        bake_name: "HumanMale.blp".to_string(),
    };
    let mut broken_items = [0; 11];
    broken_items[7] = 700; // wrists with a geoset group: cannot be shown
    let broken = CreatureDisplayInfoExtra { id: 8, n_p_c_item_display: broken_items, ..extra.clone_fields() };
    DisplayIdResolverSystem::new(
        vec![display(10, 20, 7), display(11, 99, 7), display(12, 21, 0), display(13, 20, 8)],
        vec![extra, broken],
        vec![
            CreatureModelDataRow { id: 20, model_name: "Creature\\Human\\Male.MDX".to_string() },
            CreatureModelDataRow { id: 21, model_name: "Creature\\Wolf\\Wolf.mdx".to_string() },
        ],
        vec![
            section(3, 4, 5, "HairTex.blp"),
            section(2, 6, 5, "Beard.blp"),
            section(4, 1, 2, "Underwear.blp"),
        ],
        vec![CharHairGeoset { race_id: 1, sex_id: 0, variation_id: 4, geoset_id: 5 }],
        vec![FacialHairStyle { race_id: 1, sex_id: 0, variation_id: 6, geoset: [1, 2, 3, 0, 0] }],
        vec![
            ItemDisplayInfoRow { id: 500, geoset_group: [2, 0, 0] },
            ItemDisplayInfoRow { id: 600, geoset_group: [0, 0, 0] },
            ItemDisplayInfoRow { id: 700, geoset_group: [1, 0, 0] },
        ],
    )
}

trait CloneFields {
    fn clone_fields(&self) -> Self;
}

impl CloneFields for CreatureDisplayInfoExtra {
    fn clone_fields(&self) -> Self {
        CreatureDisplayInfoExtra {
            id: self.id,
            display_race_id: self.display_race_id,
            display_sex_id: self.display_sex_id,
            skin_id: self.skin_id,
            face_id: self.face_id,
            hair_style_id: self.hair_style_id,
            hair_color_id: self.hair_color_id,
            facial_hair_id: self.facial_hair_id,
            n_p_c_item_display: self.n_p_c_item_display,
            bake_name: self.bake_name.clone(),
        }
    }
}

#[test]
fn display_id_resolves_to_model_geosets_and_textures() {
    let system = resolver();
    let kinds = vec![
        TextureComponent::Monster1,
        TextureComponent::Monster2,
        TextureComponent::Monster3,
        TextureComponent::CharacterHair,
        TextureComponent::Skin,
        TextureComponent::Other,
    ];
    let resolved = system.resolve(10, &kinds).unwrap();
    assert_eq!(resolved.model_name, "creature\\human\\male.m2");
    assert_eq!(resolved.base_path, "creature\\human");
    assert_eq!(
        resolved.textures,
        vec![
            Some("creature\\human\\WolfSkin.blp".to_string()),
            None,
            Some("Fur.blp".to_string()),
            Some("HairTex.blp".to_string()),
            Some("textures\\BakedNpcTextures\\HumanMale.blp".to_string()),
            None,
        ]
    );
    // facial hair 101, 202, 303, 1600, 1700; hair 5; underwear 402; boots 503.
    for geoset in [101u16, 202, 303, 1600, 1700, 5, 402, 503, 0] {
        assert!(resolved.geosets.contains(&geoset), "missing {}", geoset);
    }
    assert!(!resolved.geosets.contains(&401));
    assert!(!resolved.geosets.contains(&501));
    assert!(resolved.geosets.contains(&702));
    assert_eq!(resolved.geosets.len(), 30);
}

#[test]
fn display_without_appearance_uses_defaults() {
    let system = resolver();
    let resolved = system.resolve(12, &vec![TextureComponent::CharacterHair, TextureComponent::Skin]).unwrap();
    assert_eq!(resolved.model_name, "creature\\wolf\\wolf.m2");
    assert_eq!(resolved.textures, vec![None, None]);
    assert_eq!(resolved.geosets.len(), 29);
}

#[test]
fn resolve_errors() {
    let system = resolver();
    assert!(matches!(system.resolve(99, &vec![]), Err(ResolveError::NoDisplayInfo)));
    assert!(matches!(system.resolve(11, &vec![]), Err(ResolveError::NoModelData)));
    assert!(matches!(system.resolve(13, &vec![]), Err(ResolveError::UnshowableGeosets)));
}

#[test]
fn model_without_folder_is_refused() {
    let mut system = resolver();
    system.creature_model_data[0].model_name = "Male.mdx".to_string();
    assert!(matches!(system.resolve(10, &vec![]), Err(ResolveError::NoModelFolder)));
}
