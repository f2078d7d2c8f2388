//! Resolving the display id of a creature into the model to load, the geosets to show and the
//! files of its dynamic textures.
use crate::char_sections::{
    facial_hair_of, get_facial_hair_section, get_hair_section, get_underwear_section, hair_of,
    underwear_of, CharHairGeoset, CharSection, CreatureDisplayInfoExtra, FacialHairStyle,
};
use crate::geosets::{
    geoset_whitelist, shown_geosets, sources_showable, sources_valid, GeosetSources,
    GeosetSourcesView,
};
use crate::tables::{find_row, lookup, Keyed};
use crate::text::opt_view;
use crate::textures::{
    dynamic_texture, dynamic_texture_name, fix_model_name, fixed_model_name, folder_of,
    model_base_path, TextureComponent,
};
use std::collections::HashSet;
use vstd::prelude::*;

verus! {

/// A row of the creature display info table, with the fields that the resolver reads.
pub struct CreatureDisplayInfoRow {
    pub id: i32,
    pub model_id: i32,
    pub extended_display_info_id: i32,
    pub texture_variation: [String; 3],
}

/// A row of the creature model data table, with the fields that the resolver reads.
pub struct CreatureModelDataRow {
    pub id: i32,
    pub model_name: String,
}

/// A row of the item display info table, with the fields that the resolver reads.
#[derive(Debug, Clone, Copy)]
pub struct ItemDisplayInfoRow {
    pub id: i32,
    pub geoset_group: [i32; 3],
}

impl Keyed for CreatureDisplayInfoRow {
    open spec fn key_spec(&self) -> i32 {
        self.id
    }

    fn key(&self) -> (k: i32) {
        self.id
    }
}

impl Keyed for CreatureModelDataRow {
    open spec fn key_spec(&self) -> i32 {
        self.id
    }

    fn key(&self) -> (k: i32) {
        self.id
    }
}

impl Keyed for ItemDisplayInfoRow {
    open spec fn key_spec(&self) -> i32 {
        self.id
    }

    fn key(&self) -> (k: i32) {
        self.id
    }
}

/// Why a display id could not be resolved.
#[derive(Debug, Clone, Copy, PartialEq, Eq, Structural)]
pub enum ResolveError {
    /// The display info table has no row for the display id.
    NoDisplayInfo,
    /// The model data table has no row for the display's model.
    NoModelData,
    /// The model's file name has no folder.
    NoModelFolder,
    /// The appearance or the items give geosets that cannot be shown.
    UnshowableGeosets,
}

/// What a display id resolves to: the model file, its folder, the geosets to show, and for
/// each dynamic texture of the model the texture file (`None` where it has none).
pub struct ResolvedDisplay {
    pub model_name: String,
    pub base_path: String,
    pub geosets: HashSet<u16>,
    pub textures: Vec<Option<String>>,
}

/// The tables that display ids are resolved with.
pub struct DisplayIdResolverSystem {
    pub creature_display_info: Vec<CreatureDisplayInfoRow>,
    pub creature_display_info_extra: Vec<CreatureDisplayInfoExtra>,
    pub creature_model_data: Vec<CreatureModelDataRow>,
    pub char_sections: Vec<CharSection>,
    pub char_hair_geosets: Vec<CharHairGeoset>,
    pub char_facial_hair_styles: Vec<FacialHairStyle>,
    pub item_display_info: Vec<ItemDisplayInfoRow>,
}

/// The geoset groups of the items with the given ids (`None` for an id with no row).
pub open spec fn item_groups(items: Seq<ItemDisplayInfoRow>, ids: Seq<i32>) -> Seq<
    Option<[i32; 3]>,
> {
    Seq::new(
        ids.len(),
        |i: int|
            match lookup(items, ids[i]) {
                Some(item) => Some(item.geoset_group),
                None => None,
            },
    )
}

impl DisplayIdResolverSystem {
    /// The geoset sources of an appearance (none without one).
    pub open spec fn geoset_sources(&self, extra: Option<CreatureDisplayInfoExtra>) -> GeosetSourcesView {
        match extra {
            None => GeosetSourcesView {
                facial_hair_geosets: None,
                hair_geoset: None,
                underwear_variation: None,
                items: None,
            },
            Some(e) => GeosetSourcesView {
                facial_hair_geosets: match facial_hair_of(
                    e,
                    self.char_sections@,
                    self.char_facial_hair_styles@,
                ) {
                    Some((geosets, _)) => Some(geosets),
                    None => None,
                },
                hair_geoset: match hair_of(e, self.char_hair_geosets@, self.char_sections@) {
                    Some((style, _)) => Some(style.geoset_id),
                    None => None,
                },
                underwear_variation: match underwear_of(e, self.char_sections@) {
                    Some(section) => Some(section.variation_index),
                    None => None,
                },
                items: Some(item_groups(self.item_display_info@, e.n_p_c_item_display@)),
            },
        }
    }

    /// The hair section of an appearance.
    pub open spec fn hair_section(&self, extra: Option<CreatureDisplayInfoExtra>) -> Option<
        CharSection,
    > {
        match extra {
            Some(e) => match hair_of(e, self.char_hair_geosets@, self.char_sections@) {
                Some((_, section)) => Some(section),
                None => None,
            },
            None => None,
        }
    }

    /// A resolver over the given tables.
    pub fn new(
        creature_display_info: Vec<CreatureDisplayInfoRow>,
        creature_display_info_extra: Vec<CreatureDisplayInfoExtra>,
        creature_model_data: Vec<CreatureModelDataRow>,
        char_sections: Vec<CharSection>,
        char_hair_geosets: Vec<CharHairGeoset>,
        char_facial_hair_styles: Vec<FacialHairStyle>,
        item_display_info: Vec<ItemDisplayInfoRow>,
    ) -> (s: Self)
        ensures
            s.creature_display_info@ == creature_display_info@,
            s.creature_display_info_extra@ == creature_display_info_extra@,
            s.creature_model_data@ == creature_model_data@,
            s.char_sections@ == char_sections@,
            s.char_hair_geosets@ == char_hair_geosets@,
            s.char_facial_hair_styles@ == char_facial_hair_styles@,
            s.item_display_info@ == item_display_info@,
    {
        DisplayIdResolverSystem {
            creature_display_info,
            creature_display_info_extra,
            creature_model_data,
            char_sections,
            char_hair_geosets,
            char_facial_hair_styles,
            item_display_info,
        }
    }

    /// The geoset groups of the items that an appearance shows.
    fn item_groups_of(&self, extra: &CreatureDisplayInfoExtra) -> (r: Vec<Option<[i32; 3]>>)
        ensures
            r@ == item_groups(self.item_display_info@, extra.n_p_c_item_display@),
    {
        let mut groups: Vec<Option<[i32; 3]>> = Vec::new();
        let mut i: usize = 0;
        while i < 11
            invariant
                i <= 11,
                groups@ == item_groups(self.item_display_info@, extra.n_p_c_item_display@).take(
                    i as int,
                ),
            decreases 11 - i,
        {
            let group = match find_row(&self.item_display_info, extra.n_p_c_item_display[i]) {
                Some(item) => Some(item.geoset_group),
                None => None,
            };
            groups.push(group);
            i += 1;
            assert(groups@ =~= item_groups(
                self.item_display_info@,
                extra.n_p_c_item_display@,
            ).take(i as int));
        }
        assert(groups@ =~= item_groups(self.item_display_info@, extra.n_p_c_item_display@));
        groups
    }

    /// Resolves a display id: the model file of its model data (fixed for loading) and its
    /// folder, the geosets that its appearance and items show, and the file of each dynamic
    /// texture that the model asks for, of the given kinds.
    pub fn resolve(&self, display_id: i32, texture_kinds: &Vec<TextureComponent>) -> (r: Result<
        ResolvedDisplay,
        ResolveError,
    >)
        ensures
            match lookup(self.creature_display_info@, display_id) {
                None => r == Err::<ResolvedDisplay, ResolveError>(ResolveError::NoDisplayInfo),
                Some(info) => match lookup(self.creature_model_data@, info.model_id) {
                    None => r == Err::<ResolvedDisplay, ResolveError>(ResolveError::NoModelData),
                    Some(model) => {
                        let name = fixed_model_name(model.model_name@);
                        let extra = lookup(
                            self.creature_display_info_extra@,
                            info.extended_display_info_id,
                        );
                        let sources = self.geoset_sources(extra);
                        match folder_of(name) {
                            None => r == Err::<ResolvedDisplay, ResolveError>(
                                ResolveError::NoModelFolder,
                            ),
                            Some(base) => if !sources_valid(sources) {
                                r == Err::<ResolvedDisplay, ResolveError>(
                                    ResolveError::UnshowableGeosets,
                                )
                            } else {
                                &&& r is Ok
                                &&& r->Ok_0.model_name@ == name
                                &&& r->Ok_0.base_path@ == base
                                &&& r->Ok_0.geosets@ == shown_geosets(sources)
                                &&& r->Ok_0.textures@.len() == texture_kinds@.len()
                                &&& forall|i: int|
                                    0 <= i < texture_kinds@.len() ==> opt_view(
                                        #[trigger] r->Ok_0.textures@[i],
                                    ) == dynamic_texture(
                                        texture_kinds@[i],
                                        info.texture_variation@,
                                        self.hair_section(extra),
                                        extra,
                                        base,
                                    )
                            },
                        }
                    },
                },
            },
    {
        let info = match find_row(&self.creature_display_info, display_id) {
            Some(info) => info,
            None => {
                return Err(ResolveError::NoDisplayInfo);
            },
        };
        let extra = find_row(&self.creature_display_info_extra, info.extended_display_info_id);
        let model = match find_row(&self.creature_model_data, info.model_id) {
            Some(model) => model,
            None => {
                return Err(ResolveError::NoModelData);
            },
        };
        let name = fix_model_name(model.model_name.as_str());
        let base_path = match model_base_path(name.as_str()) {
            Some(base) => base,
            None => {
                return Err(ResolveError::NoModelFolder);
            },
        };
        let ghost extra_spec = lookup(
            self.creature_display_info_extra@,
            info.extended_display_info_id,
        );
        let (hair_section, sources) = match extra {
            Some(cdie) => {
                let hair = get_hair_section(cdie, &self.char_hair_geosets, &self.char_sections);
                let facial_hair = get_facial_hair_section(
                    cdie,
                    &self.char_sections,
                    &self.char_facial_hair_styles,
                );
                let underwear = get_underwear_section(cdie, &self.char_sections);
                let items = self.item_groups_of(cdie);
                let sources = GeosetSources {
                    facial_hair_geosets: match facial_hair {
                        Some((geosets, _)) => Some(geosets),
                        None => None,
                    },
                    hair_geoset: match hair {
                        Some((style, _)) => Some(style.geoset_id),
                        None => None,
                    },
                    underwear_variation: match underwear {
                        Some(section) => Some(section.variation_index),
                        None => None,
                    },
                    items: Some(items),
                };
                let hair_section = match hair {
                    Some((_, section)) => Some(section),
                    None => None,
                };
                (hair_section, sources)
            },
            None => {
                let sources = GeosetSources {
                    facial_hair_geosets: None,
                    hair_geoset: None,
                    underwear_variation: None,
                    items: None,
                };
                (None, sources)
            },
        };
        assert(sources@ == self.geoset_sources(extra_spec));
        assert(match hair_section {
            Some(s) => Some(*s),
            None => None,
        } == self.hair_section(extra_spec));
        let n = texture_kinds.len();
        let mut textures: Vec<Option<String>> = Vec::new();
        let mut i: usize = 0;
        while i < n
            invariant
                n == texture_kinds@.len(),
                i <= n,
                textures@.len() == i,
                forall|k: int|
                    0 <= k < i ==> opt_view(#[trigger] textures@[k]) == dynamic_texture(
                        texture_kinds@[k],
                        info.texture_variation@,
                        self.hair_section(extra_spec),
                        extra_spec,
                        base_path@,
                    ),
                match hair_section {
                    Some(s) => Some(*s),
                    None => None,
                } == self.hair_section(extra_spec),
                match extra {
                    Some(e) => Some(*e),
                    None => None,
                } == extra_spec,
            decreases n - i,
        {
            let texture = dynamic_texture_name(
                texture_kinds[i],
                &info.texture_variation,
                hair_section,
                extra,
                base_path.as_str(),
            );
            textures.push(texture);
            i += 1;
        }
        if !sources_showable(&sources) {
            return Err(ResolveError::UnshowableGeosets);
        }
        let geosets = geoset_whitelist(&sources);
        Ok(ResolvedDisplay { model_name: name, base_path, geosets, textures })
    }
}

} // verus!
