//! The character sections (skin, face, hair, facial hair, underwear textures) of a creature's
//! appearance, and the names of the textures that the creature's model takes from it.
use crate::geosets::{
    BASE_SECTION_BASE_SKIN, BASE_SECTION_FACE, BASE_SECTION_FACIAL_HAIR, BASE_SECTION_HAIR,
    BASE_SECTION_UNDERWEAR,
};
use crate::tables::Keyed;
use vstd::prelude::*;

verus! {

/// A row of the character sections table.
pub struct CharSection {
    pub race_id: i32,
    pub sex_id: i32,
    pub base_section: i32,
    pub texture_name: [String; 3],
    pub variation_index: i32,
    pub color_index: i32,
}

/// A row of the character hair geosets table.
#[derive(Debug, Clone, Copy)]
pub struct CharHairGeoset {
    pub race_id: i32,
    pub sex_id: i32,
    pub variation_id: i32,
    pub geoset_id: i32,
}

/// A row of the character facial hair styles table.
#[derive(Debug, Clone, Copy)]
pub struct FacialHairStyle {
    pub race_id: i32,
    pub sex_id: i32,
    pub variation_id: i32,
    pub geoset: [i32; 5],
}

/// A row of the creature display info extra table: the appearance of a humanoid creature.
pub struct CreatureDisplayInfoExtra {
    pub id: i32,
    pub display_race_id: i32,
    pub display_sex_id: i32,
    pub skin_id: i32,
    pub face_id: i32,
    pub hair_style_id: i32,
    pub hair_color_id: i32,
    pub facial_hair_id: i32,
    pub n_p_c_item_display: [i32; 11],
    pub bake_name: String,
}

impl Keyed for CreatureDisplayInfoExtra {
    open spec fn key_spec(&self) -> i32 {
        self.id
    }

    fn key(&self) -> (k: i32) {
        self.id
    }
}

/// What a section is looked up by: race, sex, base section, variation (where it counts) and
/// color.
pub struct SectionKey {
    pub race_id: i32,
    pub sex_id: i32,
    pub base_section: i32,
    pub variation_index: Option<i32>,
    pub color_index: i32,
}

/// The section has the key.
pub open spec fn section_matches(section: CharSection, key: SectionKey) -> bool {
    &&& section.race_id == key.race_id
    &&& section.sex_id == key.sex_id
    &&& section.base_section == key.base_section
    &&& key.variation_index matches Some(v) ==> section.variation_index == v
    &&& section.color_index == key.color_index
}

/// The sections with the key, in table order.
pub open spec fn matching_sections(sections: Seq<CharSection>, key: SectionKey) -> Seq<CharSection> {
    sections.filter(|s: CharSection| section_matches(s, key))
}

/// The section with the key, where exactly one section has it.
pub fn unique_section<'a>(sections: &'a Vec<CharSection>, key: &SectionKey) -> (r: Option<
    &'a CharSection,
>)
    ensures
        r is Some <==> matching_sections(sections@, *key).len() == 1,
        r matches Some(s) ==> *s == matching_sections(sections@, *key)[0],
{
    let ghost pred = |s: CharSection| section_matches(s, *key);
    let n = sections.len();
    let mut count: usize = 0;
    let mut first: Option<&'a CharSection> = None;
    let mut i: usize = 0;
    while i < n
        invariant
            n == sections@.len(),
            i <= n,
            forall|s: CharSection| #[trigger] pred(s) == section_matches(s, *key),
            count == sections@.subrange(0, i as int).filter(pred).len(),
            count <= i,
            count == 0 <==> first is None,
            first matches Some(f) ==> *f == sections@.subrange(0, i as int).filter(pred)[0],
        decreases n - i,
    {
        proof {
            sections@.subrange(0, i as int).lemma_filter_push(sections@[i as int], pred);
            assert(sections@.subrange(0, i + 1) =~= sections@.subrange(0, i as int).push(
                sections@[i as int],
            ));
        }
        let section = &sections[i];
        let variation_ok = match key.variation_index {
            Some(v) => section.variation_index == v,
            None => true,
        };
        if section.race_id == key.race_id && section.sex_id == key.sex_id && section.base_section
            == key.base_section && variation_ok && section.color_index == key.color_index {
            assert(pred(sections@[i as int]));
            if count == 0 {
                first = Some(section);
            }
            count += 1;
        }
        i += 1;
    }
    assert(sections@.subrange(0, n as int) =~= sections@);
    if count == 1 {
        first
    } else {
        None
    }
}

/// The hair style of the appearance: the first one of its race and sex with its variation.
pub open spec fn hair_style_for(
    styles: Seq<CharHairGeoset>,
    extra: CreatureDisplayInfoExtra,
) -> Seq<CharHairGeoset> {
    styles.filter(
        |geo: CharHairGeoset|
            geo.sex_id == extra.display_sex_id && geo.race_id == extra.display_race_id
                && geo.variation_id == extra.hair_style_id,
    )
}

/// The facial hair styles of the appearance's race and sex with its variation.
pub open spec fn facial_hair_style_for(
    styles: Seq<FacialHairStyle>,
    extra: CreatureDisplayInfoExtra,
) -> Seq<FacialHairStyle> {
    styles.filter(
        |geo: FacialHairStyle|
            geo.sex_id == extra.display_sex_id && geo.race_id == extra.display_race_id
                && geo.variation_id == extra.facial_hair_id,
    )
}

/// The key of a section of the appearance.
pub open spec fn key_of(
    extra: CreatureDisplayInfoExtra,
    base_section: i32,
    variation_index: Option<i32>,
    color_index: i32,
) -> SectionKey {
    SectionKey {
        race_id: extra.display_race_id,
        sex_id: extra.display_sex_id,
        base_section,
        variation_index,
        color_index,
    }
}

/// The section with the key, where exactly one section has it.
pub open spec fn unique_match(sections: Seq<CharSection>, key: SectionKey) -> Option<CharSection> {
    let m = matching_sections(sections, key);
    if m.len() == 1 {
        Some(m[0])
    } else {
        None
    }
}

/// The hair style and hair section of the appearance: the first style of its race, sex and
/// variation, and the unique section of that variation in the hair color.
pub open spec fn hair_of(
    extra: CreatureDisplayInfoExtra,
    styles: Seq<CharHairGeoset>,
    sections: Seq<CharSection>,
) -> Option<(CharHairGeoset, CharSection)> {
    let found = hair_style_for(styles, extra);
    if found.len() == 0 {
        None
    } else {
        match unique_match(
            sections,
            key_of(extra, BASE_SECTION_HAIR, Some(found[0].variation_id), extra.hair_color_id),
        ) {
            Some(section) => Some((found[0], section)),
            None => None,
        }
    }
}

/// The facial hair geosets and facial hair section of the appearance: those of the first
/// style of its race, sex and variation, and the unique section of that variation in the hair
/// color.
pub open spec fn facial_hair_of(
    extra: CreatureDisplayInfoExtra,
    sections: Seq<CharSection>,
    styles: Seq<FacialHairStyle>,
) -> Option<([i32; 5], CharSection)> {
    let found = facial_hair_style_for(styles, extra);
    if found.len() == 0 {
        None
    } else {
        match unique_match(
            sections,
            key_of(
                extra,
                BASE_SECTION_FACIAL_HAIR,
                Some(found[0].variation_id),
                extra.hair_color_id,
            ),
        ) {
            Some(section) => Some((found[0].geoset, section)),
            None => None,
        }
    }
}

/// The underwear section of the appearance, where exactly one section matches.
pub open spec fn underwear_of(extra: CreatureDisplayInfoExtra, sections: Seq<CharSection>) -> Option<
    CharSection,
> {
    unique_match(sections, key_of(extra, BASE_SECTION_UNDERWEAR, None, extra.skin_id))
}

fn section_key(
    extra: &CreatureDisplayInfoExtra,
    base_section: i32,
    variation_index: Option<i32>,
    color_index: i32,
) -> (k: SectionKey)
    ensures
        k == key_of(*extra, base_section, variation_index, color_index),
{
    SectionKey {
        race_id: extra.display_race_id,
        sex_id: extra.display_sex_id,
        base_section,
        variation_index,
        color_index,
    }
}

/// The base skin section of the appearance, if exactly one section matches.
pub fn get_base_skin_section<'a>(
    creature_display_info_extra: &CreatureDisplayInfoExtra,
    char_sections: &'a Vec<CharSection>,
) -> (r: Option<&'a CharSection>)
    ensures
        ({
            let m = matching_sections(
                char_sections@,
                key_of(
                    *creature_display_info_extra,
                    BASE_SECTION_BASE_SKIN,
                    None,
                    creature_display_info_extra.skin_id,
                ),
            );
            &&& r is Some <==> m.len() == 1
            &&& r matches Some(s) ==> *s == m[0]
        }),
{
    let key = section_key(
        creature_display_info_extra,
        BASE_SECTION_BASE_SKIN,
        None,
        creature_display_info_extra.skin_id,
    );
    unique_section(char_sections, &key)
}

/// The face section of the appearance, if exactly one section matches.
pub fn get_face_section<'a>(
    creature_display_info_extra: &CreatureDisplayInfoExtra,
    char_sections: &'a Vec<CharSection>,
) -> (r: Option<&'a CharSection>)
    ensures
        ({
            let m = matching_sections(
                char_sections@,
                key_of(
                    *creature_display_info_extra,
                    BASE_SECTION_FACE,
                    Some(creature_display_info_extra.face_id),
                    creature_display_info_extra.skin_id,
                ),
            );
            &&& r is Some <==> m.len() == 1
            &&& r matches Some(s) ==> *s == m[0]
        }),
{
    let key = section_key(
        creature_display_info_extra,
        BASE_SECTION_FACE,
        Some(creature_display_info_extra.face_id),
        creature_display_info_extra.skin_id,
    );
    unique_section(char_sections, &key)
}

/// The underwear section of the appearance, if exactly one section matches.
pub fn get_underwear_section<'a>(
    creature_display_info_extra: &CreatureDisplayInfoExtra,
    char_sections: &'a Vec<CharSection>,
) -> (r: Option<&'a CharSection>)
    ensures
        ({
            let m = matching_sections(
                char_sections@,
                key_of(
                    *creature_display_info_extra,
                    BASE_SECTION_UNDERWEAR,
                    None,
                    creature_display_info_extra.skin_id,
                ),
            );
            &&& r is Some <==> m.len() == 1
            &&& r matches Some(s) ==> *s == m[0]
        }),
{
    let key = section_key(
        creature_display_info_extra,
        BASE_SECTION_UNDERWEAR,
        None,
        creature_display_info_extra.skin_id,
    );
    unique_section(char_sections, &key)
}

/// The hair style of the appearance and its hair section: the first style of its race, sex
/// and variation, and the section of that variation in the hair color, if exactly one matches.
pub fn get_hair_section<'a>(
    creature_display_info_extra: &CreatureDisplayInfoExtra,
    char_hair_geosets: &'a Vec<CharHairGeoset>,
    char_sections: &'a Vec<CharSection>,
) -> (r: Option<(&'a CharHairGeoset, &'a CharSection)>)
    ensures
        ({
            let styles = hair_style_for(char_hair_geosets@, *creature_display_info_extra);
            match r {
                None => styles.len() == 0 || matching_sections(
                    char_sections@,
                    key_of(
                        *creature_display_info_extra,
                        BASE_SECTION_HAIR,
                        Some(styles[0].variation_id),
                        creature_display_info_extra.hair_color_id,
                    ),
                ).len() != 1,
                Some((hair, section)) => {
                    let m = matching_sections(
                        char_sections@,
                        key_of(
                            *creature_display_info_extra,
                            BASE_SECTION_HAIR,
                            Some(styles[0].variation_id),
                            creature_display_info_extra.hair_color_id,
                        ),
                    );
                    &&& styles.len() > 0
                    &&& *hair == styles[0]
                    &&& m.len() == 1
                    &&& *section == m[0]
                },
            }
        }),
{
    let ghost pred = |geo: CharHairGeoset|
        geo.sex_id == creature_display_info_extra.display_sex_id && geo.race_id
            == creature_display_info_extra.display_race_id && geo.variation_id
            == creature_display_info_extra.hair_style_id;
    assert(hair_style_for(char_hair_geosets@, *creature_display_info_extra)
        == char_hair_geosets@.filter(pred));
    let n = char_hair_geosets.len();
    let mut i: usize = 0;
    let mut hair_opt: Option<&'a CharHairGeoset> = None;
    assert(char_hair_geosets@.subrange(0, n as int) =~= char_hair_geosets@);
    while i < n
        invariant_except_break
            hair_opt is None,
        invariant
            n == char_hair_geosets@.len(),
            i <= n,
            forall|g: CharHairGeoset| #[trigger]
                pred(g) == (g.sex_id == creature_display_info_extra.display_sex_id && g.race_id
                    == creature_display_info_extra.display_race_id && g.variation_id
                    == creature_display_info_extra.hair_style_id),
            char_hair_geosets@.subrange(0, i as int).filter(pred).len() == 0,
            char_hair_geosets@.subrange(0, n as int) == char_hair_geosets@,
        ensures
            hair_opt is None ==> char_hair_geosets@.filter(pred).len() == 0,
            hair_opt matches Some(h) ==> char_hair_geosets@.filter(pred).len() > 0 && *h
                == char_hair_geosets@.filter(pred)[0],
        decreases n - i,
    {
        proof {
            char_hair_geosets@.subrange(0, i as int).lemma_filter_push(
                char_hair_geosets@[i as int],
                pred,
            );
            assert(char_hair_geosets@.subrange(0, i + 1) =~= char_hair_geosets@.subrange(
                0,
                i as int,
            ).push(char_hair_geosets@[i as int]));
        }
        let geo = &char_hair_geosets[i];
        if geo.sex_id == creature_display_info_extra.display_sex_id && geo.race_id
            == creature_display_info_extra.display_race_id && geo.variation_id
            == creature_display_info_extra.hair_style_id {
            proof {
                lemma_filter_first(char_hair_geosets@, pred, i as int);
            }
            hair_opt = Some(geo);
            break;
        }
        i += 1;
    }
    assert(char_hair_geosets@.subrange(0, n as int) =~= char_hair_geosets@);
    let Some(hair) = hair_opt else {
        return None;
    };
    let key = section_key(
        creature_display_info_extra,
        BASE_SECTION_HAIR,
        Some(hair.variation_id),
        creature_display_info_extra.hair_color_id,
    );
    match unique_section(char_sections, &key) {
        Some(section) => Some((hair, section)),
        None => None,
    }
}

/// The facial hair style of the appearance (its geosets) and its facial hair section: the first
/// style of its race, sex and variation, and the section of that variation in the hair color,
/// if exactly one matches.
pub fn get_facial_hair_section<'a>(
    creature_display_info_extra: &CreatureDisplayInfoExtra,
    char_sections: &'a Vec<CharSection>,
    char_hair_styles: &'a Vec<FacialHairStyle>,
) -> (r: Option<([i32; 5], &'a CharSection)>)
    ensures
        ({
            let styles = facial_hair_style_for(char_hair_styles@, *creature_display_info_extra);
            match r {
                None => styles.len() == 0 || matching_sections(
                    char_sections@,
                    key_of(
                        *creature_display_info_extra,
                        BASE_SECTION_FACIAL_HAIR,
                        Some(styles[0].variation_id),
                        creature_display_info_extra.hair_color_id,
                    ),
                ).len() != 1,
                Some((geoset, section)) => {
                    let m = matching_sections(
                        char_sections@,
                        key_of(
                            *creature_display_info_extra,
                            BASE_SECTION_FACIAL_HAIR,
                            Some(styles[0].variation_id),
                            creature_display_info_extra.hair_color_id,
                        ),
                    );
                    &&& styles.len() > 0
                    &&& geoset == styles[0].geoset
                    &&& m.len() == 1
                    &&& *section == m[0]
                },
            }
        }),
{
    let ghost pred = |geo: FacialHairStyle|
        geo.sex_id == creature_display_info_extra.display_sex_id && geo.race_id
            == creature_display_info_extra.display_race_id && geo.variation_id
            == creature_display_info_extra.facial_hair_id;
    assert(facial_hair_style_for(char_hair_styles@, *creature_display_info_extra)
        == char_hair_styles@.filter(pred));
    let n = char_hair_styles.len();
    let mut i: usize = 0;
    let mut hair_opt: Option<&'a FacialHairStyle> = None;
    assert(char_hair_styles@.subrange(0, n as int) =~= char_hair_styles@);
    while i < n
        invariant_except_break
            hair_opt is None,
        invariant
            n == char_hair_styles@.len(),
            i <= n,
            forall|g: FacialHairStyle| #[trigger]
                pred(g) == (g.sex_id == creature_display_info_extra.display_sex_id && g.race_id
                    == creature_display_info_extra.display_race_id && g.variation_id
                    == creature_display_info_extra.facial_hair_id),
            char_hair_styles@.subrange(0, i as int).filter(pred).len() == 0,
            char_hair_styles@.subrange(0, n as int) == char_hair_styles@,
        ensures
            hair_opt is None ==> char_hair_styles@.filter(pred).len() == 0,
            hair_opt matches Some(h) ==> char_hair_styles@.filter(pred).len() > 0 && *h
                == char_hair_styles@.filter(pred)[0],
        decreases n - i,
    {
        proof {
            char_hair_styles@.subrange(0, i as int).lemma_filter_push(
                char_hair_styles@[i as int],
                pred,
            );
            assert(char_hair_styles@.subrange(0, i + 1) =~= char_hair_styles@.subrange(
                0,
                i as int,
            ).push(char_hair_styles@[i as int]));
        }
        let geo = &char_hair_styles[i];
        if geo.sex_id == creature_display_info_extra.display_sex_id && geo.race_id
            == creature_display_info_extra.display_race_id && geo.variation_id
            == creature_display_info_extra.facial_hair_id {
            proof {
                lemma_filter_first(char_hair_styles@, pred, i as int);
            }
            hair_opt = Some(geo);
            break;
        }
        i += 1;
    }
    let Some(hair) = hair_opt else {
        return None;
    };
    let key = section_key(
        creature_display_info_extra,
        BASE_SECTION_FACIAL_HAIR,
        Some(hair.variation_id),
        creature_display_info_extra.hair_color_id,
    );
    match unique_section(char_sections, &key) {
        Some(section) => Some((hair.geoset, section)),
        None => None,
    }
}

/// The first element of a filter is the first element that satisfies the predicate.
proof fn lemma_filter_first<A>(s: Seq<A>, pred: spec_fn(A) -> bool, i: int)
    requires
        0 <= i < s.len(),
        pred(s[i]),
        s.subrange(0, i).filter(pred).len() == 0,
    ensures
        s.filter(pred).len() > 0,
        s.filter(pred)[0] == s[i],
    decreases s.len(),
{
    broadcast use vstd::seq_lib::group_filter_ensures;

    reveal(Seq::filter);
    if i == s.len() - 1 {
        assert(s.drop_last() =~= s.subrange(0, i));
    } else {
        assert(s.drop_last().subrange(0, i) =~= s.subrange(0, i));
        lemma_filter_first(s.drop_last(), pred, i);
        assert(s.filter(pred).len() >= s.drop_last().filter(pred).len());
    }
}

} // verus!
