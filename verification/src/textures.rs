//! Names of the model and texture files of a creature.
use crate::char_sections::{CharSection, CreatureDisplayInfoExtra};
use crate::text::{
    contains_str, ends_with, has_infix, has_suffix, opt_view, replace_all, replaced, rfind_char,
};
use vstd::prelude::*;
use vstd::string::StrSliceExecFns;

verus! {

/// What the standard library's `str::to_lowercase` gives for a string (Unicode lower case).
pub uninterp spec fn lowercase(s: Seq<char>) -> Seq<char>;

/// `str::to_lowercase`: the result is named by `lowercase`, a function of the string alone.
#[verifier::external_body]
fn to_lowercase(s: &str) -> (r: String)
    ensures
        r@ == lowercase(s@),
{
    s.to_lowercase()
}

/// The model file name as the tables give it, fixed for loading: lower case, and with the old
/// `.mdx` and `.mdl` extensions replaced by `.m2`.
pub open spec fn fixed_model_name(model_name: Seq<char>) -> Seq<char> {
    replaced(replaced(lowercase(model_name), ".mdx"@, ".m2"@), ".mdl"@, ".m2"@)
}

/// The model file name, fixed for loading.
pub fn fix_model_name(model_name: &str) -> (name: String)
    ensures
        name@ == fixed_model_name(model_name@),
{
    proof {
        reveal_strlit(".mdx");
        reveal_strlit(".mdl");
    }
    let lower = to_lowercase(model_name);
    let mdx = replace_all(lower.as_str(), ".mdx", ".m2");
    replace_all(mdx.as_str(), ".mdl", ".m2")
}

/// The model file of a doodad that a map tile places, fixed for loading (see
/// `fixed_model_name`); `None` for particle emitters, whose name holds `emitter`, which are not
/// shown.
pub open spec fn doodad_model_name(name: Seq<char>) -> Option<Seq<char>> {
    let fixed = fixed_model_name(name);
    if has_infix(lowercase(fixed), "emitter"@) {
        None
    } else {
        Some(fixed)
    }
}

/// The model file of a doodad that a map tile places, or `None` for a particle emitter.
pub fn doodad_model(name: &str) -> (r: Option<String>)
    ensures
        opt_view(r) == doodad_model_name(name@),
{
    let fixed = fix_model_name(name);
    let lower = to_lowercase(fixed.as_str());
    if contains_str(lower.as_str(), "emitter") {
        None
    } else {
        Some(fixed)
    }
}

/// A map object (WMO) that map tiles do not load: the Stormwind city object, whose name ends in
/// `STORMWIND.WMO`.
pub open spec fn wmo_skipped(name: Seq<char>) -> bool {
    has_suffix(name, "STORMWIND.WMO"@)
}

/// Whether map tiles skip the map object with this name.
pub fn is_skipped_wmo(name: &str) -> (r: bool)
    ensures
        r == wmo_skipped(name@),
{
    ends_with(name, "STORMWIND.WMO")
}

/// The folder of a file: its name up to the last backslash, `None` where it has none.
pub open spec fn folder_of(name: Seq<char>) -> Option<Seq<char>>
    decreases name.len(),
{
    if name.len() == 0 {
        None
    } else if name.last() == '\\' {
        Some(name.drop_last())
    } else {
        folder_of(name.drop_last())
    }
}

proof fn lemma_folder_of_last_backslash(name: Seq<char>, i: int)
    requires
        0 <= i < name.len(),
        name[i] == '\\',
        forall|k: int| i < k < name.len() ==> name[k] != '\\',
    ensures
        folder_of(name) == Some(name.subrange(0, i)),
    decreases name.len(),
{
    if i == name.len() - 1 {
        assert(name.drop_last() =~= name.subrange(0, i));
    } else {
        lemma_folder_of_last_backslash(name.drop_last(), i);
        assert(name.drop_last().subrange(0, i) =~= name.subrange(0, i));
    }
}

proof fn lemma_folder_of_no_backslash(name: Seq<char>)
    requires
        forall|k: int| 0 <= k < name.len() ==> name[k] != '\\',
    ensures
        folder_of(name) is None,
    decreases name.len(),
{
    if name.len() > 0 {
        lemma_folder_of_no_backslash(name.drop_last());
    }
}

/// The folder of a model file: the name up to its last backslash (`None` if there is none).
pub fn model_base_path(name: &str) -> (base: Option<String>)
    ensures
        opt_view(base) == folder_of(name@),
{
    match rfind_char(name, '\\') {
        Some(i) => {
            proof {
                lemma_folder_of_last_backslash(name@, i as int);
            }
            Some(name.substring_char(0, i).to_owned())
        },
        None => {
            proof {
                lemma_folder_of_no_backslash(name@);
            }
            None
        },
    }
}

/// The kinds of the textures of a creature model that come from the creature's display info.
#[derive(Debug, Clone, Copy, PartialEq, Eq, Structural)]
pub enum TextureComponent {
    Monster1,
    Monster2,
    Monster3,
    CharacterHair,
    Skin,
    ObjectSkin,
    Other,
}

/// The texture file name that a texture kind takes: one of the creature's texture variations,
/// its hair section's first texture, or its baked texture; `None` where it has none.
pub open spec fn texture_file_for(
    kind: TextureComponent,
    texture_variation: Seq<String>,
    hair_section: Option<CharSection>,
    extra: Option<CreatureDisplayInfoExtra>,
) -> Option<Seq<char>> {
    match kind {
        TextureComponent::Monster1 => Some(texture_variation[0]@),
        TextureComponent::Monster2 => Some(texture_variation[1]@),
        TextureComponent::Monster3 => Some(texture_variation[2]@),
        TextureComponent::CharacterHair => match hair_section {
            Some(section) => Some(section.texture_name@[0]@),
            None => None,
        },
        TextureComponent::Skin | TextureComponent::ObjectSkin => match extra {
            Some(e) => Some("textures\\BakedNpcTextures\\"@ + e.bake_name@),
            None => None,
        },
        TextureComponent::Other => None,
    }
}

/// The path of a texture file: empty names give none, names ending in `.blp` are kept, other
/// names are files of the model's folder.
pub open spec fn texture_path(file: Seq<char>, base_path: Seq<char>) -> Option<Seq<char>> {
    if file.len() == 0 {
        None
    } else if has_suffix(file, ".blp"@) {
        Some(file)
    } else {
        Some(base_path + "\\"@ + file + ".blp"@)
    }
}

/// The texture path of a dynamic texture of a creature model, from the file name that its
/// kind takes.
pub open spec fn dynamic_texture(
    kind: TextureComponent,
    texture_variation: Seq<String>,
    hair_section: Option<CharSection>,
    extra: Option<CreatureDisplayInfoExtra>,
    base_path: Seq<char>,
) -> Option<Seq<char>> {
    match texture_file_for(kind, texture_variation, hair_section, extra) {
        None => None,
        Some(f) => texture_path(f, base_path),
    }
}

/// The texture path of a dynamic texture of a creature model.
pub fn dynamic_texture_name(
    kind: TextureComponent,
    texture_variation: &[String; 3],
    hair_section: Option<&CharSection>,
    extra: Option<&CreatureDisplayInfoExtra>,
    base_path: &str,
) -> (r: Option<String>)
    ensures
        opt_view(r) == dynamic_texture(
            kind,
            texture_variation@,
            match hair_section {
                Some(s) => Some(*s),
                None => None,
            },
            match extra {
                Some(e) => Some(*e),
                None => None,
            },
            base_path@,
        ),
{
    let tex_file_name: String = match kind {
        TextureComponent::Monster1 => texture_variation[0].clone(),
        TextureComponent::Monster2 => texture_variation[1].clone(),
        TextureComponent::Monster3 => texture_variation[2].clone(),
        TextureComponent::CharacterHair => match hair_section {
            Some(section) => section.texture_name[0].clone(),
            None => {
                return None;
            },
        },
        TextureComponent::Skin | TextureComponent::ObjectSkin => match extra {
            Some(cdie) => {
                let mut name = String::from_str("textures\\BakedNpcTextures\\");
                name.append(cdie.bake_name.as_str());
                name
            },
            None => {
                return None;
            },
        },
        TextureComponent::Other => {
            return None;
        },
    };
    if tex_file_name.as_str().is_empty() {
        return None;
    }
    if ends_with(tex_file_name.as_str(), ".blp") {
        Some(tex_file_name)
    } else {
        let mut tex_name = String::from_str(base_path);
        tex_name.append("\\");
        tex_name.append(tex_file_name.as_str());
        tex_name.append(".blp");
        Some(tex_name)
    }
}

} // verus!
