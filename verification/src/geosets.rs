//! Which geosets (sub-meshes) of a character model are shown, from the equipped items and the
//! character's appearance.
use std::collections::HashSet;
use vstd::prelude::*;

verus! {

broadcast use vstd::std_specs::hash::group_hash_axioms;

/// The base section ids of the character sections table.
pub const BASE_SECTION_BASE_SKIN: i32 = 0;

pub const BASE_SECTION_FACE: i32 = 1;

pub const BASE_SECTION_FACIAL_HAIR: i32 = 2;

pub const BASE_SECTION_HAIR: i32 = 3;

pub const BASE_SECTION_UNDERWEAR: i32 = 4;

/// The default geoset of a geoset group (0 to 28), shown when nothing overrides the group.
pub open spec fn default_geoset(category: int) -> int {
    if category == 0 {
        0
    } else if category == 1 {
        100
    } else if category == 2 {
        200
    } else if category == 3 {
        300
    } else if category == 4 {
        401
    } else if category == 5 {
        501
    } else if category == 6 {
        600
    } else if category == 7 {
        702
    } else if category == 14 {
        1400
    } else if category == 16 {
        1600
    } else if category == 17 {
        1700
    } else if category == 19 {
        1900
    } else if category == 24 {
        2400
    } else if category == 25 {
        2500
    } else if category == 26 {
        2600
    } else {
        category * 100 + 1
    }
}

/// The default geoset of a geoset group.
pub fn default_geoset_for(category: u16) -> (r: u16)
    requires
        category < 29,
    ensures
        r as int == default_geoset(category as int),
        category * 100 <= r < category * 100 + 100,
{
    match category {
        0 => 0,  // hair or skin
        1 => 100,  // facial default?
        2 => 200,  // facial default?
        3 => 300,  // facial default?
        4 => 401,  // default gloves
        5 => 501,  // default boots
        6 => 600,  // tail for draenei?
        7 => 702,  // ears (two)
        8 => 801,  // sleeves (no geoset)
        9 => 901,  // LegCuffs (no geoset)
        10 => 1001,  // Chest (no geoset)
        11 => 1101,  // Pants (no geoset)
        12 => 1201,  // Tabard (no geoset)
        13 => 1301,  // Trousers (default)
        14 => 1400,  // DH/Pandaren female loincloth
        15 => 1501,  // Cloak (no geoset)
        16 => 1600,  // Nose Earrings
        17 => 1700,  // Eyeglows (bloodelf ear size)
        18 => 1801,  // Belt (default)
        19 => 1900,  // Bone?
        20 => 2001,  // feet (default)
        21 => 2101,  // head (show head)
        22 => 2201,  // Torso: Default
        23 => 2301,  // Hands attachments
        24 => 2400,  // head attachments
        25 => 2500,  // blindfolds
        26 => 2600,  // shoulders (no geoset)
        27 => 2701,  // Helm (no geoset) was 2701
        _ => 2801,  // arm upper (default)
    }
}

/// The geoset group that the geoset group `group_id` of the item in equipment slot `slot_id`
/// overrides, if any.
pub open spec fn item_geoset_group(slot_id: int, group_id: int) -> Option<int> {
    if slot_id == 0 {
        // Helm
        if group_id == 0 {
            Some(27)
        } else if group_id == 1 {
            Some(21)
        } else {
            None
        }
    } else if slot_id == 1 {
        // Shoulder
        if group_id == 0 {
            Some(26)
        } else {
            None
        }
    } else if slot_id == 2 {
        // Shirt
        if group_id == 0 {
            Some(8)
        } else if group_id == 1 {
            Some(10)
        } else {
            None
        }
    } else if slot_id == 3 {
        // Chest
        if group_id == 0 {
            Some(8)
        } else if group_id == 1 {
            Some(10)
        } else if group_id == 2 {
            Some(13)
        } else if group_id == 3 {
            Some(22)
        } else if group_id == 4 {
            Some(28)
        } else {
            None
        }
    } else if slot_id == 4 {
        // Waist
        if group_id == 0 {
            Some(18)
        } else {
            None
        }
    } else if slot_id == 5 {
        // Pants
        if group_id == 0 {
            Some(11)
        } else if group_id == 1 {
            Some(9)
        } else if group_id == 2 {
            Some(13)
        } else {
            None
        }
    } else if slot_id == 6 {
        // Boots
        if group_id == 0 {
            Some(5)
        } else if group_id == 1 {
            Some(20)
        } else {
            None
        }
    } else if slot_id == 8 {
        // Gloves
        if group_id == 0 {
            Some(4)
        } else if group_id == 1 {
            Some(23)
        } else {
            None
        }
    } else if slot_id == 9 {
        // Cape
        if group_id == 0 {
            Some(15)
        } else {
            None
        }
    } else if slot_id == 10 {
        // Tabard
        if group_id == 0 {
            Some(12)
        } else {
            None
        }
    } else {
        // Wrists, weapons, shield, ammo and unknown slots have no geosets
        None
    }
}

/// The geoset group overridden by the geoset group `group_id` of the item in slot `slot_id`.
pub fn item_slot_id_to_geoset_id(slot_id: usize, group_id: usize) -> (r: Option<u16>)
    ensures
        match r {
            Some(g) => item_geoset_group(slot_id as int, group_id as int) == Some(g as int),
            None => item_geoset_group(slot_id as int, group_id as int) is None,
        },
{
    Some(
        match slot_id {
            // Helm
            0 => match group_id {
                0 => 27,
                1 => 21,  // can only be 01
                _ => return None,
            },
            // Shoulder
            1 => match group_id {
                0 => 26,  // can only be 01
                _ => return None,
            },
            // Shirt
            2 => match group_id {
                0 => 8,  // can only be 01
                1 => 10,  // can only be 01
                _ => return None,
            },
            // Chest
            3 => match group_id {
                0 => 8,  // can only be 01
                1 => 10,  // can only be 01
                2 => 13,  // can only be 01
                3 => 22,  // can only be 01
                4 => 28,  // can only be 01
                _ => return None,
            },
            // Waist
            4 => match group_id {
                0 => 18,  // can only be 01
                _ => return None,
            },
            // Pants
            5 => match group_id {
                0 => 11,  // can only be 01
                1 => 9,  // can only be 01
                2 => 13,  // can only be 01
                _ => return None,
            },
            // Boots
            6 => match group_id {
                0 => 5,  // can only be 01
                1 => 20,
                _ => return None,
            },
            // Wrists
            7 => return None,
            // Gloves
            8 => match group_id {
                0 => 4,  // can only be 01
                1 => 23,  // can only be 01
                _ => return None,
            },
            // Cape
            9 => match group_id {
                0 => 15,  // can only be 01
                _ => return None,
            },
            // Tabard
            10 => match group_id {
                0 => 12,  // can only be 01
                _ => return None,
            },
            // Weapons, shield, ammo
            _ => return None,
        },
    )
}

/// The geoset that the group value `value` (not 0) of group `group_id` of the item in slot
/// `slot_id` shows.
pub open spec fn item_geoset(slot_id: int, group_id: int, value: i32) -> int {
    item_geoset_group(slot_id, group_id)->0 * 100 + (value as u16) + 1
}

/// The value of geoset group `group` of the item in slot `slot` (0 for an unknown item).
pub open spec fn group_value(items: Seq<Option<[i32; 3]>>, slot: int, group: int) -> i32 {
    match items[slot] {
        Some(g) => g[group],
        None => 0,
    }
}

/// The items of a character can be shown: every geoset group that an item sets belongs to a
/// geoset group of its slot, and the geoset fits a `u16`.
pub open spec fn items_showable(items: Seq<Option<[i32; 3]>>) -> bool {
    forall|slot: int, group: int|
        0 <= slot < items.len() && 0 <= group < 3 && #[trigger] group_value(items, slot, group) != 0
            ==> item_geoset_group(slot, group) is Some && item_geoset(
            slot,
            group,
            group_value(items, slot, group),
        ) <= u16::MAX
}

/// The geosets that the items set.
pub open spec fn item_geosets(items: Seq<Option<[i32; 3]>>) -> Set<u16> {
    Set::new(
        |geoset: u16|
            exists|slot: int, group: int|
                0 <= slot < items.len() && 0 <= group < 3 && #[trigger] group_value(items, slot, group)
                    != 0 && geoset as int == item_geoset(slot, group, group_value(items, slot, group)),
    )
}

/// The geosets that the items in slots `lo..hi` set.
pub open spec fn slots_geosets(items: Seq<Option<[i32; 3]>>, lo: int, hi: int) -> Set<u16> {
    Set::new(
        |geoset: u16|
            exists|slot: int, group: int|
                lo <= slot < hi && 0 <= group < 3 && #[trigger] group_value(items, slot, group) != 0
                    && geoset as int == item_geoset(slot, group, group_value(items, slot, group)),
    )
}

/// The geosets that groups `0..hi` of the item in slot `slot` set.
pub open spec fn groups_geosets(items: Seq<Option<[i32; 3]>>, slot: int, hi: int) -> Set<u16> {
    Set::new(
        |geoset: u16|
            exists|group: int|
                0 <= group < hi && #[trigger] group_value(items, slot, group) != 0 && geoset as int
                    == item_geoset(slot, group, group_value(items, slot, group)),
    )
}

proof fn lemma_slots_geosets_split(items: Seq<Option<[i32; 3]>>, idx: int)
    requires
        0 <= idx,
    ensures
        slots_geosets(items, 0, idx + 1) == slots_geosets(items, 0, idx) + groups_geosets(
            items,
            idx,
            3,
        ),
{
    assert forall|geoset: u16| #[trigger] slots_geosets(items, 0, idx + 1).contains(geoset) implies (
    slots_geosets(items, 0, idx) + groups_geosets(items, idx, 3)).contains(geoset) by {
        let (slot, group) = choose|slot: int, group: int|
            0 <= slot < idx + 1 && 0 <= group < 3 && #[trigger] group_value(items, slot, group) != 0
                && geoset as int == item_geoset(slot, group, group_value(items, slot, group));
        if slot == idx {
            assert(groups_geosets(items, idx, 3).contains(geoset));
        } else {
            assert(slots_geosets(items, 0, idx).contains(geoset));
        }
    }
    assert forall|geoset: u16| #[trigger] (slots_geosets(items, 0, idx) + groups_geosets(
        items,
        idx,
        3,
    )).contains(geoset) implies slots_geosets(items, 0, idx + 1).contains(geoset) by {
        if slots_geosets(items, 0, idx).contains(geoset) {
            let (slot, group) = choose|slot: int, group: int|
                0 <= slot < idx && 0 <= group < 3 && #[trigger] group_value(items, slot, group)
                    != 0 && geoset as int == item_geoset(slot, group, group_value(items, slot, group));
            assert(0 <= slot < idx + 1);
        } else {
            let group = choose|group: int|
                0 <= group < 3 && #[trigger] group_value(items, idx, group) != 0 && geoset as int
                    == item_geoset(idx, group, group_value(items, idx, group));
            assert(0 <= idx < idx + 1);
        }
    }
    assert(slots_geosets(items, 0, idx + 1) =~= slots_geosets(items, 0, idx) + groups_geosets(
        items,
        idx,
        3,
    ));
}

/// The appearance of a character as the geosets see it: the geosets of its facial hair style,
/// the geoset of its hair style, its underwear section variation, and the geoset groups of its
/// equipped items (one entry per slot; `None` for a slot whose item is not known).
pub struct GeosetSources {
    pub facial_hair_geosets: Option<[i32; 5]>,
    pub hair_geoset: Option<i32>,
    pub underwear_variation: Option<i32>,
    pub items: Option<Vec<Option<[i32; 3]>>>,
}

/// The geoset sources as values, with the items as a sequence.
pub struct GeosetSourcesView {
    pub facial_hair_geosets: Option<[i32; 5]>,
    pub hair_geoset: Option<i32>,
    pub underwear_variation: Option<i32>,
    pub items: Option<Seq<Option<[i32; 3]>>>,
}

impl View for GeosetSources {
    type V = GeosetSourcesView;

    open spec fn view(&self) -> GeosetSourcesView {
        GeosetSourcesView {
            facial_hair_geosets: self.facial_hair_geosets,
            hair_geoset: self.hair_geoset,
            underwear_variation: self.underwear_variation,
            items: match self.items {
                Some(items) => Some(items@),
                None => None,
            },
        }
    }
}

/// The sources can be turned into geosets without overflow.
pub open spec fn sources_valid(s: GeosetSourcesView) -> bool {
    &&& s.facial_hair_geosets matches Some(g) ==> g[0] <= i32::MAX - 100 && g[1] <= i32::MAX
        - 200 && g[2] <= i32::MAX - 300 && g[3] <= i32::MAX - 1600 && g[4] <= i32::MAX - 1700
    &&& s.underwear_variation matches Some(v) ==> v <= i32::MAX - 401
    &&& s.items matches Some(items) ==> items_showable(items)
}

/// The geosets that the sources set explicitly.
pub open spec fn override_geosets(s: GeosetSourcesView) -> Set<u16> {
    let facial = match s.facial_hair_geosets {
        Some(g) => set![
            (100 + g[0]) as u16,
            (200 + g[1]) as u16,
            (300 + g[2]) as u16,
            (1600 + g[3]) as u16,
            (1700 + g[4]) as u16,
        ],
        None => Set::empty(),
    };
    let hair = match s.hair_geoset {
        Some(h) => set![h as u16],
        None => Set::empty(),
    };
    let underwear = match s.underwear_variation {
        Some(v) => set![(BASE_SECTION_UNDERWEAR * 100 + v + 1) as u16],
        None => Set::empty(),
    };
    let items = match s.items {
        Some(items) => item_geosets(items),
        None => Set::empty(),
    };
    facial + hair + underwear + items
}

/// A geoset of `set` lies in the geoset group `group`.
pub open spec fn has_group(set: Set<u16>, group: int) -> bool {
    exists|g: u16| #[trigger] set.contains(g) && group * 100 <= g < group * 100 + 100
}

/// The shown geosets: the overrides, the default of each group from 0 to 28 that no override
/// sets, and the skin (geoset 0).
pub open spec fn shown_geosets(s: GeosetSourcesView) -> Set<u16> {
    let overrides = override_geosets(s);
    overrides + Set::new(
        |g: u16|
            exists|group: int|
                0 <= group < 29 && !has_group(overrides, group) && g as int == #[trigger] default_geoset(
                    group,
                ),
    ) + set![0u16]
}

proof fn lemma_default_in_group(group: int)
    requires
        0 <= group < 29,
    ensures
        group * 100 <= default_geoset(group) < group * 100 + 100,
{
}

/// Whatever the appearance and items, the skin (geoset 0) is shown, every override is shown,
/// and every geoset group from 0 to 28 has a shown geoset: its override, or else its default.
pub proof fn lemma_every_group_shown(s: GeosetSourcesView, group: int)
    requires
        0 <= group < 29,
    ensures
        shown_geosets(s).contains(0),
        override_geosets(s) <= shown_geosets(s),
        has_group(shown_geosets(s), group),
        !has_group(override_geosets(s), group) ==> shown_geosets(s).contains(
            default_geoset(group) as u16,
        ),
{
    let overrides = override_geosets(s);
    let shown = shown_geosets(s);
    if has_group(overrides, group) {
        let g = choose|g: u16| #[trigger] overrides.contains(g) && group * 100 <= g < group * 100
            + 100;
        assert(shown.contains(g));
    } else {
        lemma_default_in_group(group);
        let d = default_geoset(group) as u16;
        assert(d as int == default_geoset(group));
        assert(shown.contains(d));
    }
}

/// The geoset that shows for a group that nothing overrides, as its offset in the group: the
/// group's first geoset (number 0) for the skin, the facial groups 1 to 3, the tail (6), the
/// loincloth (14), the nose earrings (16), the eye glows (17), the bones (19), the head
/// attachments (24), the blindfolds (25) and the shoulders (26); the third (number 2) for the
/// ears (7); the second (number 1) for every other group, such as the gloves (401) and the
/// boots (501).
pub open spec fn unoverridden_offset(group: int) -> int {
    if group == 7 {
        2
    } else if set![0int, 1, 2, 3, 6, 14, 16, 17, 19, 24, 25, 26].contains(group) {
        0
    } else {
        1
    }
}

/// Every group from 0 to 28 that no source overrides shows its default geoset, at the offset
/// that `unoverridden_offset` gives within the group; for the boots (group 5) that is 501.
pub proof fn lemma_unoverridden_groups_show_their_default(s: GeosetSourcesView, group: int)
    requires
        0 <= group < 29,
        !has_group(override_geosets(s), group),
    ensures
        shown_geosets(s).contains((group * 100 + unoverridden_offset(group)) as u16),
        group == 5 ==> shown_geosets(s).contains(501u16),
        group == 4 ==> shown_geosets(s).contains(401u16),
{
    lemma_every_group_shown(s, group);
    assert(default_geoset(group) == group * 100 + unoverridden_offset(group));
}

/// The skin (geoset 0) is always shown, and so is every geoset that a source sets: the five
/// facial geosets (groups 1, 2, 3, 16 and 17: 100, 200, 300, 1600 and 1700 plus the values of
/// the facial hair style), the hair geoset, and the underwear (401 plus its variation).
pub proof fn lemma_sources_shown(s: GeosetSourcesView)
    ensures
        shown_geosets(s).contains(0u16),
        s.facial_hair_geosets matches Some(g) ==> shown_geosets(s).contains((100 + g[0]) as u16)
            && shown_geosets(s).contains((200 + g[1]) as u16) && shown_geosets(s).contains(
            (300 + g[2]) as u16,
        ) && shown_geosets(s).contains((1600 + g[3]) as u16) && shown_geosets(s).contains(
            (1700 + g[4]) as u16,
        ),
        s.hair_geoset matches Some(h) ==> shown_geosets(s).contains(h as u16),
        s.underwear_variation matches Some(v) ==> shown_geosets(s).contains((401 + v) as u16),
{
}

/// Whether a geoset of group `group` is in the set.
fn group_present(set: &HashSet<u16>, group: u16) -> (r: bool)
    requires
        group < 29,
    ensures
        r == has_group(set@, group as int),
{
    let mut v: u16 = group * 100;
    while v < group * 100 + 100
        invariant
            group < 29,
            group * 100 <= v <= group * 100 + 100,
            forall|g: u16| group * 100 <= g < v ==> !set@.contains(g),
        decreases group * 100 + 100 - v,
    {
        if set.contains(&v) {
            return true;
        }
        v += 1;
    }
    false
}

/// The geosets shown for a character: the overrides of its facial hair, hair, underwear and
/// items, the defaults of the groups that nothing overrides, and the skin.
pub fn geoset_whitelist(sources: &GeosetSources) -> (whitelist: HashSet<u16>)
    requires
        sources_valid(sources@),
    ensures
        whitelist@ == shown_geosets(sources@),
{
    let mut geoset_whitelist: HashSet<u16> = HashSet::new();
    if let Some(geosets) = &sources.facial_hair_geosets {
        geoset_whitelist.insert((100 + geosets[0]) as u16);
        geoset_whitelist.insert((200 + geosets[1]) as u16);
        geoset_whitelist.insert((300 + geosets[2]) as u16);
        geoset_whitelist.insert((1600 + geosets[3]) as u16);
        geoset_whitelist.insert((1700 + geosets[4]) as u16);
    }
    if let Some(hair_geoset) = sources.hair_geoset {
        geoset_whitelist.insert(hair_geoset as u16);
    }
    if let Some(variation) = sources.underwear_variation {
        geoset_whitelist.insert((BASE_SECTION_UNDERWEAR * 100 + variation + 1) as u16);
    }
    let ghost before_items = geoset_whitelist@;
    if let Some(items) = &sources.items {
        let n = items.len();
        let mut idx: usize = 0;
        while idx < n
            invariant
                n == items@.len(),
                idx <= n,
                items_showable(items@),
                geoset_whitelist@ == before_items + slots_geosets(items@, 0, idx as int),
            decreases n - idx,
        {
            let ghost at_slot = geoset_whitelist@;
            proof {
                lemma_slots_geosets_split(items@, idx as int);
            }
            if let Some(geoset_group_values) = &items[idx] {
                let mut grp_id: usize = 0;
                while grp_id < 3
                    invariant
                        n == items@.len(),
                        idx < n,
                        items@[idx as int] == Some(*geoset_group_values),
                        items_showable(items@),
                        grp_id <= 3,
                        geoset_whitelist@ == at_slot + groups_geosets(
                            items@,
                            idx as int,
                            grp_id as int,
                        ),
                    decreases 3 - grp_id,
                {
                    let grp = geoset_group_values[grp_id];
                    assert(group_value(items@, idx as int, grp_id as int) == grp);
                    if grp != 0 {
                        let geoset_group = item_slot_id_to_geoset_id(idx, grp_id).unwrap();
                        assert(item_geoset(idx as int, grp_id as int, grp) <= u16::MAX);
                        let geoset = geoset_group * 100 + (grp as u16) + 1;
                        geoset_whitelist.insert(geoset);
                    }
                    assert(geoset_whitelist@ =~= at_slot + groups_geosets(
                        items@,
                        idx as int,
                        grp_id + 1,
                    ));
                    grp_id += 1;
                }
            } else {
                assert(groups_geosets(items@, idx as int, 3) =~= Set::empty());
            }
            assert(geoset_whitelist@ =~= before_items + slots_geosets(items@, 0, idx + 1));
            idx += 1;
        }
        assert(slots_geosets(items@, 0, n as int) =~= item_geosets(items@));
        assert(geoset_whitelist@ =~= override_geosets(sources@));
    } else {
        assert(geoset_whitelist@ =~= override_geosets(sources@));
    }
    let ghost overrides = geoset_whitelist@;
    // Items and appearance only give overrides: every geoset group from 0 to 28 that no
    // override sets gets its default.
    let mut range: u16 = 0;
    while range < 29
        invariant
            range <= 29,
            geoset_whitelist@ == overrides + Set::new(
                |g: u16|
                    exists|group: int|
                        0 <= group < range && !has_group(overrides, group) && g as int
                            == #[trigger] default_geoset(group),
            ),
        decreases 29 - range,
    {
        let present = group_present(&geoset_whitelist, range);
        proof {
            assert(present == has_group(overrides, range as int)) by {
                if has_group(geoset_whitelist@, range as int) {
                    let g = choose|g: u16| #[trigger] geoset_whitelist@.contains(g) && range * 100
                        <= g < range * 100 + 100;
                    if !overrides.contains(g) {
                        let group = choose|group: int|
                            0 <= group < range && !has_group(overrides, group) && g as int
                                == #[trigger] default_geoset(group);
                        lemma_default_in_group(group);
                    }
                }
                if has_group(overrides, range as int) {
                    let g = choose|g: u16| #[trigger] overrides.contains(g) && range * 100 <= g
                        < range * 100 + 100;
                    assert(geoset_whitelist@.contains(g));
                }
            }
        }
        let ghost before = geoset_whitelist@;
        if !present {
            geoset_whitelist.insert(default_geoset_for(range));
        }
        assert(geoset_whitelist@ =~= overrides + Set::new(
            |g: u16|
                exists|group: int|
                    0 <= group < range + 1 && !has_group(overrides, group) && g as int
                        == #[trigger] default_geoset(group),
        ));
        range += 1;
    }
    geoset_whitelist.insert(0);
    geoset_whitelist
}

/// Whether the items of a character can be shown.
fn items_are_showable(items: &Vec<Option<[i32; 3]>>) -> (r: bool)
    ensures
        r == items_showable(items@),
{
    let n = items.len();
    let mut slot: usize = 0;
    while slot < n
        invariant
            n == items@.len(),
            slot <= n,
            forall|s: int, group: int|
                0 <= s < slot && 0 <= group < 3 && #[trigger] group_value(items@, s, group) != 0
                    ==> item_geoset_group(s, group) is Some && item_geoset(
                    s,
                    group,
                    group_value(items@, s, group),
                ) <= u16::MAX,
        decreases n - slot,
    {
        if let Some(values) = &items[slot] {
            let mut group: usize = 0;
            while group < 3
                invariant
                    n == items@.len(),
                    slot < n,
                    items@[slot as int] == Some(*values),
                    group <= 3,
                    forall|s: int, g: int|
                        0 <= s < slot && 0 <= g < 3 && #[trigger] group_value(items@, s, g) != 0
                            ==> item_geoset_group(s, g) is Some && item_geoset(
                            s,
                            g,
                            group_value(items@, s, g),
                        ) <= u16::MAX,
                    forall|g: int|
                        0 <= g < group && #[trigger] group_value(items@, slot as int, g) != 0
                            ==> item_geoset_group(slot as int, g) is Some && item_geoset(
                            slot as int,
                            g,
                            group_value(items@, slot as int, g),
                        ) <= u16::MAX,
                decreases 3 - group,
            {
                let value = values[group];
                assert(group_value(items@, slot as int, group as int) == value);
                if value != 0 {
                    match item_slot_id_to_geoset_id(slot, group) {
                        None => {
                            return false;
                        },
                        Some(geoset_group) => {
                            let geoset: u32 = geoset_group as u32 * 100 + (value as u16) as u32 + 1;
                            if geoset > 0xffff {
                                return false;
                            }
                        },
                    }
                }
                group += 1;
            }
        } else {
            assert forall|g: int| 0 <= g < 3 implies #[trigger] group_value(items@, slot as int, g)
                == 0 by {}
        }
        slot += 1;
    }
    true
}

/// Whether the sources can be turned into geosets: the same condition as `sources_valid`.
pub fn sources_showable(sources: &GeosetSources) -> (r: bool)
    ensures
        r == sources_valid(sources@),
{
    if let Some(g) = &sources.facial_hair_geosets {
        if g[0] > i32::MAX - 100 || g[1] > i32::MAX - 200 || g[2] > i32::MAX - 300 || g[3]
            > i32::MAX - 1600 || g[4] > i32::MAX - 1700 {
            return false;
        }
    }
    if let Some(v) = sources.underwear_variation {
        if v > i32::MAX - 401 {
            return false;
        }
    }
    match &sources.items {
        Some(items) => items_are_showable(items),
        None => true,
    }
}

} // verus!
