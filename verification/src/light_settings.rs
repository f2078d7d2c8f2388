//! The light settings of a map: its lights, and for each light the parameter sets (sky and
//! water colors, fog, glow) for clear weather, storms, under water and death.
//!
//! The tables hold floating point values (positions, falloffs, alphas, float bands); the
//! settings carry them unchanged as the bits of their `f32`.
use crate::light_bands::{band_of, band_rows, bands_for_params, LightBandEntry, LightBandRow};
use crate::tables::{find_row, lookup, Keyed};
use crate::text::opt_view;
use vstd::prelude::*;

verus! {

/// A row of the light table: a light of a map, with its position and falloff (as bits) and the
/// ids of its eight parameter sets.
#[derive(Debug, Clone, Copy)]
pub struct LightRow {
    pub id: i32,
    pub continent_id: i32,
    pub game_coords_bits: [u32; 3],
    pub game_falloff_start_bits: u32,
    pub game_falloff_end_bits: u32,
    pub light_params_id: [i32; 8],
}

/// A row of the light parameters table (floating point fields as bits).
#[derive(Debug, Clone, Copy)]
pub struct LightParamsRow {
    pub id: i32,
    pub highlight_sky: i32,
    pub light_skybox_id: i32,
    pub glow_bits: u32,
    pub water_shallow_alpha_bits: u32,
    pub water_deep_alpha_bits: u32,
    pub ocean_shallow_alpha_bits: u32,
    pub ocean_deep_alpha_bits: u32,
    pub flags: i32,
}

/// A row of the light skybox table: the path of the skybox model.
pub struct LightSkyboxRow {
    pub id: i32,
    pub name: String,
}

impl Keyed for LightParamsRow {
    open spec fn key_spec(&self) -> i32 {
        self.id
    }

    fn key(&self) -> (k: i32) {
        self.id
    }
}

impl Keyed for LightSkyboxRow {
    open spec fn key_spec(&self) -> i32 {
        self.id
    }

    fn key(&self) -> (k: i32) {
        self.id
    }
}

/// A parameter set of a light.
pub struct LightParameters {
    pub highlight_sky: bool,
    /// The path of the skybox model.
    pub light_skybox: Option<String>,
    pub glow_bits: u32,
    pub water_shallow_alpha_bits: u32,
    pub water_deep_alpha_bits: u32,
    pub ocean_shallow_alpha_bits: u32,
    pub ocean_deep_alpha_bits: u32,
    pub flags: i32,
    /// The six float bands (values as bits): fog distance, fog multiplier, celestial glow
    /// through, cloud density, and two unknown bands.
    pub float_bands: Vec<LightBandEntry<u32>>,
    /// The eighteen color bands: diffuse, ambient, sky top, sky middle, sky middle to horizon,
    /// above horizon, horizon, fog, unknown, cloud sun, cloud emissive, cloud B, cloud A2,
    /// unknown, ocean shallow, ocean deep, water shallow and water deep.
    pub int_bands: Vec<LightBandEntry<i32>>,
}

/// The settings of a light of a map: its position and falloff (as bits) and its parameter
/// sets; the last three sets are optional.
pub struct LightSettings {
    pub light_id: i32,
    pub game_coords_bits: [u32; 3],
    pub game_falloff_start_bits: u32,
    pub game_falloff_end_bits: u32,
    pub clear: LightParameters,
    pub clear_underwater: LightParameters,
    pub storm: LightParameters,
    pub storm_underwater: LightParameters,
    pub death: LightParameters,
    pub wotlk_unk1: Option<LightParameters>,
    pub wotlk_unk2: Option<LightParameters>,
    pub wotlk_unk3: Option<LightParameters>,
}

/// The number of color bands of a parameter set.
pub const INT_BANDS_PER_SET: usize = 18;

/// The number of float bands of a parameter set.
pub const FLOAT_BANDS_PER_SET: usize = 6;

/// The lights of a map, in table order.
pub open spec fn lights_of_map(lights: Seq<LightRow>, map_id: i32) -> Seq<LightRow> {
    lights.filter(|l: LightRow| l.continent_id == map_id)
}

/// Loads the skyboxes, ambient light and other light settings of maps.
pub struct MapLightSettingsProvider {
    pub light: Vec<LightRow>,
    pub light_skybox: Vec<LightSkyboxRow>,
    pub light_params: Vec<LightParamsRow>,
    pub light_int_band: Vec<LightBandRow<i32>>,
    pub light_float_band: Vec<LightBandRow<u32>>,
}

impl MapLightSettingsProvider {
    /// The skybox path of a skybox id.
    pub open spec fn skybox_name(&self, id: i32) -> Option<Seq<char>> {
        match lookup(self.light_skybox@, id) {
            Some(row) => Some(row.name@),
            None => None,
        }
    }

    /// The band tables hold the bands of the parameter set `id`.
    pub open spec fn bands_available(&self, id: i32) -> bool {
        &&& 1 <= id
        &&& id * 18 + 1 <= self.light_int_band@.len()
        &&& id * 6 + 1 <= self.light_float_band@.len()
    }

    /// The parameter set `id` can be loaded: where the table has it, its bands are there.
    pub open spec fn params_loadable(&self, id: i32) -> bool {
        lookup(self.light_params@, id) is Some ==> self.bands_available(id)
    }

    /// `p` is the parameter set with id `id` and row `row`: the row's fields, the skybox path,
    /// and the bands of the set.
    pub open spec fn parameters_of(&self, p: LightParameters, id: i32, row: LightParamsRow) -> bool {
        &&& p.highlight_sky == (row.highlight_sky != 0)
        &&& opt_view(p.light_skybox) == self.skybox_name(row.light_skybox_id)
        &&& p.glow_bits == row.glow_bits
        &&& p.water_shallow_alpha_bits == row.water_shallow_alpha_bits
        &&& p.water_deep_alpha_bits == row.water_deep_alpha_bits
        &&& p.ocean_shallow_alpha_bits == row.ocean_shallow_alpha_bits
        &&& p.ocean_deep_alpha_bits == row.ocean_deep_alpha_bits
        &&& p.flags == row.flags
        &&& p.int_bands@.len() == 18
        &&& forall|k: int|
            0 <= k < 18 ==> #[trigger] p.int_bands@[k].data@ == band_of(
                band_rows(self.light_int_band@, id as int, 18)[k],
            )
        &&& p.float_bands@.len() == 6
        &&& forall|k: int|
            0 <= k < 6 ==> #[trigger] p.float_bands@[k].data@ == band_of(
                band_rows(self.light_float_band@, id as int, 6)[k],
            )
    }

    /// `p` is what the parameter set `id` loads to: nothing where the table lacks it.
    pub open spec fn parameters_for(&self, p: Option<LightParameters>, id: i32) -> bool {
        match lookup(self.light_params@, id) {
            None => p is None,
            Some(row) => p matches Some(x) && self.parameters_of(x, id, row),
        }
    }

    /// `s` are the settings of the light `light`.
    pub open spec fn settings_of(&self, s: LightSettings, light: LightRow) -> bool {
        &&& s.light_id == light.id
        &&& s.game_coords_bits == light.game_coords_bits
        &&& s.game_falloff_start_bits == light.game_falloff_start_bits
        &&& s.game_falloff_end_bits == light.game_falloff_end_bits
        &&& self.parameters_for(Some(s.clear), light.light_params_id[0])
        &&& self.parameters_for(Some(s.clear_underwater), light.light_params_id[1])
        &&& self.parameters_for(Some(s.storm), light.light_params_id[2])
        &&& self.parameters_for(Some(s.storm_underwater), light.light_params_id[3])
        &&& self.parameters_for(Some(s.death), light.light_params_id[4])
        &&& self.parameters_for(s.wotlk_unk1, light.light_params_id[5])
        &&& self.parameters_for(s.wotlk_unk2, light.light_params_id[6])
        &&& self.parameters_for(s.wotlk_unk3, light.light_params_id[7])
    }

    /// The light can be loaded: its first five parameter sets are in the table, and every set
    /// of it that the table has has its bands.
    pub open spec fn light_loadable(&self, light: LightRow) -> bool {
        &&& forall|k: int|
            0 <= k < 5 ==> lookup(self.light_params@, #[trigger] light.light_params_id[k]) is Some
        &&& forall|k: int| 0 <= k < 8 ==> self.params_loadable(#[trigger] light.light_params_id[k])
    }

    /// A provider over the given tables.
    pub fn build(
        light: Vec<LightRow>,
        light_skybox: Vec<LightSkyboxRow>,
        light_params: Vec<LightParamsRow>,
        light_int_band: Vec<LightBandRow<i32>>,
        light_float_band: Vec<LightBandRow<u32>>,
    ) -> (p: Self)
        ensures
            p.light@ == light@,
            p.light_skybox@ == light_skybox@,
            p.light_params@ == light_params@,
            p.light_int_band@ == light_int_band@,
            p.light_float_band@ == light_float_band@,
    {
        MapLightSettingsProvider { light, light_skybox, light_params, light_int_band, light_float_band }
    }

    /// The skybox path of a skybox id.
    pub fn get_skybox(&self, skybox_id: i32) -> (r: Option<String>)
        ensures
            opt_view(r) == self.skybox_name(skybox_id),
    {
        match find_row(&self.light_skybox, skybox_id) {
            Some(row) => Some(row.name.clone()),
            None => None,
        }
    }

    /// Whether the parameter set can be loaded (see `params_loadable`).
    pub fn can_load_params(&self, light_params_id: i32) -> (r: bool)
        ensures
            r == self.params_loadable(light_params_id),
    {
        match find_row(&self.light_params, light_params_id) {
            None => true,
            Some(_) => {
                if light_params_id < 1 {
                    return false;
                }
                let id = light_params_id as u64;
                id * 18 + 1 <= self.light_int_band.len() as u64 && id * 6 + 1
                    <= self.light_float_band.len() as u64
            },
        }
    }

    /// The parameter set with the given id: the row's fields, its skybox and its bands.
    pub fn get_light_parameters(&self, light_params_id: i32) -> (r: Option<LightParameters>)
        requires
            self.params_loadable(light_params_id),
        ensures
            self.parameters_for(r, light_params_id),
    {
        let row = match find_row(&self.light_params, light_params_id) {
            Some(row) => *row,
            None => {
                return None;
            },
        };
        let id = light_params_id as usize;
        let int_bands = bands_for_params(&self.light_int_band, id, INT_BANDS_PER_SET);
        let float_bands = bands_for_params(&self.light_float_band, id, FLOAT_BANDS_PER_SET);
        Some(
            LightParameters {
                highlight_sky: row.highlight_sky != 0,
                light_skybox: self.get_skybox(row.light_skybox_id),
                glow_bits: row.glow_bits,
                water_shallow_alpha_bits: row.water_shallow_alpha_bits,
                water_deep_alpha_bits: row.water_deep_alpha_bits,
                ocean_shallow_alpha_bits: row.ocean_shallow_alpha_bits,
                ocean_deep_alpha_bits: row.ocean_deep_alpha_bits,
                flags: row.flags,
                float_bands,
                int_bands,
            },
        )
    }

    /// A parameter set that the table has.
    fn get_required_parameters(&self, light_params_id: i32) -> (p: LightParameters)
        requires
            lookup(self.light_params@, light_params_id) is Some,
            self.params_loadable(light_params_id),
        ensures
            self.parameters_for(Some(p), light_params_id),
    {
        self.get_light_parameters(light_params_id).unwrap()
    }

    /// Whether a light can be loaded (see `light_loadable`).
    pub fn can_load_light(&self, light: &LightRow) -> (r: bool)
        ensures
            r == self.light_loadable(*light),
    {
        let mut k: usize = 0;
        while k < 8
            invariant
                k <= 8,
                forall|j: int|
                    0 <= j < k && j < 5 ==> lookup(
                        self.light_params@,
                        #[trigger] light.light_params_id[j],
                    ) is Some,
                forall|j: int| 0 <= j < k ==> self.params_loadable(#[trigger] light.light_params_id[j]),
            decreases 8 - k,
        {
            let id = light.light_params_id[k];
            if k < 5 && find_row(&self.light_params, id).is_none() {
                return false;
            }
            if !self.can_load_params(id) {
                return false;
            }
            k += 1;
        }
        true
    }

    /// Whether the settings of a map can be loaded: every light of the map can be.
    pub fn can_load_map(&self, map_id: i32) -> (r: bool)
        ensures
            r == forall|i: int|
                0 <= i < self.light@.len() && #[trigger] self.light@[i].continent_id == map_id
                    ==> self.light_loadable(self.light@[i]),
    {
        let n = self.light.len();
        let mut i: usize = 0;
        while i < n
            invariant
                n == self.light@.len(),
                i <= n,
                forall|j: int|
                    0 <= j < i && #[trigger] self.light@[j].continent_id == map_id
                        ==> self.light_loadable(self.light@[j]),
            decreases n - i,
        {
            if self.light[i].continent_id == map_id && !self.can_load_light(&self.light[i]) {
                return false;
            }
            i += 1;
        }
        true
    }

    /// The settings of the lights of a map, in table order: each light's position, falloff and
    /// parameter sets.
    pub fn get_settings_for_map(&self, map_id: i32) -> (r: Vec<LightSettings>)
        requires
            forall|i: int|
                0 <= i < self.light@.len() && #[trigger] self.light@[i].continent_id == map_id
                    ==> self.light_loadable(self.light@[i]),
        ensures
            r@.len() == lights_of_map(self.light@, map_id).len(),
            forall|j: int|
                0 <= j < r@.len() ==> self.settings_of(
                    #[trigger] r@[j],
                    lights_of_map(self.light@, map_id)[j],
                ),
    {
        let ghost pred = |l: LightRow| l.continent_id == map_id;
        let n = self.light.len();
        let mut settings: Vec<LightSettings> = Vec::new();
        let mut i: usize = 0;
        while i < n
            invariant
                n == self.light@.len(),
                i <= n,
                forall|l: LightRow| #[trigger] pred(l) == (l.continent_id == map_id),
                forall|q: int|
                    0 <= q < self.light@.len() && #[trigger] self.light@[q].continent_id == map_id
                        ==> self.light_loadable(self.light@[q]),
                settings@.len() == self.light@.subrange(0, i as int).filter(pred).len(),
                forall|j: int|
                    0 <= j < settings@.len() ==> self.settings_of(
                        #[trigger] settings@[j],
                        self.light@.subrange(0, i as int).filter(pred)[j],
                    ),
            decreases n - i,
        {
            proof {
                self.light@.subrange(0, i as int).lemma_filter_push(self.light@[i as int], pred);
                assert(self.light@.subrange(0, i + 1) =~= self.light@.subrange(0, i as int).push(
                    self.light@[i as int],
                ));
            }
            let light = self.light[i];
            if light.continent_id == map_id {
                assert(self.light_loadable(light));
                assert(lookup(self.light_params@, light.light_params_id[0]) is Some);
                assert(lookup(self.light_params@, light.light_params_id[1]) is Some);
                assert(lookup(self.light_params@, light.light_params_id[2]) is Some);
                assert(lookup(self.light_params@, light.light_params_id[3]) is Some);
                assert(lookup(self.light_params@, light.light_params_id[4]) is Some);
                assert(self.params_loadable(light.light_params_id[0]));
                assert(self.params_loadable(light.light_params_id[1]));
                assert(self.params_loadable(light.light_params_id[2]));
                assert(self.params_loadable(light.light_params_id[3]));
                assert(self.params_loadable(light.light_params_id[4]));
                assert(self.params_loadable(light.light_params_id[5]));
                assert(self.params_loadable(light.light_params_id[6]));
                assert(self.params_loadable(light.light_params_id[7]));
                let setting = LightSettings {
                    light_id: light.id,
                    game_coords_bits: light.game_coords_bits,
                    game_falloff_start_bits: light.game_falloff_start_bits,
                    game_falloff_end_bits: light.game_falloff_end_bits,
                    clear: self.get_required_parameters(light.light_params_id[0]),
                    clear_underwater: self.get_required_parameters(light.light_params_id[1]),
                    storm: self.get_required_parameters(light.light_params_id[2]),
                    storm_underwater: self.get_required_parameters(light.light_params_id[3]),
                    death: self.get_required_parameters(light.light_params_id[4]),
                    wotlk_unk1: self.get_light_parameters(light.light_params_id[5]),
                    wotlk_unk2: self.get_light_parameters(light.light_params_id[6]),
                    wotlk_unk3: self.get_light_parameters(light.light_params_id[7]),
                };
                settings.push(setting);
            }
            i += 1;
        }
        assert(self.light@.subrange(0, n as int) =~= self.light@);
        settings
    }
}

/// A loaded parameter set carries the fields of its row of the light parameters table, each in
/// the field of the same name: the glow, the alphas of shallow and deep water and ocean, the
/// flags, and the sky highlight (set where the row's is not 0).
pub proof fn lemma_parameters_copy_their_row(
    provider: MapLightSettingsProvider,
    p: LightParameters,
    id: i32,
    row: LightParamsRow,
)
    requires
        lookup(provider.light_params@, id) == Some(row),
        provider.params_loadable(id),
        provider.parameters_for(Some(p), id),
    ensures
        p.glow_bits == row.glow_bits,
        p.water_shallow_alpha_bits == row.water_shallow_alpha_bits,
        p.water_deep_alpha_bits == row.water_deep_alpha_bits,
        p.ocean_shallow_alpha_bits == row.ocean_shallow_alpha_bits,
        p.ocean_deep_alpha_bits == row.ocean_deep_alpha_bits,
        p.flags == row.flags,
        p.highlight_sky <==> row.highlight_sky != 0,
        opt_view(p.light_skybox) == match lookup(provider.light_skybox@, row.light_skybox_id) {
            Some(skybox) => Some(skybox.name@),
            None => None,
        },
        p.int_bands@.len() == 18,
        p.float_bands@.len() == 6,
        forall|k: int|
            0 <= k < 18 ==> #[trigger] p.int_bands@[k].data@ == band_of(
                provider.light_int_band@[id * 18 - 17 + k],
            ),
        forall|k: int|
            0 <= k < 6 ==> #[trigger] p.float_bands@[k].data@ == band_of(
                provider.light_float_band@[id * 6 - 5 + k],
            ),
{
    assert forall|k: int| 0 <= k < 18 implies #[trigger] band_rows(provider.light_int_band@, id as int, 18)[k]
        == provider.light_int_band@[id * 18 - 17 + k] by {}
    assert forall|k: int| 0 <= k < 6 implies #[trigger] band_rows(provider.light_float_band@, id as int, 6)[k]
        == provider.light_float_band@[id * 6 - 5 + k] by {}
}

} // verus!
