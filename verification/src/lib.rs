//! A client for an MMORPG: the verified logic of its asset loading, entities and game state.
pub mod mpq_loader;
pub mod text;
pub mod zone_music;
pub mod geosets;
pub mod char_sections;
pub mod textures;
pub mod light_bands;
pub mod game_time;
pub mod movement;
pub mod packet_header;
pub mod auth_session;
pub mod entity_tracker;
pub mod spline;
pub mod loader;
pub mod tables;
pub mod display_resolver;
pub mod dbc;
pub mod world_session;
pub mod game_state;
pub mod light_settings;
