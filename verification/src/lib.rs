//! Game logic of the Joshagachi virtual-pet game: scenes, species, pets,
//! users and their saved form, the screen flow and the build banner.
pub mod scene;
pub mod species;
pub mod pet;
pub mod user;
pub mod dictionary;
pub mod save_data;
pub mod game_screens;
pub mod debug_properties;
pub mod web;
pub mod text;
