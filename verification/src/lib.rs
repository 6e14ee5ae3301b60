pub mod beerlist;
pub mod rustix;
pub mod text;
pub mod clock;
pub mod screen;
pub mod mock;
pub mod assistant;
pub mod settings;
pub mod laws;
