pub mod cli;
pub mod decoder;
pub mod dsd;
pub mod engine;
pub mod event;
pub mod laws;
pub mod library;
pub mod media;
pub mod model;
pub mod pcm;
pub mod player;
pub mod ring;
pub mod store;
