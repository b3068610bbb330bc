pub mod active_app_context;
pub mod audio;
pub mod audio_mute;
pub mod commands;
pub mod config_sync;
pub mod events;
pub mod history;
pub mod recording;
pub mod settings;
pub mod state;
pub mod text;
