pub mod directories;
pub mod events;
pub mod fs_path;
pub mod hashing;
pub mod ids;
pub mod install;
pub mod instance;
pub mod load_state;
pub mod messages;
pub mod mods;
pub mod path_set;
pub mod router;
pub mod safe_path;
pub mod schema;
pub mod servers;
pub mod sorting;
pub mod store;
pub mod summaries;
pub mod text;
pub mod watch;
pub mod worlds;
