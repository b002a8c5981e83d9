//! Verified core of a toolkit for writing Neovim plugins: fuzzy search
//! ranking and state handling, recent-directory bookkeeping, preview
//! formatting and the plain data types handed to the editor.

pub mod text;
pub mod levenshtein;
pub mod path;
pub mod diffuser;
pub mod search_state;
pub mod fuzzy;
pub mod preview;
pub mod recent;
pub mod tasks;
pub mod devicon;
pub mod database;
pub mod bridge;
pub mod macros;
pub mod api_types;
pub mod nui;
pub mod debug;
pub mod callback;
pub mod rank;
pub mod options;
