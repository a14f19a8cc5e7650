//! Backend queries of a desktop application: the user's preferences, the
//! shell in use with its init file, and the API keys found in the
//! environment.
//!
//! Every query is a function of the values that the host hands in: the
//! variables `SHELL` and `OPENAI_API_KEY`, the home directory, the working
//! directory, the preferences directory and what is found in it. The host
//! reads the environment and the file system; the library decides, and
//! reads neither.

pub mod text;
pub mod yaml;
pub mod paths;
pub mod preferences;
pub mod system;
pub mod api_keys;
