use vstd::prelude::*;

pub mod table;
pub mod hook;
pub mod parser_state;
pub mod args;
pub mod define_plugin;
pub mod plugin;
pub mod drive;
pub mod common_js_plugin;
pub mod esm_lib_parser_plugin;
pub mod esm_top_level_this_plugin;
pub mod exports_info_api_plugin;
pub mod hashbang_parser_plugin;
pub mod is_included_plugin;
pub mod override_strict_plugin;
pub mod rslib_parser_plugin;
