//! Protocol logic of a Simutronics game proxy: the streaming XML parser, the
//! XML-to-GSL converter for older front ends, the game object registry and the
//! game state it feeds, the eAccess login parsing, the saved-credential store
//! and the small lookup tables around them.
pub mod text;
pub mod game_state;
pub mod game_obj;
pub mod xml_parser;
pub mod xml_tags;
pub mod pattern;
pub mod gsl_converter;
pub mod dispatch;
pub mod frontend;
pub mod spell_data;
pub mod infomon;
pub mod type_data;
pub mod eaccess;
pub mod credentials;
pub mod encryption;
pub mod session;
pub mod login;
pub mod theme_config;
pub mod config;
pub mod xml_events;
pub mod spell_list;
pub mod skills;
pub mod stats;
pub mod spell_ranks;
pub mod hook_chain;
pub mod digests;
pub mod version;
pub mod launch;
pub mod sandbox;
pub mod login_play;
pub mod map;
pub mod password_change;
pub mod feed_split;
