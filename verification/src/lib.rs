//! Verified core of a terminal text reader: paragraph justification,
//! command translation, buffer management, cursor navigation, selection,
//! text objects, search, the key handlers of each mode, commands, marks,
//! settings, scripted demos and their playback, and the decisions of the
//! main loop.

pub mod text;
pub mod justify;
pub mod justify_laws;
pub mod command_translation;
pub mod core_types;
pub mod editor;
pub mod buffers;
pub mod overlay;
pub mod split;
pub mod keys;
pub mod movement;
pub mod navigation;
pub mod navigation_laws;
pub mod search;
pub mod search_keys;
pub mod search_laws;
pub mod selection;
pub mod selection_laws;
pub mod text_objects;
pub mod text_object_laws;
pub mod config;
pub mod bookmarks;
pub mod debug;
pub mod demo;
pub mod demo_script;
pub mod demo_components;
pub mod demo_tutorial_test;
pub mod demo_executor;
pub mod demo_laws;
pub mod display_loop;
pub mod commands;
pub mod info_screen;
pub mod shell;
pub mod normal_keys;
pub mod normal_mode;
pub mod event_handler;
pub mod online;
pub mod display;
