//! Verified core of the Godot CEF integration: HTTP range parsing, MIME
//! lookup, `res://`/`user://` URL handling, multipart byte-range framing,
//! pixel compositing, key-code translation and the small data types that
//! the browser glue passes around.

pub mod text;
pub mod range;
pub mod mime;
pub mod scheme;
pub mod url;
pub mod multipart;
pub mod composite;

pub mod keycode;
pub mod input;
pub mod gpu;
pub mod error;
pub mod paths;
pub mod queue;
pub mod plist;
pub mod device_select;
pub mod frame;
pub mod cursor;
pub mod app_config;
pub mod browser_state;
pub mod ipc;
pub mod resource;
pub mod settings;
pub mod backend;
pub mod lifecycle;
pub mod vulkan_ext;
pub mod bundle;
