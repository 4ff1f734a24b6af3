//! Slate: the verified core of a web compatibility layer.
pub mod strs;
pub mod text_types;
pub mod script;
pub mod features;
mod random;
pub mod string_map;
pub mod storage;
pub mod svg;
pub mod pattern;
pub mod forms;
pub mod normalize;
pub mod gsub;
pub mod complex;
pub mod unicode;
pub mod wasm;
pub mod webgl;
pub mod event_loop;
pub mod bridge;
pub mod host;
pub mod text;
pub mod console;
pub mod webapi;
pub mod shaping;
pub mod pipeline;
pub mod profiler;
pub mod line_break;
pub mod wasm_module;
pub mod state;
pub mod text_split;
pub mod translator;
pub mod dom;
