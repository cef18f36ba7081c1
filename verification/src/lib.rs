//! An interactive console for operating and inspecting a running virtual-machine
//! simulation.
//!
//! The operator's side keeps the view and input state (`app`), reads keys and
//! the pointer (`keys`, `pointer`, `clicks`), carries out the lines of the
//! command language (`console`) and mirrors what the controller reports
//! (`events`, `mirror`). The controller's side decides what is asked of the
//! engine and what is reported back (`controller`, `engine`). The two sides
//! talk in the messages of `protocol`. Whoever uses the library owns the
//! terminal, the engine and the threads; the library decides and never waits.

// The command line: characters, words, numbers and the line editor.
pub mod editor;
pub mod number;
pub mod text;

// The messages between the two sides, and the controller's side.
pub mod controller;
pub mod engine;
pub mod protocol;
pub mod store;

// The program binary.
pub mod wavebin;

// The screen: colours, rectangles and panels, the scrollbar and the log.
pub mod color;
pub mod layout;
pub mod scrollback;
pub mod scrollbar;

// What is known of instruction words and of the registers of the modules.
pub mod decoder;
pub mod modules;

// The operator's side.
pub mod app;
pub mod breakpoints;
pub mod clicks;
pub mod console;
pub mod events;
pub mod keys;
pub mod mirror;
pub mod pointer;

// What the views and panels show.
pub mod code_view;
pub mod memory_view;
pub mod panels;
