//! Import of electronics-CAD design files (schematics, symbol libraries and
//! board layouts written as nested parenthesized expressions) into a shared
//! design model.
//!
//! `parser` turns text into an expression tree (`sexpr`); the importers in
//! `schematic`, `library` and `layout` walk that tree. Numbers are read as
//! exact decimals (`decimal`), and identifiers a document lacks come from an
//! identifier policy (`ids`). `laws` states what holds across imports.
pub mod sexpr;
pub mod text;
pub mod parser;
pub mod decimal;
pub mod ids;
pub mod geometry;
pub mod schematic;
pub mod library;
pub mod units;
pub mod layout;
pub mod domain;
pub mod ui;
pub mod routing;
pub mod net;
pub mod project;
pub mod png_export;
pub mod laws;
