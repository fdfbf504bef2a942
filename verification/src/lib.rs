//! Resolution of argument annotations into a parser-builder model.

pub mod attrs;
pub mod casing;
pub mod directive;
pub mod doc;
pub mod error;
pub mod laws;
pub mod model;
pub mod parser;
pub mod shape;
pub mod text;

pub use attrs::{Attrs, GenOutput};
pub use casing::{CasingStyle, DEFAULT_CASING};
pub use directive::{Args, Directive, Method, ParseFn};
pub use error::{ConfigError, KindRule, ShapeRule};
pub use model::Kind;
pub use parser::{Conversion, Parser};
pub use shape::{GenericArg, Ty, TypeDesc};
