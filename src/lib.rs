//! Generates a `greet` method for a record with `name` and `age` fields, in
//! the four styles of a function-like generator, a derive, an attribute with
//! options, and a derive that reads a companion attribute; and renders the
//! line that such a method prints.
use vstd::prelude::*;

pub mod codegen;
pub mod config;
pub mod item;
pub mod template;

pub use codegen::{
    GenError, add_greet, add_greet_from, greet, greet2, greet2_from, greet2_template, greet_derive,
    greet_derive_from, greet_from, greet_template, impl_block,
};
pub use item::{Attr, Body, Declaration};
pub use config::{ConfigError, MetaArg, content_from_args};
pub use template::{DEFAULT_TEMPLATE, decimal_text, default_greeting, fill_text, render};

verus! {

} // verus!
