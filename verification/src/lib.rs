//! Core of a compile-time code generator that turns annotated async
//! functions into HTTP dispatch code.
//!
//! Two rewrites share small helpers. The handler rewrite
//! ([`handler::handler`]) wraps one async function into a module holding a
//! generated `handler` adapter — a method guard, a parameter extraction
//! prelude, and a tail call — beside the user's function renamed `call`.
//! The route rewrite ([`route::route`]) replaces the `path!`/`method!`
//! dispatch macro inside a routing function by a nested `match` over path
//! segments and HTTP methods ([`grammar`] parses the macro body into a
//! [`target::Target`] tree, [`render`] turns the tree into tokens), and
//! splices a context-setup prelude before it.
//!
//! Everything here works on a plain-value model of the host language's
//! syntax: identifiers are byte strings and token trees are flattened token
//! lists; the surrounding compiler front end converts between that model and
//! its own syntax tree.

pub mod grammar;
pub mod handler;
pub mod render;
pub mod route;
pub mod target;
pub mod text;
pub mod tok;
pub mod vis;
