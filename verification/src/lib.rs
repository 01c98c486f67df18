//! A minimal client-side blog renderer, modelled and verified.
//!
//! The library holds the logic of the renderer: the fixed post catalog, the
//! construction of a post's fetch URL, the collapse of fetch failures to a
//! single "absent" outcome, and the two renderers, stated and verified over an
//! explicit model of the host page's elements. The host environment (a real
//! page and a real network) performs the effects; it hands this library plain
//! values and takes plain values back.

pub mod catalog;
pub mod dom;
pub mod fetch;
pub mod render;
