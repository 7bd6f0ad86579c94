//! Render the embedded styles of a template fragment once per render pass.
//!
//! A [`CssOnce`] tracker records which fragment kinds have already emitted
//! their `<style>` block; [`css_once`] emits a block on the first request of
//! a kind and nothing afterwards.

pub mod laws;
mod style;
mod tracker;

pub use style::{css_once, emitted, joined, style_block, style_text};
pub use tracker::CssOnce;
