//! A preprocessor library that rewrites `bob`-tagged fenced code regions of a
//! document's markdown sections into rendered SVG markup.
//!
//! The core is a three-state token-stream rewriter: it recognizes a fenced
//! code block tagged exactly `bob`, hands the block's text to an external
//! diagram renderer, and splices the rendered markup back into the token
//! stream in place of the code block. Every other token passes through
//! unchanged. A per-section isolation policy keeps one malformed section from
//! aborting the rest of the document, and a version compatibility check
//! compares the calling host's protocol version against the built one.
use vstd::prelude::*;

pub mod document;
pub mod render;
pub mod rewrite;
pub mod section;
pub mod settings;
pub mod strutil;
pub mod token;
pub mod version;

use crate::strutil::str_eq;

verus! {

/// The name this preprocessor registers under.
pub open spec fn spec_name() -> Seq<char> {
    "svgbob"@
}

/// The one renderer name this preprocessor declares itself inapplicable to.
pub open spec fn spec_reserved_renderer() -> Seq<char> {
    "not-supported"@
}

/// The preprocessor: rewrites `bob`-tagged fenced regions into SVG markup.
pub struct Bob;

impl Bob {
    pub fn new() -> Self {
        Bob
    }

    /// The preprocessor's registered name.
    pub fn name(&self) -> (r: &'static str)
        ensures
            r@ == spec_name(),
    {
        "svgbob"
    }

    /// Applicability query: this preprocessor supports every renderer except
    /// the one reserved sentinel name.
    pub fn supports_renderer(&self, renderer: &str) -> (r: bool)
        ensures
            r == (renderer@ != spec_reserved_renderer()),
    {
        !str_eq(renderer, "not-supported")
    }
}

} // verus!
