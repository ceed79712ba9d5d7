//! The boundary to the external diagram renderer: a pure function from
//! diagram source text and settings to vector markup.
use vstd::prelude::*;

use crate::settings::{Settings, SettingsV};

verus! {

/// The vector markup the external renderer produces for a diagram source
/// text under given settings. The renderer's output depends on its two
/// arguments alone; its algorithm is not restated here.
pub uninterp spec fn svg_of(text: Seq<char>, settings: SettingsV) -> Seq<char>;

/// Relies on svgbob::to_svg_with_settings: renders ASCII diagram text to SVG
/// markup, a pure function of the text and the settings. Options the library
/// leaves unset keep svgbob's own defaults.
#[verifier::external_body]
fn svgbob_render(text: &str, settings: &Settings) -> (r: String)
    ensures
        r@ == svg_of(text@, settings@),
{
    let mut s = svgbob::Settings::default();
    if let Option::Some(v) = &settings.font_size { s.font_size = *v; }
    if let Option::Some(v) = &settings.font_family { s.font_family = v.clone(); }
    if let Option::Some(v) = &settings.fill_color { s.fill_color = v.clone(); }
    if let Option::Some(v) = &settings.background { s.background = v.clone(); }
    if let Option::Some(v) = &settings.stroke_color { s.stroke_color = v.clone(); }
    svgbob::to_svg_with_settings(text, &s)
}

/// Why a render attempt failed.
#[derive(Debug)]
pub struct RenderError {
    pub detail: String,
}

/// The render boundary: diagram source text and settings in, vector markup or
/// a structured error out. With the present renderer every input renders, so
/// success is always owed.
pub fn render_diagram(text: &String, settings: &Settings) -> (r: Result<String, RenderError>)
    ensures
        r matches Ok(svg) && svg@ == svg_of(text@, settings@),
{
    Ok(svgbob_render(text.as_str(), settings))
}

} // verus!
