//! The elevation-hazard diagram: a mountain silhouette in three elevation
//! bands, the band under consideration filled with the colour of its hazard
//! level.

use vstd::prelude::*;
use vstd::string::StringExecFns;

verus! {

/// The three elevation bands of a forecast area.
#[derive(Clone, Copy, Debug, PartialEq, Eq, Structural)]
pub enum ElevationBand {
    HighAlpine,
    Alpine,
    SubAlpine,
}

/// The five-step avalanche hazard scale.
#[derive(Clone, Copy, Debug, PartialEq, Eq, Structural)]
pub enum HazardLevel {
    Low,
    Moderate,
    Considerable,
    High,
    Extreme,
}

impl HazardLevel {
    /// The RGBA hex colour that stands for this hazard level.
    pub open spec fn spec_colour_hex(self) -> Seq<char> {
        match self {
            HazardLevel::Low => "#00bb0aff"@,
            HazardLevel::Moderate => "#fdff22ff"@,
            HazardLevel::Considerable => "#f88000ff"@,
            HazardLevel::High => "#f80000ff"@,
            HazardLevel::Extreme => "#000000ff"@,
        }
    }

    pub fn colour_hex(&self) -> (r: &'static str)
        ensures
            r@ == self.spec_colour_hex(),
    {
        match self {
            HazardLevel::Low => "#00bb0aff",
            HazardLevel::Moderate => "#fdff22ff",
            HazardLevel::Considerable => "#f88000ff",
            HazardLevel::High => "#f80000ff",
            HazardLevel::Extreme => "#000000ff",
        }
    }
}

/// The band to draw and the hazard level to fill it with.
#[derive(Clone, Copy, Debug, PartialEq, Eq, Structural)]
pub struct ElevationHazard {
    pub elevation_band: ElevationBand,
    pub hazard_level: HazardLevel,
}

/// The fill of one band: the hazard colour where it is the band under
/// consideration, white everywhere else.
pub open spec fn spec_band_colour(elevation_hazard: ElevationHazard, band: ElevationBand) -> Seq<
    char,
> {
    if elevation_hazard.elevation_band == band {
        elevation_hazard.hazard_level.spec_colour_hex()
    } else {
        "#ffffffff"@
    }
}

pub open spec fn svg_head() -> Seq<char> {
    r##"<?xml version="1.0" encoding="UTF-8" standalone="no"?>
<!-- Created with Inkscape (http://www.inkscape.org/) -->

<svg
   width="400"
   height="400"
   viewBox="0 0 105.83333 105.83334"
   version="1.1"
   id="svg5"
   xmlns="http://www.w3.org/2000/svg"
   xmlns:svg="http://www.w3.org/2000/svg">
  <defs
     id="defs2" />
  <g
     id="layer1">
    <path
       style="fill:"##@
}

pub open spec fn svg_after_high_alpine() -> Seq<char> {
    r##";stroke:#000000;stroke-width:0.264583px;stroke-linecap:butt;stroke-linejoin:miter;stroke-opacity:1"
       d="M 54.569168,4.0210426 34.735194,39.481727 73.493156,39.781862 Z"
       id="high-alpine" />
    <path
       style="fill:"##@
}

pub open spec fn svg_after_alpine() -> Seq<char> {
    r##";stroke:#000000;stroke-width:0.264583px;stroke-linecap:butt;stroke-linejoin:miter;stroke-opacity:1"
       d="M 17.818713,68.375259 88.758537,68.188805 73.493156,39.781862 34.735194,39.481727 Z"
       id="alpine" />
    <path
       style="fill:"##@
}

pub open spec fn svg_tail() -> Seq<char> {
    r##";fill-opacity:1;stroke:none;stroke-width:0.980408;stroke-miterlimit:4;stroke-dasharray:none;stroke-opacity:1"
       d="M 2.2299132,96.35494 17.818713,68.375259 88.758536,68.188803 103.88618,96.473276 Z"
       id="sub-alpine" />
    <path
       style="fill:none;stroke:#000000;stroke-width:1.05833335;stroke-linecap:butt;stroke-linejoin:miter;stroke-miterlimit:4;stroke-dasharray:none;stroke-opacity:1"
       d="M 2.2299132,96.35494 54.569167,4.0210425 103.88618,96.473276 Z"
       id="path44" />
    <path
       style="fill:none;stroke:#000000;stroke-width:1.05833335;stroke-linecap:butt;stroke-linejoin:miter;stroke-miterlimit:4;stroke-dasharray:none;stroke-opacity:1"
       d="M 17.818713,68.375259 88.758536,68.188803"
       id="path1031" />
    <path
       style="fill:none;stroke:#000000;stroke-width:1.05833335;stroke-linecap:butt;stroke-linejoin:miter;stroke-miterlimit:4;stroke-dasharray:none;stroke-opacity:1"
       d="m 34.735195,39.481726 38.757959,0.300136"
       id="path1033" />
  </g>
</svg>
"##@
}

/// The whole SVG document for a diagram: the fixed markup with the three
/// band fills spliced in.
pub open spec fn spec_generate_svg(elevation_hazard: ElevationHazard) -> Seq<char> {
    svg_head() + spec_band_colour(elevation_hazard, ElevationBand::HighAlpine)
        + svg_after_high_alpine() + spec_band_colour(elevation_hazard, ElevationBand::Alpine)
        + svg_after_alpine() + spec_band_colour(elevation_hazard, ElevationBand::SubAlpine)
        + svg_tail()
}

/// Renders the elevation-hazard diagram as an SVG document.
pub fn generate_svg(elevation_hazard: ElevationHazard) -> (r: String)
    ensures
        r@ == spec_generate_svg(elevation_hazard),
{
    let high_alpine_colour = match elevation_hazard.elevation_band {
        ElevationBand::HighAlpine => elevation_hazard.hazard_level.colour_hex(),
        _ => "#ffffffff",
    };
    let alpine_colour = match elevation_hazard.elevation_band {
        ElevationBand::Alpine => elevation_hazard.hazard_level.colour_hex(),
        _ => "#ffffffff",
    };
    let sub_alpine_colour = match elevation_hazard.elevation_band {
        ElevationBand::SubAlpine => elevation_hazard.hazard_level.colour_hex(),
        _ => "#ffffffff",
    };
    let mut out = String::new();
    out.append(
        r##"<?xml version="1.0" encoding="UTF-8" standalone="no"?>
<!-- Created with Inkscape (http://www.inkscape.org/) -->

<svg
   width="400"
   height="400"
   viewBox="0 0 105.83333 105.83334"
   version="1.1"
   id="svg5"
   xmlns="http://www.w3.org/2000/svg"
   xmlns:svg="http://www.w3.org/2000/svg">
  <defs
     id="defs2" />
  <g
     id="layer1">
    <path
       style="fill:"##,
    );
    out.append(high_alpine_colour);
    out.append(
        r##";stroke:#000000;stroke-width:0.264583px;stroke-linecap:butt;stroke-linejoin:miter;stroke-opacity:1"
       d="M 54.569168,4.0210426 34.735194,39.481727 73.493156,39.781862 Z"
       id="high-alpine" />
    <path
       style="fill:"##,
    );
    out.append(alpine_colour);
    out.append(
        r##";stroke:#000000;stroke-width:0.264583px;stroke-linecap:butt;stroke-linejoin:miter;stroke-opacity:1"
       d="M 17.818713,68.375259 88.758537,68.188805 73.493156,39.781862 34.735194,39.481727 Z"
       id="alpine" />
    <path
       style="fill:"##,
    );
    out.append(sub_alpine_colour);
    out.append(
        r##";fill-opacity:1;stroke:none;stroke-width:0.980408;stroke-miterlimit:4;stroke-dasharray:none;stroke-opacity:1"
       d="M 2.2299132,96.35494 17.818713,68.375259 88.758536,68.188803 103.88618,96.473276 Z"
       id="sub-alpine" />
    <path
       style="fill:none;stroke:#000000;stroke-width:1.05833335;stroke-linecap:butt;stroke-linejoin:miter;stroke-miterlimit:4;stroke-dasharray:none;stroke-opacity:1"
       d="M 2.2299132,96.35494 54.569167,4.0210425 103.88618,96.473276 Z"
       id="path44" />
    <path
       style="fill:none;stroke:#000000;stroke-width:1.05833335;stroke-linecap:butt;stroke-linejoin:miter;stroke-miterlimit:4;stroke-dasharray:none;stroke-opacity:1"
       d="M 17.818713,68.375259 88.758536,68.188803"
       id="path1031" />
    <path
       style="fill:none;stroke:#000000;stroke-width:1.05833335;stroke-linecap:butt;stroke-linejoin:miter;stroke-miterlimit:4;stroke-dasharray:none;stroke-opacity:1"
       d="m 34.735195,39.481726 38.757959,0.300136"
       id="path1033" />
  </g>
</svg>
"##,
    );
    proof {
        assert(out@ =~= spec_generate_svg(elevation_hazard));
    }
    out
}

} // verus!
