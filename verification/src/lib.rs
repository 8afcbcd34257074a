//! Batch annotation of fixed-camera photographs: sampling the mean color of a
//! configured region of interest, parsing the capture timestamp out of the
//! file name, and composing an annotated output canvas.

use vstd::prelude::*;

mod canvas;
mod color;
mod config;
mod error;
mod locations;
mod parse;
mod paths;
mod pipeline;
mod text;

pub use canvas::compose_canvas;
pub use canvas::composite_chan;
pub use canvas::crop_image;
pub use canvas::csum;
pub use canvas::fill_rect;
pub use canvas::lemma_region_sampler_uniform;
pub use canvas::lemma_uniform_mean;
pub use canvas::mean_channel;
pub use canvas::mean_color;
pub use canvas::pchan;
pub use canvas::px;
pub use canvas::region_data;
pub use canvas::region_mean;
pub use canvas::uniform;
pub use canvas::Image;
pub use canvas::Roi;
pub use color::color_string;
pub use color::color_text;
pub use color::Color;
pub use config::roi_values_ok;
pub use config::Config;
pub use error::Error;
pub use locations::known_location;
pub use locations::location_for;
pub use locations::location_map;
pub use locations::location_table;
pub use parse::bad_stem_message;
pub use parse::caption_of;
pub use parse::parse_date;
pub use parse::stem_ok;
pub use paths::dots_only_name;
pub use paths::has_extension;
pub use paths::no_extension_message;
pub use paths::out_path;
pub use paths::output_file_path;
pub use paths::path_has_extension;
pub use pipeline::lemma_rerun_deterministic;
pub use pipeline::log_line;
pub use pipeline::process_image;
pub use text::draw_citing;
pub use text::font_accepted;
pub use text::glyph_span;
pub use text::text_width;
pub use text::FontStyle;

verus! {

/// Usage text for the command-line front end.
pub fn help() -> (r: String)
    ensures
        r@ == "usage: \
    image-generator [<images_path>] [<Camera_ID>] [<font_path] [<font_size>] [<red_value> <green_value> <blue_value>] [<x-coordinate> <y-coordinate> <width> <height>]\n\
    example: image-generator src/test_data MC105 src/DejaVuSans.ttf 14 32 35 68 100 100 100 100"@,
{
    String::from_str(
        "usage: \
    image-generator [<images_path>] [<Camera_ID>] [<font_path] [<font_size>] [<red_value> <green_value> <blue_value>] [<x-coordinate> <y-coordinate> <width> <height>]\n\
    example: image-generator src/test_data MC105 src/DejaVuSans.ttf 14 32 35 68 100 100 100 100",
    )
}

} // verus!
