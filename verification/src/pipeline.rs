//! The per-image step of the batch: sample the region of interest, build the
//! composite canvas, overlay the caption lines, and produce the log line.
//! Everything here is a pure function of the decoded pixels, the file stem
//! and the configuration; reading, decoding, encoding and writing stay with
//! the caller.

use vstd::prelude::*;

use crate::canvas::compose_canvas;
use crate::canvas::crop_image;
use crate::canvas::lemma_mean_channel_bounds;
use crate::canvas::mean_channel;
use crate::canvas::mean_color;
use crate::canvas::region_data;
use crate::canvas::region_mean;
use crate::canvas::Image;
use crate::canvas::Roi;
use crate::color::color_string;
use crate::color::color_text;
use crate::color::Color;
use crate::config::Config;
use crate::error::Error;
use crate::parse::bad_stem_message;
use crate::parse::caption_of;
use crate::parse::parse_date;
use crate::parse::stem_ok;
use crate::paths::out_path;
use crate::text::draw_citing;

verus! {

/// The log line one processed image produces:
/// `<location>, <DD.MM.YYYY, HH:MM:SS>, Rgb([R, G, B])`.
pub open spec fn log_line(location: Seq<char>, stem: Seq<char>, c: Color) -> Seq<char> {
    location + ", "@ + caption_of(stem) + ", "@ + color_text(c)
}

/// Processes one decoded image: computes the mean color of the configured
/// region, builds a canvas of twice the image's width — the left half flooded
/// with the mean color, the right half the image itself —, overlays three
/// caption lines (location and capture time, a fixed title, the mean color's
/// textual form), and returns the canvas with the log line.
///
/// The caller guarantees a nonempty region inside the image's bounds, room
/// for the doubled width and for the stacked caption origins. The result is
/// `Ok` exactly when the file stem parses; a stem that does not parse is
/// rejected with the parser's `FormatError`.
pub fn process_image(input: &Image, stem: &str, config: &Config) -> (r: Result<
    (Image, String),
    Error,
>)
    requires
        input.wf(),
        config.roi.nonempty(),
        config.roi.within(input.spec_width(), input.spec_height()),
        2 * input.spec_width() <= u32::MAX,
        3 * ((2 * input.spec_width()) * input.spec_height()) <= usize::MAX,
        config.font.spec_pos().1 + 2 * config.font.spec_scale_px() <= u32::MAX,
    ensures
        r is Ok <==> stem_ok(stem@),
        r matches Err(e) ==> e is FormatError && e.spec_message() == bad_stem_message(stem@),
        r matches Ok((out, log)) ==> out.wf() && out.spec_width() == 2 * input.spec_width()
            && out.spec_height() == input.spec_height() && log@ == log_line(
            config.location@,
            stem@,
            region_mean(input@, input.spec_width(), config.roi),
        ),
{
    let ghost w = input.spec_width();
    let ghost n = (config.roi.width * config.roi.height) as int;
    proof {
        assert(n > 0) by (nonlinear_arith)
            requires
                n == config.roi.width * config.roi.height && config.roi.width > 0
                    && config.roi.height > 0,
        ;
    }
    let cropped = crop_image(input, &config.roi);
    let color = mean_color(&cropped);
    proof {
        lemma_mean_channel_bounds(region_data(input@, w, config.roi), n, 0);
        lemma_mean_channel_bounds(region_data(input@, w, config.roi), n, 1);
        lemma_mean_channel_bounds(region_data(input@, w, config.roi), n, 2);
        assert(color == region_mean(input@, w, config.roi));
    }
    let mut canvas = compose_canvas(input, color);
    let date = match parse_date(stem) {
        Ok(d) => d,
        Err(e) => {
            return Err(e);
        },
    };
    let mut location_date = config.location.clone();
    location_date.append(", ");
    location_date.append(date.as_str());
    let (pos_x, pos_y) = config.font.pos();
    let line_height = config.font.scale_px();
    draw_citing(&mut canvas, &config.font, pos_x, pos_y, location_date.as_str());
    draw_citing(
        &mut canvas,
        &config.font,
        pos_x,
        pos_y + line_height,
        "Average colour of forest activity",
    );
    let color_str = color_string(color);
    draw_citing(
        &mut canvas,
        &config.font,
        pos_x,
        pos_y + 2 * line_height,
        color_str.as_str(),
    );
    let mut log = location_date;
    log.append(", ");
    log.append(color_str.as_str());
    proof {
        assert(log@ =~= log_line(config.location@, stem@, region_mean(input@, w, config.roi)));
    }
    Ok((canvas, log))
}

/// Re-running the pipeline on unchanged inputs reproduces its artifacts: the
/// caption, the region's mean color, the log line and the output path are
/// functions of the pixel data, the file name and the configuration alone,
/// never of the clock or the environment. (The exact ink the glyph rasterizer
/// leaves on the canvas is the one artifact outside this statement: it lives
/// behind a trusted call.)
pub proof fn lemma_rerun_deterministic(
    data1: Seq<u8>,
    data2: Seq<u8>,
    w1: int,
    w2: int,
    stem1: Seq<char>,
    stem2: Seq<char>,
    loc1: Seq<char>,
    loc2: Seq<char>,
    dir1: Seq<char>,
    dir2: Seq<char>,
    src1: Seq<char>,
    src2: Seq<char>,
    roi1: Roi,
    roi2: Roi,
)
    requires
        data1 == data2,
        w1 == w2,
        stem1 == stem2,
        loc1 == loc2,
        dir1 == dir2,
        src1 == src2,
        roi1 == roi2,
    ensures
        caption_of(stem1) == caption_of(stem2),
        region_mean(data1, w1, roi1) == region_mean(data2, w2, roi2),
        log_line(loc1, stem1, region_mean(data1, w1, roi1)) == log_line(
            loc2,
            stem2,
            region_mean(data2, w2, roi2),
        ),
        out_path(dir1, src1) == out_path(dir2, src2),
{
}

} // verus!
