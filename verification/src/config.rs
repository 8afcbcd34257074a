//! The validated run configuration: input and output directories, the region
//! of interest, the caption style and the camera's location label.

use vstd::prelude::*;

use crate::canvas::Roi;
use crate::error::Error;
use crate::locations::location_for;
use crate::locations::location_map;
use crate::locations::location_table;
use crate::text::FontStyle;

verus! {

/// Four values describe a usable region of interest: origin and size, each
/// fitting a 32-bit pixel coordinate, the size positive.
pub open spec fn roi_values_ok(vals: Seq<i64>) -> bool {
    vals.len() == 4 && 0 <= vals[0] <= u32::MAX && 0 <= vals[1] <= u32::MAX && 0 < vals[2]
        <= u32::MAX && 0 < vals[3] <= u32::MAX
}

impl Roi {
    /// Builds a region of interest from the four configured integers
    /// `x, y, width, height`; anything but four values with nonnegative
    /// origin and positive size in 32-bit range is a malformed region and is
    /// rejected with a `ConfigError`.
    pub fn from_values(vals: &Vec<i64>) -> (r: Result<Roi, Error>)
        ensures
            r is Ok <==> roi_values_ok(vals@),
            r matches Ok(roi) ==> roi.x == vals@[0] && roi.y == vals@[1] && roi.width == vals@[2]
                && roi.height == vals@[3] && roi.nonempty(),
            r matches Err(e) ==> e is ConfigError,
    {
        if vals.len() != 4 {
            return Err(Error::ConfigError(String::from_str("the region of interest takes exactly four values")));
        }
        let x = vals[0];
        let y = vals[1];
        let w = vals[2];
        let h = vals[3];
        if x < 0 || x > u32::MAX as i64 || y < 0 || y > u32::MAX as i64 {
            return Err(Error::ConfigError(String::from_str("the region's origin is out of range")));
        }
        if w <= 0 || w > u32::MAX as i64 || h <= 0 || h > u32::MAX as i64 {
            return Err(Error::ConfigError(String::from_str("the region's size must be positive and in range")));
        }
        Ok(Roi { x: x as u32, y: y as u32, width: w as u32, height: h as u32 })
    }
}

/// Everything a run needs, validated: where to read, where to write, what
/// region to sample, how to draw captions, and the camera's location label.
pub struct Config {
    pub input_path: String,
    pub output_path: String,
    pub roi: Roi,
    pub font: FontStyle,
    pub location: String,
}

impl Config {
    /// Assembles the configuration: resolves the camera identifier against
    /// the location table, validates the region of interest, and derives the
    /// output directory as `Output` inside the input directory. An unknown
    /// camera identifier or a malformed region is a `ConfigError`.
    pub fn new(input_path: String, location_id: &String, font: FontStyle, roi_values: &Vec<i64>)
        -> (r: Result<Config, Error>)
        ensures
            r is Ok <==> crate::locations::known_location(location_id@) && roi_values_ok(
                roi_values@,
            ),
            r matches Ok(c) ==> c.input_path@ == input_path@ && c.output_path@ == input_path@
                + "/Output"@ && c.font == font && c.roi.x == roi_values@[0] && c.roi.y
                == roi_values@[1] && c.roi.width == roi_values@[2] && c.roi.height
                == roi_values@[3] && c.roi.nonempty() && exists|i: int|
                0 <= i < location_table().len() && (#[trigger] location_table()[i]).0
                    == location_id@ && c.location@ == location_table()[i].1,
            r matches Err(e) ==> e is ConfigError,
    {
        let map = location_map();
        let location = match location_for(&map, location_id) {
            Some(l) => {
                proof {
                    let i = choose|i: int|
                        0 <= i < map@.len() && (#[trigger] map@[i].0)@ == location_id@ && l@
                            == map@[i].1@;
                    assert(location_table()[i].0 == location_id@);
                }
                l
            },
            None => {
                proof {
                    if crate::locations::known_location(location_id@) {
                        let i = choose|i: int|
                            0 <= i < location_table().len() && location_table()[i].0
                                == location_id@;
                        assert((map@[i].0)@ == location_id@);
                    }
                }
                return Err(
                    Error::ConfigError(String::from_str("Given location info is unknown")),
                );
            },
        };
        let roi = match Roi::from_values(roi_values) {
            Ok(roi) => roi,
            Err(e) => {
                return Err(e);
            },
        };
        let output_path = input_path.clone().concat("/Output");
        Ok(Config { input_path, output_path, roi, font, location })
    }
}

} // verus!
