//! The recognized configuration options and their defaults. Reading them
//! from the process's arguments is the caller's affair; the library only
//! fixes what the options are and what they default to.

use vstd::prelude::*;

verus! {

/// The configuration of a run: grid side, render scale, steps per second,
/// whether to present graphics, frames per second, and whether to overlay
/// the frame rate.
#[derive(Clone, Copy, PartialEq, Eq, Structural, Debug)]
pub struct Args {
    pub size: u32,
    pub pixel_size: u32,
    pub update_rate: u32,
    pub show_graphics: bool,
    pub draw_rate: u32,
    pub show_fps: bool,
}

impl Default for Args {
    /// The defaults: a 100-cell side drawn 4 pixels per cell, 2 steps and 2
    /// frames per second, no graphics, frame rate shown.
    fn default() -> (a: Args)
        ensures
            a == (Args {
                size: 100,
                pixel_size: 4,
                update_rate: 2,
                show_graphics: false,
                draw_rate: 2,
                show_fps: true,
            }),
    {
        Args {
            size: 100,
            pixel_size: 4,
            update_rate: 2,
            show_graphics: false,
            draw_rate: 2,
            show_fps: true,
        }
    }
}

} // verus!
