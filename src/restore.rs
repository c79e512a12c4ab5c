//! The record of the last wallpaper shown, read back by the `restore` start-up mode.

use crate::cli::ResizeOption;
use vstd::prelude::*;

verus! {

/// The last image that was displayed successfully, with its display options.
#[derive(Debug)]
pub struct Restore {
    pub file_path: String,
    pub resize_option: ResizeOption,
    pub fill_rgb: (u8, u8, u8),
}

impl Restore {
    pub fn new(path: &str, resize_option: ResizeOption, fill_rgb: (u8, u8, u8)) -> (r: Restore)
        ensures
            r.file_path@ == path@,
            r.resize_option == resize_option,
            r.fill_rgb == fill_rgb,
    {
        Restore { file_path: String::from_str(path), resize_option, fill_rgb }
    }
}

} // verus!
