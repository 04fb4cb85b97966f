//! The run's inputs as the command line gives them.
use crate::hosts::enums::Host;
use vstd::prelude::*;

verus! {

pub struct Args {
    /// Directories whose files are uploaded.
    pub directories: Vec<String>,
    /// Files to upload.
    pub file_paths: Vec<String>,
    /// The hosts to upload to, in order.
    pub hosts: Vec<Host>,
    /// Where the output template is appended, if anywhere.
    pub out_path: Option<String>,
    /// Whether directories are walked into their subdirectories.
    pub recursive: bool,
    /// The output template.
    pub template: String,
    /// Whether the output file is emptied at start.
    pub wipe: bool,
}

} // verus!
