use crate::template::{command::Command, file::File, folder::Folder};
use vstd::prelude::*;

verus! {

/// What a template describes: the directories and files a new project gets,
/// the commands that build and run it, and the paths it includes and excludes.
#[derive(Debug)]
pub struct TemplateConfig {
    pub dir_structure: Vec<Folder>,
    pub files: Vec<File>,
    pub build: Vec<Command>,
    pub run: Vec<Command>,
    pub included_paths: Vec<String>,
    pub excluded_paths: Vec<String>,
}

impl Default for TemplateConfig {
    /// A configuration that describes nothing.
    fn default() -> (r: TemplateConfig)
        ensures
            r.dir_structure@.len() == 0,
            r.files@.len() == 0,
            r.build@.len() == 0,
            r.run@.len() == 0,
            r.included_paths@.len() == 0,
            r.excluded_paths@.len() == 0,
    {
        TemplateConfig {
            dir_structure: Vec::new(),
            files: Vec::new(),
            build: Vec::new(),
            run: Vec::new(),
            included_paths: Vec::new(),
            excluded_paths: Vec::new(),
        }
    }
}

} // verus!
