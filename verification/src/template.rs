pub mod file;
pub mod project_context;
pub mod folder;
pub mod command;
pub mod template_config;

use crate::path::{join_path, path_join};
use crate::template::template_config::TemplateConfig;
use vstd::prelude::*;

verus! {

/// A project template: its name, its configuration and the path of its icon.
#[derive(Debug)]
pub struct Template {
    pub name: String,
    pub config: TemplateConfig,
    pub icon_path: String,
}

impl Template {
    /// The template called `name` whose files lie in the folder `base_dir`,
    /// with the configuration `config` read from there; its icon is the
    /// file `icon.svg` of that folder.
    pub fn new(name: &str, config: TemplateConfig, base_dir: &str) -> (r: Template)
        ensures
            r.name@ == name@,
            r.config == config,
            r.icon_path@ == path_join(base_dir@, "icon.svg"@),
    {
        Template { name: String::from_str(name), config, icon_path: join_path(base_dir, "icon.svg") }
    }

    /// The file of the folder `base_dir` that holds a template's configuration.
    pub fn config_path(base_dir: &str) -> (r: String)
        ensures
            r@ == path_join(base_dir@, "template.yaml"@),
    {
        join_path(base_dir, "template.yaml")
    }

    /// Each path that the template includes, joined onto `root`, in order.
    pub fn included_paths(&self, root: &str) -> (r: Vec<String>)
        ensures
            r@.len() == self.config.included_paths@.len(),
            forall|i: int|
                0 <= i < r@.len() ==> #[trigger] r@[i]@ == path_join(
                    root@,
                    self.config.included_paths@[i]@,
                ),
    {
        let mut r: Vec<String> = Vec::new();
        let mut i: usize = 0;
        while i < self.config.included_paths.len()
            invariant
                i <= self.config.included_paths@.len(),
                r@.len() == i,
                forall|k: int|
                    0 <= k < i ==> #[trigger] r@[k]@ == path_join(
                        root@,
                        self.config.included_paths@[k]@,
                    ),
            decreases self.config.included_paths.len() - i,
        {
            r.push(join_path(root, self.config.included_paths[i].as_str()));
            i = i + 1;
        }
        r
    }

    /// The paths that the template excludes, in order.
    pub fn excluded_paths(&self) -> (r: Vec<&str>)
        ensures
            r@.len() == self.config.excluded_paths@.len(),
            forall|i: int| 0 <= i < r@.len() ==> #[trigger] r@[i]@ == self.config.excluded_paths@[i]@,
    {
        let mut r: Vec<&str> = Vec::new();
        let mut i: usize = 0;
        while i < self.config.excluded_paths.len()
            invariant
                i <= self.config.excluded_paths@.len(),
                r@.len() == i,
                forall|k: int| 0 <= k < i ==> #[trigger] r@[k]@ == self.config.excluded_paths@[k]@,
            decreases self.config.excluded_paths.len() - i,
        {
            r.push(self.config.excluded_paths[i].as_str());
            i = i + 1;
        }
        r
    }
}

} // verus!
