use crate::text::ends_with;
use vstd::prelude::*;

verus! {

/// The settings of the project manager.
#[derive(Debug)]
pub struct Config {
    pub general: General,
    pub theme: Theme,
}

/// General settings: where projects live, and whether removing a project
/// also removes its folder by default.
#[derive(Debug)]
pub struct General {
    pub projects_dir: String,
    pub delete_project_folder: bool,
}

/// The colour theme setting.
#[derive(Debug)]
pub struct Theme {
    pub theme: IcedTheme,
}

/// The colour themes that can be chosen.
#[derive(Debug, PartialEq, Eq, Structural)]
pub enum IcedTheme {
    Light,
    Dark,
    Dracula,
    Nord,
    SolarizedLight,
    SolarizedDark,
    GruvboxLight,
    GruvboxDark,
    CatppuccinLatte,
    CatppuccinFrappe,
    CatppuccinMacchiato,
    CatppuccinMocha,
    TokyoNight,
    TokyoNightStorm,
    TokyoNightLight,
    KanagawaWave,
    KanagawaDragon,
    KanagawaLotus,
    Moonfly,
    Nightfly,
    Oxocarbon,
    Ferra,
}

impl Default for IcedTheme {
    /// The dark theme.
    fn default() -> (r: IcedTheme)
        ensures
            r == IcedTheme::Dark,
    {
        IcedTheme::Dark
    }
}

impl Default for Theme {
    /// The default theme setting.
    fn default() -> (r: Theme)
        ensures
            r.theme == IcedTheme::Dark,
    {
        Theme { theme: IcedTheme::Dark }
    }
}

impl Default for General {
    /// No projects directory, and folders are kept when a project is removed.
    fn default() -> (r: General)
        ensures
            r.projects_dir@ == Seq::<char>::empty(),
            !r.delete_project_folder,
    {
        General { projects_dir: String::new(), delete_project_folder: false }
    }
}

impl Default for Config {
    /// The default settings.
    fn default() -> (r: Config)
        ensures
            r.general.projects_dir@ == Seq::<char>::empty(),
            !r.general.delete_project_folder,
            r.theme.theme == IcedTheme::Dark,
    {
        Config { general: General::default(), theme: Theme::default() }
    }
}

/// The message given when the projects directory setting is not usable.
pub open spec fn invalid_projects_dir_message() -> Seq<char> {
    "Error: Failed to run projman please make sure projects_dir in .config/projman/config.toml is a valid directory (Dont forget the trailing slash!!)"@
}

impl Config {
    /// The settings can be used when the projects directory is named, is a
    /// directory (`projects_dir_is_dir`, found on disk by the caller) and its
    /// name ends with a slash.
    pub open spec fn valid(&self, projects_dir_is_dir: bool) -> bool {
        &&& self.general.projects_dir@.len() > 0
        &&& projects_dir_is_dir
        &&& self.general.projects_dir@.last() == '/'
    }

    /// Checks that the settings can be used (see `valid`); the error carries
    /// the message that explains how to fix them.
    pub fn is_valid(&self, projects_dir_is_dir: bool) -> (r: Result<(), String>)
        ensures
            r is Ok <==> self.valid(projects_dir_is_dir),
            r matches Err(m) ==> m@ == invalid_projects_dir_message(),
    {
        proof {
            reveal_strlit("/");
        }
        let dir = self.general.projects_dir.as_str();
        let slash = ends_with(dir, "/");
        proof {
            let s = self.general.projects_dir@;
            if s.len() > 0 && s.last() == '/' {
                assert(s.subrange(s.len() - 1, s.len() as int) =~= "/"@);
            }
        }
        if dir.unicode_len() == 0 || !projects_dir_is_dir || !slash {
            return Err(
                String::from_str(
                    "Error: Failed to run projman please make sure projects_dir in .config/projman/config.toml is a valid directory (Dont forget the trailing slash!!)",
                ),
            );
        }
        proof {
            let s = self.general.projects_dir@;
            assert(s.subrange(s.len() - 1, s.len() as int)[0] == s.last());
        }
        Ok(())
    }
}

} // verus!
