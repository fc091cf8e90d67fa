//! The configuration of the user: its defaults, what is taken over from a file,
//! and the move from the legacy directory.

use crate::path::{
    copy_path, join, joined_path, path_starts_with, path_view, path_view_opt, PathPart,
    PathPartView,
};
use crate::state::{AppState, FloatBits};
use vstd::prelude::*;

verus! {

/// The theme of a new configuration.
pub const DEFAULT_THEME: &'static str = "dracula";

/// The width of the window in a new configuration, 1200.0.
pub const DEFAULT_WIDTH: FloatBits = 0x4092_c000_0000_0000;

/// The height of the window in a new configuration, 800.0.
pub const DEFAULT_HEIGHT: FloatBits = 0x4089_0000_0000_0000;

/// The place and the size of the window, in floating-point bit patterns.
#[derive(Debug, Clone, Copy)]
pub struct WindowConfig {
    pub width: FloatBits,
    pub height: FloatBits,
    pub x: Option<FloatBits>,
    pub y: Option<FloatBits>,
    pub maximized: bool,
}

/// A path that a configuration names: as it is written there, and taken apart.
#[derive(Debug)]
pub struct NamedPath {
    pub text: String,
    pub parts: Vec<PathPart>,
}

/// What a [`NamedPath`] holds.
pub struct NamedPathView {
    pub text: Seq<char>,
    pub parts: Seq<PathPartView>,
}

impl View for NamedPath {
    type V = NamedPathView;

    open spec fn view(&self) -> NamedPathView {
        NamedPathView { text: self.text@, parts: path_view(self.parts@) }
    }
}

impl Clone for NamedPath {
    fn clone(&self) -> (copy: Self)
        ensures
            copy@ == self@,
    {
        NamedPath { text: self.text.clone(), parts: copy_path(&self.parts) }
    }
}

/// What an optional path of a configuration holds.
pub open spec fn named_path_opt(path: Option<NamedPath>) -> Option<NamedPathView> {
    match path {
        Some(p) => Some(p@),
        None => None,
    }
}

/// The configuration of the user.
#[derive(Debug)]
pub struct LotionConfig {
    pub active_theme: String,
    pub custom_css_path: Option<NamedPath>,
    pub restore_tabs: bool,
    pub window: WindowConfig,
}

/// What a [`LotionConfig`] holds.
pub struct ConfigView {
    pub active_theme: Seq<char>,
    pub custom_css_path: Option<NamedPathView>,
    pub restore_tabs: bool,
    pub window: WindowConfig,
}

impl View for LotionConfig {
    type V = ConfigView;

    open spec fn view(&self) -> ConfigView {
        ConfigView {
            active_theme: self.active_theme@,
            custom_css_path: named_path_opt(self.custom_css_path),
            restore_tabs: self.restore_tabs,
            window: self.window,
        }
    }
}

impl Clone for LotionConfig {
    fn clone(&self) -> (copy: Self)
        ensures
            copy@ == self@,
    {
        LotionConfig {
            active_theme: self.active_theme.clone(),
            custom_css_path: match &self.custom_css_path {
                Some(path) => Some(path.clone()),
                None => None,
            },
            restore_tabs: self.restore_tabs,
            window: self.window,
        }
    }
}

/// A new configuration.
pub open spec fn default_config() -> ConfigView {
    ConfigView {
        active_theme: DEFAULT_THEME@,
        custom_css_path: None,
        restore_tabs: true,
        window: WindowConfig {
            width: DEFAULT_WIDTH,
            height: DEFAULT_HEIGHT,
            x: None,
            y: None,
            maximized: false,
        },
    }
}

impl Default for LotionConfig {
    fn default() -> (config: Self)
        ensures
            config@ == default_config(),
    {
        LotionConfig {
            active_theme: DEFAULT_THEME.to_owned(),
            custom_css_path: None,
            restore_tabs: true,
            window: WindowConfig {
                width: DEFAULT_WIDTH,
                height: DEFAULT_HEIGHT,
                x: None,
                y: None,
                maximized: false,
            },
        }
    }
}

/// The name of the configuration directory.
pub const CONFIG_DIR_NAME: &'static str = "lotion-rs";

/// The name of the configuration file.
pub const CONFIG_FILE_NAME: &'static str = "config.toml";

/// The name of the state file.
pub const STATE_FILE_NAME: &'static str = "state.json";

/// The name of the directory of themes.
pub const THEMES_DIR_NAME: &'static str = "custom_themes";

/// The configuration directory below the directory `base`, or below the current
/// one where there is none.
pub open spec fn config_dir_view(base: Option<Seq<PathPartView>>) -> Seq<PathPartView> {
    joined_path(
        match base {
            Some(dir) => dir,
            None => seq![PathPartView::CurDir],
        },
        CONFIG_DIR_NAME@,
    )
}

/// The directory of themes below the directory `base`.
pub open spec fn themes_dir_view(base: Option<Seq<PathPartView>>) -> Seq<PathPartView> {
    joined_path(config_dir_view(base), THEMES_DIR_NAME@)
}

impl LotionConfig {
    /// The configuration directory, given the directory of the user's
    /// configurations if there is one.
    pub fn config_dir(base: Option<Vec<PathPart>>) -> (dir: Vec<PathPart>)
        ensures
            path_view(dir@) == config_dir_view(path_view_opt(base)),
    {
        let parent = match base {
            Some(dir) => dir,
            None => {
                let mut here: Vec<PathPart> = Vec::new();
                here.push(PathPart::CurDir);
                assert(path_view(here@) =~= seq![PathPartView::CurDir]);
                here
            },
        };
        join(parent, CONFIG_DIR_NAME)
    }

    /// The configuration file.
    pub fn config_path(base: Option<Vec<PathPart>>) -> (path: Vec<PathPart>)
        ensures
            path_view(path@) == joined_path(
                config_dir_view(path_view_opt(base)),
                CONFIG_FILE_NAME@,
            ),
    {
        join(Self::config_dir(base), CONFIG_FILE_NAME)
    }
}

impl AppState {
    /// The state file, given the directory of the user's configurations if there
    /// is one.
    pub fn state_path(base: Option<Vec<PathPart>>) -> (path: Vec<PathPart>)
        ensures
            path_view(path@) == joined_path(
                config_dir_view(path_view_opt(base)),
                STATE_FILE_NAME@,
            ),
    {
        join(LotionConfig::config_dir(base), STATE_FILE_NAME)
    }
}

/// Whether a name has the extension `css`: something, and `.css` behind it.
pub open spec fn css_name(name: Seq<u8>) -> bool {
    &&& name.len() > 4
    &&& name[name.len() - 4] == 0x2e
    &&& name[name.len() - 3] == 0x63
    &&& name[name.len() - 2] == 0x73
    &&& name[name.len() - 1] == 0x73
}

/// Whether a path ends in a name with the extension `css`.
pub open spec fn css_path(path: Seq<PathPartView>) -> bool {
    &&& path.len() > 0
    &&& path.last() matches PathPartView::Normal(name)
    &&& css_name(name)
}

/// What becomes of a style sheet that a configuration names.
#[derive(Debug, Clone, Copy, PartialEq, Eq, Structural)]
pub enum CssVerdict {
    /// It is kept.
    Keep,
    /// It is dropped: it does not lie in the directory of themes.
    OutsideThemes,
    /// It is dropped: its name does not have the extension `css`.
    NotCss,
    /// It is dropped: there is no such file.
    Missing,
}

/// What becomes of a style sheet at `path`.
pub open spec fn css_verdict(
    path: Seq<PathPartView>,
    themes: Seq<PathPartView>,
    exists_there: bool,
) -> CssVerdict {
    if !themes.is_prefix_of(path) {
        CssVerdict::OutsideThemes
    } else if !css_path(path) {
        CssVerdict::NotCss
    } else if !exists_there {
        CssVerdict::Missing
    } else {
        CssVerdict::Keep
    }
}

/// Whether `path` ends in a name with the extension `css`.
pub fn has_css_extension(path: &Vec<PathPart>) -> (found: bool)
    ensures
        found == css_path(path_view(path@)),
{
    let n: usize = path.len();
    if n == 0 {
        return false;
    }
    assert(path_view(path@).last() == path@[n - 1]@);
    match &path[n - 1] {
        PathPart::Normal(name) => {
            let len: usize = name.len();
            len > 4 && name[len - 4] == 0x2e && name[len - 3] == 0x63 && name[len - 2] == 0x73
                && name[len - 1] == 0x73
        },
        _ => false,
    }
}

/// Decides what becomes of a style sheet at `path`, given whether there is such
/// a file.
pub fn judge_custom_css(
    path: &Vec<PathPart>,
    themes: &Vec<PathPart>,
    exists_there: bool,
) -> (verdict: CssVerdict)
    ensures
        verdict == css_verdict(path_view(path@), path_view(themes@), exists_there),
{
    if !path_starts_with(path, themes) {
        CssVerdict::OutsideThemes
    } else if !has_css_extension(path) {
        CssVerdict::NotCss
    } else if !exists_there {
        CssVerdict::Missing
    } else {
        CssVerdict::Keep
    }
}

/// What became of reading the configuration file.
#[derive(Debug)]
pub enum ConfigFile {
    /// There is none.
    Missing,
    /// It could not be read.
    Unreadable,
    /// It does not hold a configuration.
    Unparsable,
    /// It holds this one.
    Parsed(LotionConfig),
}

/// What is kept of the style sheet that a configuration names, given the
/// directory of themes and whether there is such a file.
pub open spec fn css_in_force(
    named: Option<NamedPathView>,
    themes: Seq<PathPartView>,
    css_exists: bool,
) -> Option<NamedPathView> {
    match named {
        Some(path) => if css_verdict(path.parts, themes, css_exists) == CssVerdict::Keep {
            Some(path)
        } else {
            None
        },
        None => None,
    }
}

/// The configuration that is in force, given what became of the file, the
/// directory of themes, and whether the style sheet that the file names is there.
pub open spec fn config_in_force(
    file: ConfigFile,
    themes: Seq<PathPartView>,
    css_exists: bool,
) -> ConfigView {
    match file {
        ConfigFile::Parsed(config) => ConfigView {
            custom_css_path: css_in_force(config@.custom_css_path, themes, css_exists),
            ..config@
        },
        _ => default_config(),
    }
}

impl LotionConfig {
    /// Gives the configuration that is in force, and tells whether it is a new
    /// one that is to be stored. `base` is the directory of the user's
    /// configurations, if there is one, and `css_exists` tells whether the style
    /// sheet that the file names, if it names one, is there; the style sheet is
    /// taken over only if it is to be kept.
    pub fn load(file: ConfigFile, base: Option<Vec<PathPart>>, css_exists: bool) -> (out: (
        LotionConfig,
        bool,
    ))
        ensures
            out.0@ == config_in_force(file, themes_dir_view(path_view_opt(base)), css_exists),
            out.1 == !(file is Parsed),
    {
        match file {
            ConfigFile::Parsed(config) => {
                let mut config = config;
                let themes = join(Self::config_dir(base), THEMES_DIR_NAME);
                let keep = match &config.custom_css_path {
                    Some(path) => match judge_custom_css(&path.parts, &themes, css_exists) {
                        CssVerdict::Keep => true,
                        _ => false,
                    },
                    None => false,
                };
                if !keep {
                    config.custom_css_path = None;
                }
                (config, false)
            },
            _ => (LotionConfig::default(), true),
        }
    }
}

/// One step of the move from the legacy directory.
#[derive(Debug, Clone, Copy, PartialEq, Eq, Structural)]
pub enum MigrationStep {
    /// Make the new directory.
    CreateDir,
    /// Copy the configuration file.
    CopyConfig,
    /// Copy the state file.
    CopyState,
}

/// The steps of the move: none unless there is an old directory and no new one.
pub open spec fn migration_steps(
    old_dir: bool,
    new_dir: bool,
    old_config: bool,
    old_state: bool,
) -> Seq<MigrationStep> {
    if old_dir && !new_dir {
        seq![MigrationStep::CreateDir] + (if old_config {
            seq![MigrationStep::CopyConfig]
        } else {
            seq![]
        }) + (if old_state {
            seq![MigrationStep::CopyState]
        } else {
            seq![]
        })
    } else {
        seq![]
    }
}

impl LotionConfig {
    /// Plans the move from the legacy directory, given which of the two
    /// directories, and which files in the old one, are there.
    pub fn migrate_legacy_config(
        old_dir: bool,
        new_dir: bool,
        old_config: bool,
        old_state: bool,
    ) -> (steps: Vec<MigrationStep>)
        ensures
            steps@ == migration_steps(old_dir, new_dir, old_config, old_state),
    {
        let mut steps: Vec<MigrationStep> = Vec::new();
        if old_dir && !new_dir {
            steps.push(MigrationStep::CreateDir);
            if old_config {
                steps.push(MigrationStep::CopyConfig);
            }
            if old_state {
                steps.push(MigrationStep::CopyState);
            }
        }
        assert(steps@ =~= migration_steps(old_dir, new_dir, old_config, old_state));
        steps
    }
}

/// Whether the move ends where this step fails: without the new directory
/// nothing can be copied, while the two copies do not need each other.
pub fn failure_ends_migration(step: MigrationStep) -> (ends: bool)
    ensures
        ends == (step == MigrationStep::CreateDir),
{
    match step {
        MigrationStep::CreateDir => true,
        _ => false,
    }
}

} // verus!
