//! What configuration is in force, where its files lie and what is moved, said of
//! the file, of paths and of what is there.

use crate::config::{
    config_dir_view, config_in_force, css_name, css_path, css_verdict, default_config,
    migration_steps, named_path_opt, themes_dir_view, ConfigFile, CssVerdict,
    LotionConfig, MigrationStep, NamedPath,
};
use crate::path::{joined_path, path_view, path_view_opt, PathPart, PathPartView};
use vstd::prelude::*;
use vstd::utf8::encode_utf8;

verus! {

/// A configuration that the file holds is in force with the theme, the choice on
/// restoring tabs and all the settings of the window that the file gives, whatever
/// they are. Only the style sheet may be another.
pub proof fn law_the_file_is_in_force(
    config: LotionConfig,
    themes: Seq<PathPartView>,
    css_exists: bool,
)
    ensures
        ({
            let c = config_in_force(ConfigFile::Parsed(config), themes, css_exists);
            &&& c.active_theme == config.active_theme@
            &&& c.restore_tabs == config.restore_tabs
            &&& c.window.width == config.window.width
            &&& c.window.height == config.window.height
            &&& c.window.x == config.window.x
            &&& c.window.y == config.window.y
            &&& c.window.maximized == config.window.maximized
            &&& config.custom_css_path is None ==> c.custom_css_path is None
            &&& config.custom_css_path is None ==> c == config@
        }),
{
}

/// The style sheet that the file names is in force, as the file names it, exactly
/// where its path begins with the directory of themes, ends in a name with the
/// extension of a style sheet, and is that of a file.
pub proof fn law_which_style_sheet_is_in_force(
    config: LotionConfig,
    css: NamedPath,
    themes: Seq<PathPartView>,
    css_exists: bool,
)
    requires
        config.custom_css_path == Some(css),
    ensures
        ({
            let c = config_in_force(ConfigFile::Parsed(config), themes, css_exists);
            let kept = themes.is_prefix_of(path_view(css.parts@)) && css_path(path_view(css.parts@))
                && css_exists;
            &&& kept ==> c.custom_css_path is Some && c.custom_css_path->0.text == css.text@
                && c.custom_css_path->0.parts == path_view(css.parts@)
            &&& kept ==> c == config@
            &&& !kept ==> c.custom_css_path is None
        }),
{
}

/// What the file held does not matter twice: a configuration that is in force and
/// is stored is in force again as it is.
pub proof fn law_a_stored_configuration_stays_in_force(
    first: LotionConfig,
    second: LotionConfig,
    themes: Seq<PathPartView>,
)
    requires
        second@ == config_in_force(ConfigFile::Parsed(first), themes, true),
    ensures
        config_in_force(ConfigFile::Parsed(second), themes, true) == second@,
{
}

/// Without a configuration in the file the defaults are in force, whatever kept it
/// from being read.
pub proof fn law_defaults_are_in_force(
    file: ConfigFile,
    themes: Seq<PathPartView>,
    css_exists: bool,
)
    requires
        !(file is Parsed),
    ensures
        ({
            let c = config_in_force(file, themes, css_exists);
            &&& c == default_config()
            &&& c.active_theme == "dracula"@
            &&& c.custom_css_path is None
            &&& c.restore_tabs
            &&& c.window.x is None
            &&& c.window.y is None
            &&& !c.window.maximized
        }),
{
}

/// The bytes of `.css`.
pub open spec fn dot_css() -> Seq<u8> {
    seq![0x2eu8, 0x63u8, 0x73u8, 0x73u8]
}

/// A name has the extension of a style sheet exactly where it is something, not
/// nothing, with `.css` behind it.
pub proof fn law_names_of_style_sheets(name: Seq<u8>, stem: Seq<u8>)
    ensures
        stem.len() > 0 ==> css_name(stem + dot_css()),
        !css_name(dot_css()),
        css_name(name) ==> exists|s: Seq<u8>| s.len() > 0 && name == #[trigger] (s + dot_css()),
{
    if css_name(name) {
        let s = name.take(name.len() - 4);
        assert(name =~= s + dot_css());
    }
}

/// A path has the extension of a style sheet exactly where its last component is a
/// name that has it, whatever comes before.
pub proof fn law_paths_of_style_sheets(dir: Seq<PathPartView>, last: PathPartView, stem: Seq<u8>)
    ensures
        stem.len() > 0 ==> css_path(dir.push(PathPartView::Normal(stem + dot_css()))),
        css_path(dir.push(last)) <==> last is Normal && css_name(last->Normal_0),
        !css_path(Seq::empty()),
{
    assert(dir.push(last).last() == last);
    law_names_of_style_sheets(Seq::empty(), stem);
}

/// A style sheet is judged by where it lies, then by its name, then by whether it
/// is there: every style sheet below the directory of themes is kept, however deep
/// it lies, and none elsewhere.
pub proof fn law_style_sheets_are_judged(
    themes: Seq<PathPartView>,
    below: Seq<PathPartView>,
    path: Seq<PathPartView>,
    there: bool,
)
    ensures
        css_path(themes + below) && there ==> css_verdict(themes + below, themes, there)
            == CssVerdict::Keep,
        css_path(themes + below) && !there ==> css_verdict(themes + below, themes, there)
            == CssVerdict::Missing,
        !css_path(themes + below) ==> css_verdict(themes + below, themes, there)
            == CssVerdict::NotCss,
        css_verdict(path, themes, there) == CssVerdict::Keep ==> there && css_path(path) && exists|
            b: Seq<PathPartView>,
        |
            path == #[trigger] (themes + b),
        css_verdict(path, themes, there) == CssVerdict::OutsideThemes <==> !themes.is_prefix_of(
            path,
        ),
{
    assert(themes =~= (themes + below).subrange(0, themes.len() as int));
    if themes.is_prefix_of(path) {
        assert(path =~= themes + path.skip(themes.len() as int));
    }
}

/// The configuration directory is that of the name `lotion-rs` in the directory it
/// is given, or in the current one; the directory of themes lies in it, and files
/// lie where they are named.
pub proof fn law_where_files_lie(base: Seq<PathPartView>, name: Seq<char>)
    ensures
        ({
            let dir = config_dir_view(Some(base));
            let themes = themes_dir_view(Some(base));
            &&& dir.len() == base.len() + 1
            &&& base.is_prefix_of(dir)
            &&& dir.last() == PathPartView::Normal(encode_utf8("lotion-rs"@))
            &&& config_dir_view(None) == config_dir_view(Some(seq![PathPartView::CurDir]))
            &&& themes_dir_view(None) == themes_dir_view(Some(seq![PathPartView::CurDir]))
            &&& themes.len() == dir.len() + 1
            &&& dir.is_prefix_of(themes)
            &&& themes.last() == PathPartView::Normal(encode_utf8("custom_themes"@))
            &&& joined_path(base, name).len() == base.len() + 1
            &&& base.is_prefix_of(joined_path(base, name))
            &&& joined_path(base, name).last() == PathPartView::Normal(encode_utf8(name))
        }),
{
    let dir = config_dir_view(Some(base));
    let themes = themes_dir_view(Some(base));
    assert(base =~= dir.subrange(0, base.len() as int));
    assert(dir =~= themes.subrange(0, dir.len() as int));
    assert(base =~= joined_path(base, name).subrange(0, base.len() as int));
}

/// The move is made exactly where there is an old directory and no new one. It
/// begins with the new directory, and each file is copied exactly where it is
/// there, the configuration first.
pub proof fn law_what_is_moved(old_dir: bool, new_dir: bool, config: bool, state: bool)
    ensures
        ({
            let steps = migration_steps(old_dir, new_dir, config, state);
            let moves = old_dir && !new_dir;
            &&& steps.contains(MigrationStep::CreateDir) <==> moves
            &&& steps.contains(MigrationStep::CopyConfig) <==> moves && config
            &&& steps.contains(MigrationStep::CopyState) <==> moves && state
            &&& steps.no_duplicates()
            &&& moves ==> steps[0] == MigrationStep::CreateDir
            &&& moves && config ==> steps[1] == MigrationStep::CopyConfig
            &&& moves && state ==> steps.last() == MigrationStep::CopyState
            &&& !moves ==> steps.len() == 0
        }),
{
    let steps = migration_steps(old_dir, new_dir, config, state);
    if old_dir && !new_dir {
        assert(steps[0] == MigrationStep::CreateDir);
        if config {
            assert(steps[1] == MigrationStep::CopyConfig);
        }
        if state {
            assert(steps[steps.len() - 1] == MigrationStep::CopyState);
        }
    }
}

/// What is said of the view of a configuration or a path is said of all that it
/// holds.
pub proof fn law_config_views_hold_every_part(
    a: (LotionConfig, NamedPath, PathPart),
    b: (LotionConfig, NamedPath, PathPart),
    path: Seq<PathPart>,
    i: int,
)
    ensures
        a.0@ == b.0@ <==> {
            &&& a.0.active_theme@ == b.0.active_theme@
            &&& named_path_opt(a.0.custom_css_path) == named_path_opt(b.0.custom_css_path)
            &&& a.0.restore_tabs == b.0.restore_tabs
            &&& a.0.window == b.0.window
        },
        a.0.custom_css_path is None <==> a.0@.custom_css_path is None,
        a.0.custom_css_path is Some ==> a.0@.custom_css_path == Some(a.0.custom_css_path->0@),
        a.1@.text == a.1.text@,
        a.1@.parts == path_view(a.1.parts@),
        path_view(path).len() == path.len(),
        0 <= i < path.len() ==> path_view(path)[i] == path[i]@,
        a.2 is Prefix <==> a.2@ is Prefix,
        a.2 is RootDir <==> a.2@ is RootDir,
        a.2 is CurDir <==> a.2@ is CurDir,
        a.2 is ParentDir <==> a.2@ is ParentDir,
        a.2 matches PathPart::Prefix(bytes) ==> a.2@ == PathPartView::Prefix(bytes@),
        a.2 matches PathPart::Normal(bytes) ==> a.2@ == PathPartView::Normal(bytes@),
{
}

/// What an optional directory holds is what the directory holds.
pub proof fn law_optional_paths_are_seen_whole(path: Option<Vec<PathPart>>)
    ensures
        path is None <==> path_view_opt(path) is None,
        path is Some ==> path_view_opt(path) == Some(path_view(path->0@)),
{
}

} // verus!
