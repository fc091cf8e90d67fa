use lotion::config::{
    failure_ends_migration, has_css_extension, judge_custom_css, ConfigFile, CssVerdict,
    LotionConfig, MigrationStep, NamedPath,
};
use lotion::path::{copy_path, path_starts_with, PathPart};
use lotion::state::AppState;

fn path(text: &str) -> Vec<PathPart> {
    std::path::Path::new(text)
        .components()
        .map(|part| match part {
            std::path::Component::Prefix(p) => {
                PathPart::Prefix(p.as_os_str().as_encoded_bytes().to_vec())
            }
            std::path::Component::RootDir => PathPart::RootDir,
            std::path::Component::CurDir => PathPart::CurDir,
            std::path::Component::ParentDir => PathPart::ParentDir,
            std::path::Component::Normal(n) => PathPart::Normal(n.as_encoded_bytes().to_vec()),
        })
        .collect()
}

fn named(css: Option<&str>) -> LotionConfig {
    let mut config = LotionConfig::default();
    config.active_theme = "nord".into();
    config.custom_css_path = css.map(|text| NamedPath {
        text: text.into(),
        parts: path(text),
    });
    config.restore_tabs = false;
    config
}

fn same_path(a: &Vec<PathPart>, b: &Vec<PathPart>) -> bool {
    path_starts_with(a, b) && path_starts_with(b, a)
}

#[test]
fn files_lie_in_the_configuration_directory() {
    let at = |made: Vec<PathPart>, text: &str| same_path(&made, &path(text));
    let base = || Some(path("/home/u/.config"));
    assert!(at(LotionConfig::config_dir(base()), "/home/u/.config/lotion-rs"));
    assert!(at(
        LotionConfig::config_path(base()),
        "/home/u/.config/lotion-rs/config.toml"
    ));
    assert!(at(
        AppState::state_path(base()),
        "/home/u/.config/lotion-rs/state.json"
    ));
    assert!(at(LotionConfig::config_dir(None), "./lotion-rs"));
    assert!(at(LotionConfig::config_path(None), "./lotion-rs/config.toml"));
    assert!(at(AppState::state_path(None), "./lotion-rs/state.json"));
}

#[test]
fn paths_are_copied() {
    let p = path("/a/./../b.css");
    assert!(same_path(&copy_path(&p), &p));
    let prefixed = vec![PathPart::Prefix(b"C:".to_vec()), PathPart::RootDir, PathPart::CurDir];
    assert!(same_path(&copy_path(&prefixed), &prefixed));
}

#[test]
fn style_sheets_lie_below_the_current_directory_without_a_base() {
    let css = "./lotion-rs/custom_themes/a.css";
    let (config, _) = LotionConfig::load(ConfigFile::Parsed(named(Some(css))), None, true);
    assert_eq!(config.custom_css_path.unwrap().text, css);
}

#[test]
fn defaults() {
    let config = LotionConfig::default();
    assert_eq!(config.active_theme, "dracula");
    assert!(config.custom_css_path.is_none());
    assert!(config.restore_tabs);
    assert_eq!(f64::from_bits(config.window.width), 1200.0);
    assert_eq!(f64::from_bits(config.window.height), 800.0);
    assert_eq!(config.window.x, None);
    assert_eq!(config.window.y, None);
    assert!(!config.window.maximized);
}

#[test]
fn paths_are_compared_by_component() {
    let pairs = [
        ("/a/b/c.css", "/a/b"),
        ("/a/bc/c.css", "/a/b"),
        ("/a/b", "/a/b"),
        ("/a", "/a/b"),
        ("a/b", "/a"),
        ("/a/./b", "/a/b"),
        ("/a/../b", "/a"),
        ("./a", "."),
        ("", ""),
        ("/x", ""),
    ];
    for (p, base) in pairs {
        assert_eq!(
            path_starts_with(&path(p), &path(base)),
            std::path::Path::new(p).starts_with(base),
            "{} {}",
            p,
            base
        );
    }
}

#[test]
fn extensions_are_those_of_the_standard_library() {
    for p in [
        "/t/a.css",
        "/t/a.b.css",
        "/t/.css",
        "/t/..css",
        "/t/a.CSS",
        "/t/a.css.bak",
        "/t/acss",
        "/t/css",
        "/t/a.css/..",
        "/t/a.css/.",
        "/t/a.css/",
        "/",
        "",
        "..",
    ] {
        let std_says = std::path::Path::new(p).extension().map_or(false, |e| e == "css");
        assert_eq!(has_css_extension(&path(p)), std_says, "{}", p);
    }
}

#[test]
fn style_sheets_are_judged() {
    let judge = |p: &str, there| judge_custom_css(&path(p), &path("/c/themes"), there);
    assert_eq!(judge("/c/themes/a.css", true), CssVerdict::Keep);
    assert_eq!(judge("/c/themes/sub/a.css", true), CssVerdict::Keep);
    assert_eq!(judge("/c/themes/a.css", false), CssVerdict::Missing);
    assert_eq!(judge("/c/themes/a.txt", true), CssVerdict::NotCss);
    assert_eq!(judge("/c/themes", false), CssVerdict::NotCss);
    assert_eq!(judge("/c/other/a.css", true), CssVerdict::OutsideThemes);
    assert_eq!(judge("/etc/passwd", false), CssVerdict::OutsideThemes);
}

#[test]
fn a_file_that_holds_a_configuration_is_in_force() {
    let load = |css: Option<&str>, there| {
        LotionConfig::load(ConfigFile::Parsed(named(css)), Some(path("/c")), there)
    };
    let kept = "/c/lotion-rs/custom_themes/a.css";
    let (config, store) = load(Some(kept), true);
    let css = config.clone().custom_css_path.unwrap();
    assert_eq!(css.text, kept);
    assert!(same_path(&css.parts, &path(kept)));
    assert_eq!(config.active_theme, "nord");
    assert!(!config.restore_tabs);
    assert!(!store);
    for (css, there) in [
        (Some(kept), false),
        (Some("/c/lotion-rs/custom_themes/a.txt"), true),
        (Some("/c/lotion-rs/a.css"), true),
        (Some("/c/custom_themes/a.css"), true),
        (None, false),
        (None, true),
    ] {
        let (config, store) = load(css, there);
        assert!(config.custom_css_path.is_none());
        assert_eq!(config.active_theme, "nord");
        assert!(!store);
    }
}

#[test]
fn without_a_configuration_the_defaults_are_stored() {
    for file in [
        ConfigFile::Missing,
        ConfigFile::Unreadable,
        ConfigFile::Unparsable,
    ] {
        let (config, store) = LotionConfig::load(file, Some(path("/c")), false);
        assert!(store);
        assert_eq!(config.active_theme, "dracula");
        assert!(config.clone().restore_tabs);
    }
}

#[test]
fn migration_copies_what_is_there() {
    let plan = LotionConfig::migrate_legacy_config;
    assert_eq!(plan(true, false, true, true), [MigrationStep::CreateDir, MigrationStep::CopyConfig, MigrationStep::CopyState]);
    assert_eq!(plan(true, false, false, true), [MigrationStep::CreateDir, MigrationStep::CopyState]);
    assert_eq!(plan(true, false, true, false), [MigrationStep::CreateDir, MigrationStep::CopyConfig]);
    assert_eq!(plan(true, false, false, false), [MigrationStep::CreateDir]);
    assert_eq!(plan(true, true, true, true), []);
    assert_eq!(plan(false, false, true, true), []);
    assert!(failure_ends_migration(MigrationStep::CreateDir));
    assert!(!failure_ends_migration(MigrationStep::CopyConfig));
    assert!(!failure_ends_migration(MigrationStep::CopyState));
}
