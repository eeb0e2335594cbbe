use music_tui::theme::{parse_color, ThemeColor};
use music_tui::config::{default_config_text, escape_basic, theme_template, with_theme_section};
use music_tui::config::{
    art_cache_dir, config_path, config_path_display, db_path, default_columns, default_queue_pct,
    default_true, music_dir_from, playlists_path, Config, LayoutConfig, ThemeConfig, UiConfig,
};

#[test]
fn validated_columns_renormalizes_garbage() {
    let mut cfg = Config::default();
    cfg.layout.columns = vec![999]; // wrong length -> defaults
    assert_eq!(cfg.validated_columns().iter().sum::<u16>(), 100);
    cfg.layout.columns = vec![50, 50, 50]; // sums >100 -> renormalized
    assert_eq!(cfg.validated_columns().iter().sum::<u16>(), 100);
}

#[test]
fn validated_columns_exact_values() {
    let mut cfg = Config::default();
    cfg.layout.columns = vec![20, 30, 50];
    assert_eq!(cfg.validated_columns(), [20, 30, 50]);
    cfg.layout.columns = vec![999];
    assert_eq!(cfg.validated_columns(), [25, 30, 45]);
    cfg.layout.columns = vec![50, 50, 50];
    assert_eq!(cfg.validated_columns(), [33, 33, 34]);
    // Each width is clamped to 10..=80 before renormalizing.
    cfg.layout.columns = vec![0, 0, 200];
    assert_eq!(cfg.validated_columns(), [10, 10, 80]);
}

#[test]
fn validated_queue_pct_clamps() {
    let mut cfg = Config::default();
    assert_eq!(cfg.validated_queue_pct(), 28);
    cfg.layout.queue_pct = 3;
    assert_eq!(cfg.validated_queue_pct(), 10);
    cfg.layout.queue_pct = 90;
    assert_eq!(cfg.validated_queue_pct(), 60);
}

#[test]
fn defaults_match_documentation() {
    assert!(default_true());
    assert_eq!(default_columns(), vec![25, 30, 45]);
    assert_eq!(default_queue_pct(), 28);
    let ui = UiConfig::default();
    assert!(ui.big_transport_icons && !ui.cache_all_art && ui.sort_articles);
    let layout = LayoutConfig::default();
    assert_eq!(layout.columns, vec![25, 30, 45]);
    assert_eq!(layout.queue_pct, 28);
    let theme = ThemeConfig::default();
    assert_eq!(theme.accent, "cyan");
    assert_eq!(theme.selection_fg, "black");
    assert_eq!(theme.border, "darkgray");
    assert_eq!(theme.dim, "darkgray");
    assert_eq!(theme.muted, "gray");
}

#[test]
fn file_locations_end_in_their_names() {
    assert!(db_path().ends_with("library.db"));
    assert!(playlists_path().ends_with("playlists.toml"));
    assert!(art_cache_dir().ends_with("art") || art_cache_dir() == "music-tui-art-cache");
    assert!(config_path().ends_with("config.toml"));
    assert_eq!(config_path_display(), config_path());
}

#[test]
fn default_config_text_is_valid_toml() {
    let body = default_config_text("/home/u/Music");
    assert!(body.starts_with("music_dir = \"/home/u/Music\"\n"));
    assert!(body.ends_with(theme_template()));
    let t: toml::Table = toml::from_str(&body).expect("default config template must be valid TOML");
    assert_eq!(t["music_dir"].as_str(), Some("/home/u/Music"));
    assert_eq!(t["theme"]["accent"].as_str(), Some("cyan"));
    assert_eq!(t["theme"]["muted"].as_str(), Some("gray"));
    assert_eq!(t["ui"]["sort_articles"].as_bool(), Some(true));
    // Quotes and backslashes in the directory are escaped.
    let odd = default_config_text("C:\\Music \"x\"");
    let t: toml::Table = toml::from_str(&odd).unwrap();
    assert_eq!(t["music_dir"].as_str(), Some("C:\\Music \"x\""));
}

#[test]
fn theme_section_is_added_only_when_missing() {
    assert!(with_theme_section("music_dir = \"/x\"\n[theme]\naccent = \"red\"\n").is_none());
    let out = with_theme_section("music_dir = \"/x\"").unwrap();
    assert_eq!(out, format!("music_dir = \"/x\"\n{}", theme_template()));
    let out = with_theme_section("music_dir = \"/x\"\n").unwrap();
    assert_eq!(out, format!("music_dir = \"/x\"\n{}", theme_template()));
    let t: toml::Table = toml::from_str(&out).unwrap();
    assert_eq!(t["theme"]["border"].as_str(), Some("darkgray"));
}

#[test]
fn escaping_for_toml_strings() {
    assert_eq!(escape_basic("plain"), "plain");
    assert_eq!(escape_basic("a\\b"), "a\\\\b");
    assert_eq!(escape_basic("say \"hi\""), "say \\\"hi\\\"");
}

#[test]
fn music_dir_prefers_audio_dir() {
    let r = music_dir_from(Some("/srv/audio".to_string()), Some("/home/alice".to_string()));
    assert_eq!(r, "/srv/audio");
}

#[test]
fn music_dir_falls_back_to_home_music() {
    let r = music_dir_from(None, Some("/home/alice".to_string()));
    assert_eq!(r, "/home/alice/Music");
}

#[test]
fn music_dir_falls_back_to_bare_name() {
    let r = music_dir_from(None, None);
    assert_eq!(r, "Music");
}

#[test]
fn validated_columns_keep_minimum_width() {
    let mut cfg = Config::default();
    cfg.layout.columns = vec![10, 11, 80];
    assert_eq!(cfg.validated_columns(), [10, 10, 80]);
    cfg.layout.columns = vec![10, 80, 10];
    let v = cfg.validated_columns();
    assert_eq!(v.iter().sum::<u16>(), 100);
    assert!(v.iter().all(|w| *w >= 10));
}

fn config_from_toml(text: &str) -> Config {
    let t: toml::Table = toml::from_str(text).expect("valid TOML");
    let mut cfg = Config::default();
    if let Some(d) = t.get("music_dir").and_then(|v| v.as_str()) {
        cfg.music_dir = d.to_string();
    }
    if let Some(theme) = t.get("theme").and_then(|v| v.as_table()) {
        if let Some(a) = theme.get("accent").and_then(|v| v.as_str()) {
            cfg.theme.accent = a.to_string();
        }
    }
    if let Some(layout) = t.get("layout").and_then(|v| v.as_table()) {
        if let Some(cols) = layout.get("columns").and_then(|v| v.as_array()) {
            cfg.layout.columns = cols.iter().filter_map(|v| v.as_integer()).map(|v| v as u16).collect();
        }
    }
    cfg
}

#[test]
fn generated_default_file_parses() {
    let body = default_config_text("/home/u/Music");
    let cfg = config_from_toml(&body);
    assert_eq!(cfg.music_dir, "/home/u/Music");
    assert_eq!(cfg.theme.accent, "cyan");
    // Named, hex, and indexed colors all resolve without panicking.
    assert_eq!(cfg.theme.resolve().accent, ThemeColor::Cyan);
}

#[test]
fn hex_and_indexed_colors_parse() {
    assert_eq!(parse_color("#ff8800", ThemeColor::Cyan), ThemeColor::Rgb(0xff, 0x88, 0x00));
    assert_eq!(parse_color("39", ThemeColor::Cyan), ThemeColor::Indexed(39));
    assert_eq!(parse_color("not-a-color", ThemeColor::Magenta), ThemeColor::Magenta);
}

#[test]
fn color_names_are_trimmed_and_spelled_loosely() {
    assert_eq!(parse_color("  Light-Magenta ", ThemeColor::Cyan), ThemeColor::LightMagenta);
    assert_eq!(parse_color("grey", ThemeColor::Cyan), ThemeColor::Gray);
    let mut theme = ThemeConfig::default();
    theme.border = "nonsense".into();
    theme.dim = "red".into();
    let r = theme.resolve();
    assert_eq!(r.accent, ThemeColor::Cyan);
    assert_eq!(r.selection_fg, ThemeColor::Black);
    assert_eq!(r.border, ThemeColor::DarkGray);
    assert_eq!(r.dim, ThemeColor::Red);
    assert_eq!(r.muted, ThemeColor::Gray);
}

#[test]
fn save_preserves_comments_and_updates_keys() {
    let existing = "\
# my notes
music_dir = \"/old/path\"

[theme]
accent = \"cyan\"  # I like cyan
";
    // Real saves are triggered by dir/layout edits; theme keys are loaded
    // unchanged, so their inline comments must survive a save.
    let mut cfg = Config::default();
    cfg.music_dir = "/new/path".into();
    cfg.theme.accent = "cyan".into(); // unchanged
    cfg.layout.columns = vec![20, 30, 50];

    let out = cfg.render_toml(existing);
    assert!(out.contains("# my notes"), "top comment preserved");
    assert!(out.contains("# I like cyan"), "unchanged key keeps its comment");
    assert!(out.contains("/new/path"), "music_dir updated");
    assert!(out.contains("[layout]") && out.contains("20"), "layout written");

    // And it round-trips back into a Config.
    let reparsed = config_from_toml(&out);
    assert_eq!(reparsed.validated_columns(), [20, 30, 50]);
}

#[test]
fn render_drops_old_crossfade_key_and_keeps_unmanaged_keys() {
    let existing = "music_dir = \"/m\"\nextra = 1\n\n[playback]\ncrossfade_secs = 2.0\n\n[ui]\nsort_articles = false # mine\n";
    let mut cfg = Config::default();
    cfg.music_dir = "/m".into();
    cfg.ui.sort_articles = false;
    let out = cfg.render_toml(existing);
    assert!(out.contains("extra = 1"));
    assert!(!out.contains("crossfade_secs"));
    assert!(out.contains("sort_articles = false # mine"));
    let t: toml::Table = toml::from_str(&out).unwrap();
    assert_eq!(t["ui"]["big_transport_icons"].as_bool(), Some(true));
    assert_eq!(t["layout"]["queue_pct"].as_integer(), Some(28));
    assert_eq!(t["theme"]["muted"].as_str(), Some("gray"));
    // Unparsable text is replaced by a fresh document.
    let fresh = cfg.render_toml("not [valid");
    let t: toml::Table = toml::from_str(&fresh).unwrap();
    assert_eq!(t["music_dir"].as_str(), Some("/m"));
}
