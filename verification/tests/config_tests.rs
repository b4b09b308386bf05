use productivo::config::{sanitize, Config, ThemeCfg};

/// Builds the settings from a TOML document the way the program reads its file: every
/// setting the document leaves out takes its default.
fn config_from_toml(text: &str) -> Config {
    let table: toml::Table = toml::from_str(text).unwrap();
    let panels = table.get("panels").map(|v| {
        v.as_array()
            .unwrap()
            .iter()
            .map(|p| p.as_str().unwrap().to_string())
            .collect::<Vec<String>>()
    });
    let pomodoro = table.get("pomodoro").and_then(|v| v.as_table());
    let focus_min = pomodoro
        .and_then(|t| t.get("focus_min"))
        .map(|v| v.as_integer().unwrap() as u64);
    let break_min = pomodoro
        .and_then(|t| t.get("break_min"))
        .map(|v| v.as_integer().unwrap() as u64);
    let sound = table.get("sound").map(|v| v.as_str().unwrap().to_string());
    Config::from_parts(panels, focus_min, break_min, ThemeCfg::default(), sound)
}

#[test]
fn default_config_has_six_panels() {
    let c = Config::default();
    assert_eq!(c.panels.len(), 6);
    assert_eq!(c.pomodoro.focus_min, 25);
}

#[test]
fn partial_toml_fills_defaults() {
    let c = config_from_toml("panels = [\"todos\", \"stats\"]\n[pomodoro]\nfocus_min = 50\n");
    assert_eq!(c.panels, vec!["todos", "stats"]);
    assert_eq!(c.pomodoro.focus_min, 50);
    assert_eq!(c.pomodoro.break_min, 5);
}

#[test]
fn sanitize_empty_panels() {
    let c = config_from_toml("panels = []");
    assert_eq!(c.panels.len(), 0);
    let (sanitized, warning) = sanitize(c);
    assert_eq!(sanitized.panels.len(), 6);
    assert_eq!(sanitized.panels, Config::default().panels);
    assert_eq!(
        warning,
        Some("config.toml: panels empty, using default panel order".into())
    );
}

#[test]
fn default_panel_order() {
    let c = Config::default();
    assert_eq!(c.panels, vec!["habits", "calendar", "ideas", "todos", "pomodoro", "stats"]);
    assert_eq!(c.pomodoro.break_min, 5);
    assert_eq!(c.theme, ThemeCfg::default());
}

#[test]
fn sanitize_keeps_listed_panels() {
    let c = config_from_toml("panels = [\"ideas\"]");
    let (s, w) = sanitize(c.clone());
    assert_eq!(s, c);
    assert_eq!(w, None);
}

#[test]
fn empty_document_gives_defaults() {
    let c = config_from_toml("");
    assert_eq!(c, Config::default());
}

#[test]
fn sound_file_is_kept() {
    let c = config_from_toml("sound = \"/tmp/chime.wav\"");
    assert_eq!(c.sound, Some("/tmp/chime.wav".to_string()));
    assert_eq!(Config::default().sound, None);
    let (s, _) = sanitize(config_from_toml("panels = []\nsound = \"a.wav\""));
    assert_eq!(s.sound, Some("a.wav".to_string()));
}
