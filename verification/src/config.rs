use vstd::prelude::*;

verus! {

/// Pomodoro lengths in minutes.
#[derive(Clone, Copy, Debug, PartialEq, Eq, Structural)]
pub struct PomodoroCfg {
    pub focus_min: u64,
    pub break_min: u64,
}

/// Optional `#rrggbb` overrides of theme colors.
#[derive(Clone, Debug, PartialEq, Eq)]
pub struct ThemeCfg {
    pub accent: Option<String>,
    pub green: Option<String>,
    pub red: Option<String>,
    pub yellow: Option<String>,
    pub blue: Option<String>,
    pub peach: Option<String>,
}

/// The settings read from `config.toml`.
#[derive(Clone, Debug, PartialEq, Eq)]
pub struct Config {
    pub panels: Vec<String>,
    pub pomodoro: PomodoroCfg,
    pub theme: ThemeCfg,
    /// A sound file played when a timer ends (the terminal bell when unset).
    pub sound: Option<String>,
}

/// The home panel order used when the file names none.
pub open spec fn default_panels() -> Seq<Seq<char>> {
    seq!["habits"@, "calendar"@, "ideas"@, "todos"@, "pomodoro"@, "stats"@]
}

pub open spec fn names_of(v: Seq<String>) -> Seq<Seq<char>> {
    v.map_values(|s: String| s@)
}

impl PomodoroCfg {
    pub open spec fn is_default(self) -> bool {
        self.focus_min == 25 && self.break_min == 5
    }
}

impl ThemeCfg {
    pub open spec fn is_empty(self) -> bool {
        &&& self.accent is None
        &&& self.green is None
        &&& self.red is None
        &&& self.yellow is None
        &&& self.blue is None
        &&& self.peach is None
    }
}

impl Default for PomodoroCfg {
    fn default() -> (r: Self)
        ensures
            r.is_default(),
    {
        PomodoroCfg { focus_min: 25, break_min: 5 }
    }
}

impl Default for ThemeCfg {
    fn default() -> (r: Self)
        ensures
            r.is_empty(),
    {
        ThemeCfg { accent: None, green: None, red: None, yellow: None, blue: None, peach: None }
    }
}

/// The default home panel order: habits, calendar, ideas, todos, pomodoro, stats.
pub fn default_panel_list() -> (r: Vec<String>)
    ensures
        names_of(r@) == default_panels(),
{
    let mut v: Vec<String> = Vec::new();
    v.push("habits".to_owned());
    v.push("calendar".to_owned());
    v.push("ideas".to_owned());
    v.push("todos".to_owned());
    v.push("pomodoro".to_owned());
    v.push("stats".to_owned());
    assert(names_of(v@) =~= default_panels());
    v
}

impl Default for Config {
    fn default() -> (r: Self)
        ensures
            names_of(r.panels@) == default_panels(),
            r.pomodoro.is_default(),
            r.theme.is_empty(),
            r.sound is None,
    {
        Config { panels: default_panel_list(), pomodoro: PomodoroCfg::default(), theme: ThemeCfg::default(), sound: None }
    }
}

impl Config {
    /// Builds the settings from what a file holds; every setting it leaves out takes
    /// its default.
    pub fn from_parts(
        panels: Option<Vec<String>>,
        focus_min: Option<u64>,
        break_min: Option<u64>,
        theme: ThemeCfg,
        sound: Option<String>,
    ) -> (r: Config)
        ensures
            match panels {
                Some(p) => r.panels@ == p@,
                None => names_of(r.panels@) == default_panels(),
            },
            r.pomodoro.focus_min == (match focus_min { Some(m) => m, None => 25 }),
            r.pomodoro.break_min == (match break_min { Some(m) => m, None => 5 }),
            r.theme == theme,
            r.sound == sound,
    {
        let panels = match panels {
            Some(p) => p,
            None => default_panel_list(),
        };
        let focus_min = match focus_min {
            Some(m) => m,
            None => 25,
        };
        let break_min = match break_min {
            Some(m) => m,
            None => 5,
        };
        Config { panels, pomodoro: PomodoroCfg { focus_min, break_min }, theme, sound }
    }
}

/// The warning shown when the file lists no panels.
pub open spec fn empty_panels_warning() -> Seq<char> {
    "config.toml: panels empty, using default panel order"@
}

/// Makes the settings usable: an empty panel list is replaced by the default order,
/// with a warning for the status line.
pub fn sanitize(c: Config) -> (r: (Config, Option<String>))
    ensures
        c.panels@.len() == 0 ==> {
            &&& names_of(r.0.panels@) == default_panels()
            &&& r.0.pomodoro == c.pomodoro
            &&& r.0.theme == c.theme
            &&& r.0.sound == c.sound
            &&& r.1 matches Some(w) && w@ == empty_panels_warning()
        },
        c.panels@.len() > 0 ==> r.0 == c && r.1 is None,
        r.0.panels@.len() > 0,
{
    if c.panels.len() == 0 {
        let mut c = c;
        c.panels = default_panel_list();
        assert(names_of(c.panels@).len() == 6);
        (c, Some("config.toml: panels empty, using default panel order".to_owned()))
    } else {
        (c, None)
    }
}

} // verus!
