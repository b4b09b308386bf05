use crate::command::{
    edit_text, edited, is_down, is_up, key_is_down, key_is_up, no_reload, nothing, quiet, reload_none, sel_down,
    sel_up, step_down, step_up, clamp_sel, clamp_selection, Command, Effect, InputMode, Key, Reload,
};
use crate::text::{text_eq, trim, trimmed};
use crate::theme::{Rgb, Theme};
use vstd::prelude::*;

verus! {

broadcast use vstd::string::group_string_axioms;

/// An idea as stored. `status` is one of spark, brewing, active, shipped, dropped.
#[derive(Clone, Debug, PartialEq, Eq)]
pub struct Idea {
    pub id: i64,
    pub title: String,
    pub body: String,
    pub status: String,
    pub created_at: String,
}

/// The ideas module's state.
#[derive(Debug)]
pub struct IdeasState {
    pub items: Vec<Idea>,
    pub selected: usize,
    /// Title being typed for a new idea.
    pub input: Option<String>,
    /// Body being edited for the selected idea.
    pub body_edit: Option<String>,
}

/// The status that follows `s` in the cycle spark, brewing, active, shipped, dropped,
/// and back to spark; an unknown status starts the cycle again.
pub open spec fn next_status_spec(s: Seq<char>) -> Seq<char> {
    if s == "spark"@ {
        "brewing"@
    } else if s == "brewing"@ {
        "active"@
    } else if s == "active"@ {
        "shipped"@
    } else if s == "shipped"@ {
        "dropped"@
    } else {
        "spark"@
    }
}

pub fn next_status(s: &str) -> (r: &'static str)
    ensures
        r@ == next_status_spec(s@),
{
    if text_eq(s, "spark") {
        "brewing"
    } else if text_eq(s, "brewing") {
        "active"
    } else if text_eq(s, "active") {
        "shipped"
    } else if text_eq(s, "shipped") {
        "dropped"
    } else {
        "spark"
    }
}

proof fn lemma_status_names_distinct()
    ensures
        "spark"@ != "brewing"@,
        "spark"@ != "active"@,
        "spark"@ != "shipped"@,
        "spark"@ != "dropped"@,
        "brewing"@ != "active"@,
        "brewing"@ != "shipped"@,
        "brewing"@ != "dropped"@,
        "active"@ != "shipped"@,
        "active"@ != "dropped"@,
        "shipped"@ != "dropped"@,
{
    reveal_strlit("spark");
    reveal_strlit("brewing");
    reveal_strlit("active");
    reveal_strlit("shipped");
    reveal_strlit("dropped");
    assert("spark"@.len() == 5);
    assert("active"@.len() == 6);
    assert("brewing"@.len() == 7);
    assert("shipped"@.len() == 7);
    assert("dropped"@.len() == 7);
    assert("brewing"@[0] == 'b');
    assert("shipped"@[0] == 's');
    assert("dropped"@[0] == 'd');
}

/// The mark and color that show an idea's status.
pub fn badge(t: &Theme, status: &str) -> (r: (&'static str, Rgb))
    ensures
        status@ == "spark"@ ==> r.0@ == "✦"@ && r.1 == t.yellow,
        status@ == "brewing"@ ==> r.0@ == "◌"@ && r.1 == t.peach,
        status@ == "active"@ ==> r.0@ == "▶"@ && r.1 == t.blue,
        status@ == "shipped"@ ==> r.0@ == "✔"@ && r.1 == t.green,
        status@ == "dropped"@ ==> r.0@ == "✕"@ && r.1 == t.muted,
        !(status@ == "spark"@ || status@ == "brewing"@ || status@ == "active"@ || status@ == "shipped"@ || status@ == "dropped"@) ==> r.0@ == "?"@ && r.1 == t.muted,
{
    proof {
        lemma_status_names_distinct();
    }
    if text_eq(status, "spark") {
        ("✦", t.yellow)
    } else if text_eq(status, "brewing") {
        ("◌", t.peach)
    } else if text_eq(status, "active") {
        ("▶", t.blue)
    } else if text_eq(status, "shipped") {
        ("✔", t.green)
    } else if text_eq(status, "dropped") {
        ("✕", t.muted)
    } else {
        ("?", t.muted)
    }
}

impl IdeasState {
    pub open spec fn wf(self) -> bool {
        self.items@.len() > 0 ==> self.selected < self.items@.len()
    }

    pub fn new() -> (r: IdeasState)
        ensures
            r.wf(),
            r.items@.len() == 0,
            r.selected == 0,
            r.input is None,
            r.body_edit is None,
    {
        IdeasState { items: Vec::new(), selected: 0, input: None, body_edit: None }
    }

    /// Takes the stored ideas; the selection is kept in the list.
    pub fn load(&mut self, items: Vec<Idea>)
        ensures
            final(self).items@ == items@,
            final(self).selected == clamp_sel(old(self).selected as int, items@.len() as int),
            final(self).input == old(self).input,
            final(self).body_edit == old(self).body_edit,
            final(self).wf(),
    {
        let n = items.len();
        self.items = items;
        self.selected = clamp_selection(self.selected, n);
    }
}

/// What a key does in the ideas module: the state and input mode after it, and the
/// command it gives.
pub open spec fn ideas_key_step(pre: IdeasState, post: IdeasState, pre_mode: InputMode, post_mode: InputMode, key: Key, r: Command) -> bool {
    &&& post.items == pre.items
    &&& pre.input matches Some(buf) ==> {
        &&& post.body_edit == pre.body_edit
        &&& post.selected == pre.selected
        &&& if key == Key::Enter {
            &&& post.input is None
            &&& post_mode == InputMode::Normal
            &&& r.reload == Reload { ideas: true, ..no_reload() }
            &&& trimmed(buf@).len() > 0 ==> (r.effect matches Effect::IdeaAdd { title } && title@ == trimmed(buf@))
            &&& trimmed(buf@).len() == 0 ==> r.effect == Effect::Nothing
        } else if key == Key::Esc {
            post.input is None && post_mode == InputMode::Normal && r == quiet()
        } else {
            &&& post.input matches Some(b) && b@ == edited(buf@, key)
            &&& post_mode == pre_mode
            &&& r == quiet()
        }
    }
    &&& pre.input is None && pre.body_edit is Some ==> {
        let buf = pre.body_edit.unwrap();
        &&& post.input is None
        &&& post.selected == pre.selected
        &&& if key == Key::Enter {
            &&& post.body_edit is None
            &&& post_mode == InputMode::Normal
            &&& r.reload == Reload { ideas: true, ..no_reload() }
            &&& pre.selected < pre.items@.len() ==> (r.effect matches Effect::IdeaSetBody { id, body }
                && id == pre.items@[pre.selected as int].id && body@ == buf@)
            &&& pre.selected >= pre.items@.len() ==> r.effect == Effect::Nothing
        } else if key == Key::Esc {
            post.body_edit is None && post_mode == InputMode::Normal && r == quiet()
        } else {
            &&& post.body_edit matches Some(b) && b@ == edited(buf@, key)
            &&& post_mode == pre_mode
            &&& r == quiet()
        }
    }
    &&& pre.input is None && pre.body_edit is None ==> {
        let n = pre.items@.len();
        let sel = pre.selected as int;
        if is_up(key) && n > 0 {
            post.selected == sel_up(sel) && r == quiet() && post.input is None && post.body_edit is None && post_mode == pre_mode
        } else if is_down(key) && n > 0 {
            post.selected == sel_down(sel, n as int) && r == quiet() && post.input is None && post.body_edit is None && post_mode == pre_mode
        } else if key == Key::Char('a') {
            &&& post.input matches Some(b) && b@.len() == 0
            &&& post.body_edit is None
            &&& post_mode == InputMode::Editing
            &&& r == quiet() && post.selected == sel
        } else if key == Key::Enter && n > 0 {
            &&& post.body_edit matches Some(b) && b@ == pre.items@[sel].body@
            &&& post.input is None
            &&& post_mode == InputMode::Editing
            &&& r == quiet() && post.selected == sel
        } else if key == Key::Char('s') && n > 0 {
            &&& r.effect matches Effect::IdeaSetStatus { id, status } && id == pre.items@[sel].id
                && status@ == next_status_spec(pre.items@[sel].status@)
            &&& r.reload == Reload { ideas: true, ..no_reload() }
            &&& post.selected == sel && post.input is None && post.body_edit is None && post_mode == pre_mode
        } else if key == Key::Char('d') && n > 0 {
            &&& r.effect == Effect::IdeaDelete { id: pre.items@[sel].id }
            &&& r.reload == Reload { ideas: true, ..no_reload() }
            &&& post.selected == sel && post.input is None && post.body_edit is None && post_mode == pre_mode
        } else {
            r == quiet() && post.selected == sel && post.input is None && post.body_edit is None && post_mode == pre_mode
        }
    }
}

/// Handles a key for the ideas module.
pub fn handle_key(st: &mut IdeasState, mode: &mut InputMode, key: Key) -> (r: Command)
    requires
        old(st).wf(),
    ensures
        final(st).wf(),
        ideas_key_step(*old(st), *final(st), *old(mode), *final(mode), key, r),
{
    if st.input.is_some() {
        let mut buf = st.input.take().unwrap();
        if key == Key::Enter {
            let title = trim(buf.as_str());
            let effect = if !title.is_empty() {
                Effect::IdeaAdd { title: title.to_owned() }
            } else {
                Effect::Nothing
            };
            *mode = InputMode::Normal;
            return Command { effect, reload: Reload { ideas: true, ..reload_none() } };
        } else if key == Key::Esc {
            *mode = InputMode::Normal;
            return nothing();
        } else {
            edit_text(&mut buf, key);
            st.input = Some(buf);
            return nothing();
        }
    }
    if st.body_edit.is_some() {
        let mut buf = st.body_edit.take().unwrap();
        if key == Key::Enter {
            let effect = if st.selected < st.items.len() {
                Effect::IdeaSetBody { id: st.items[st.selected].id, body: buf }
            } else {
                Effect::Nothing
            };
            *mode = InputMode::Normal;
            return Command { effect, reload: Reload { ideas: true, ..reload_none() } };
        } else if key == Key::Esc {
            *mode = InputMode::Normal;
            return nothing();
        } else {
            edit_text(&mut buf, key);
            st.body_edit = Some(buf);
            return nothing();
        }
    }
    let n = st.items.len();
    if key_is_up(key) && n > 0 {
        st.selected = step_up(st.selected);
        nothing()
    } else if key_is_down(key) && n > 0 {
        st.selected = step_down(st.selected, n);
        nothing()
    } else if key == Key::Char('a') {
        st.input = Some(String::new());
        *mode = InputMode::Editing;
        nothing()
    } else if key == Key::Enter && n > 0 {
        st.body_edit = Some(st.items[st.selected].body.clone());
        *mode = InputMode::Editing;
        nothing()
    } else if key == Key::Char('s') && n > 0 {
        let idea = &st.items[st.selected];
        let status = next_status(idea.status.as_str()).to_owned();
        Command { effect: Effect::IdeaSetStatus { id: idea.id, status }, reload: Reload { ideas: true, ..reload_none() } }
    } else if key == Key::Char('d') && n > 0 {
        Command { effect: Effect::IdeaDelete { id: st.items[st.selected].id }, reload: Reload { ideas: true, ..reload_none() } }
    } else {
        nothing()
    }
}

/// Cycling the status five times brings any known status back to itself.
pub proof fn lemma_status_cycle_returns(s: Seq<char>)
    requires
        s == "spark"@ || s == "brewing"@ || s == "active"@ || s == "shipped"@ || s == "dropped"@,
    ensures
        next_status_spec(next_status_spec(next_status_spec(next_status_spec(next_status_spec(s))))) == s,
{
    lemma_status_names_distinct();
}

/// `s` moves the selected idea one step along spark → brewing → active → shipped →
/// dropped, and from dropped back to spark.
pub proof fn lemma_status_key_follows_the_cycle(
    s0: IdeasState,
    s1: IdeasState,
    m0: InputMode,
    m1: InputMode,
    r: Command,
)
    requires
        s0.input is None,
        s0.body_edit is None,
        s0.items@.len() > 0,
        s0.selected < s0.items@.len(),
        ideas_key_step(s0, s1, m0, m1, Key::Char('s'), r),
    ensures
        ({
            let idea = s0.items@[s0.selected as int];
            r.effect matches Effect::IdeaSetStatus { id, status } && id == idea.id && {
                &&& idea.status@ == "spark"@ ==> status@ == "brewing"@
                &&& idea.status@ == "brewing"@ ==> status@ == "active"@
                &&& idea.status@ == "active"@ ==> status@ == "shipped"@
                &&& idea.status@ == "shipped"@ ==> status@ == "dropped"@
                &&& idea.status@ == "dropped"@ ==> status@ == "spark"@
                &&& status@ != idea.status@
            }
        }),
        r.reload.ideas,
{
    lemma_status_names_distinct();
}

} // verus!
