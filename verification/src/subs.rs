use crate::command::{
    clamp_sel, clamp_selection, edit_text, edited, is_down, is_up, key_is_down, key_is_up, no_reload, nothing, quiet,
    reload_none, sel_down, sel_up, step_down, step_up, Command, Effect, InputMode, Key, Reload,
};
use crate::text::{split_words, string_of, trim, trimmed, words};
use vstd::prelude::*;

verus! {

/// Whether an entry is a paid subscription or a noted tool.
#[derive(Clone, Copy, Debug, PartialEq, Eq, Structural)]
pub enum SubKind {
    Sub,
    Tool,
}

/// A subscription or tool as stored (its price is kept by the caller).
#[derive(Clone, Debug, PartialEq, Eq)]
pub struct SubEntry {
    pub id: i64,
    pub name: String,
    pub kind: SubKind,
    pub yearly: bool,
    pub renew_day: Option<u32>,
}

/// The subscriptions module's state.
#[derive(Debug)]
pub struct SubsState {
    pub items: Vec<SubEntry>,
    pub selected: usize,
    /// What is being added and the text typed so far.
    pub input: Option<(SubKind, String)>,
}

impl SubsState {
    pub open spec fn wf(self) -> bool {
        self.items@.len() > 0 ==> self.selected < self.items@.len()
    }

    pub fn new() -> (r: SubsState)
        ensures
            r.wf(),
            r.items@.len() == 0,
            r.selected == 0,
            r.input is None,
    {
        SubsState { items: Vec::new(), selected: 0, input: None }
    }

    /// Takes the stored entries; the selection is kept in the list.
    pub fn load(&mut self, items: Vec<SubEntry>)
        ensures
            final(self).items@ == items@,
            final(self).selected == clamp_sel(old(self).selected as int, items@.len() as int),
            final(self).input == old(self).input,
            final(self).wf(),
    {
        let n = items.len();
        self.items = items;
        self.selected = clamp_selection(self.selected, n);
    }
}

/// What a key does in the subscriptions module: the state and input mode after it,
/// and the command it gives.
pub open spec fn subs_key_step(pre: SubsState, post: SubsState, pre_mode: InputMode, post_mode: InputMode, key: Key, r: Command) -> bool {
    &&& post.items == pre.items
    &&& pre.input matches Some((kind, buf)) ==> {
        &&& post.selected == pre.selected
        &&& if key == Key::Enter {
            &&& post.input is None && post_mode == InputMode::Normal
            &&& r.reload == Reload { subs: true, ..no_reload() }
            &&& trimmed(buf@).len() > 0 ==> (r.effect matches Effect::SubAdd { text, is_sub } && text@ == trimmed(buf@)
                && is_sub == (kind == SubKind::Sub))
            &&& trimmed(buf@).len() == 0 ==> r.effect == Effect::Nothing
        } else if key == Key::Esc {
            post.input is None && post_mode == InputMode::Normal && r == quiet()
        } else {
            &&& post.input matches Some((k2, b2)) && k2 == kind && b2@ == edited(buf@, key)
            &&& post_mode == pre_mode && r == quiet()
        }
    }
    &&& pre.input is None ==> {
        let n = pre.items@.len();
        let sel = pre.selected as int;
        if is_up(key) && n > 0 {
            post.selected == sel_up(sel) && r == quiet() && post.input is None && post_mode == pre_mode
        } else if is_down(key) && n > 0 {
            post.selected == sel_down(sel, n as int) && r == quiet() && post.input is None && post_mode == pre_mode
        } else if key == Key::Char('a') || key == Key::Char('t') {
            &&& post.input matches Some((k, b)) && b@.len() == 0
                && k == (if key == Key::Char('a') { SubKind::Sub } else { SubKind::Tool })
            &&& post_mode == InputMode::Editing && r == quiet() && post.selected == sel
        } else if key == Key::Char('d') && n > 0 {
            &&& r == Command { effect: Effect::SubDelete { id: pre.items@[sel].id }, reload: Reload { subs: true, ..no_reload() } }
            &&& post.selected == sel && post.input is None && post_mode == pre_mode
        } else {
            r == quiet() && post.selected == sel && post.input is None && post_mode == pre_mode
        }
    }
}

/// Handles a key for the subscriptions module.
pub fn handle_key(st: &mut SubsState, mode: &mut InputMode, key: Key) -> (r: Command)
    requires
        old(st).wf(),
    ensures
        final(st).wf(),
        subs_key_step(*old(st), *final(st), *old(mode), *final(mode), key, r),
{
    if st.input.is_some() {
        let (kind, mut buf) = st.input.take().unwrap();
        if key == Key::Enter {
            let text = trim(buf.as_str());
            let effect = if !text.is_empty() {
                Effect::SubAdd { text: text.to_owned(), is_sub: kind == SubKind::Sub }
            } else {
                Effect::Nothing
            };
            *mode = InputMode::Normal;
            return Command { effect, reload: Reload { subs: true, ..reload_none() } };
        } else if key == Key::Esc {
            *mode = InputMode::Normal;
            return nothing();
        } else {
            edit_text(&mut buf, key);
            st.input = Some((kind, buf));
            return nothing();
        }
    }
    let n = st.items.len();
    if key_is_up(key) && n > 0 {
        st.selected = step_up(st.selected);
        nothing()
    } else if key_is_down(key) && n > 0 {
        st.selected = step_down(st.selected, n);
        nothing()
    } else if key == Key::Char('a') {
        st.input = Some((SubKind::Sub, String::new()));
        *mode = InputMode::Editing;
        nothing()
    } else if key == Key::Char('t') {
        st.input = Some((SubKind::Tool, String::new()));
        *mode = InputMode::Editing;
        nothing()
    } else if key == Key::Char('d') && n > 0 {
        Command { effect: Effect::SubDelete { id: st.items[st.selected].id }, reload: Reload { subs: true, ..reload_none() } }
    } else {
        nothing()
    }
}

pub open spec fn ascii_lower_char(c: char) -> char {
    if 'A' <= c && c <= 'Z' { ((c as int) + 32) as char } else { c }
}

/// `t` marks yearly billing: `y`, `yr` or `yearly`, in any ASCII case.
/// `t` with ASCII capitals made small, as `str::to_ascii_lowercase` gives it.
pub open spec fn ascii_lower(t: Seq<char>) -> Seq<char> {
    t.map_values(|c: char| ascii_lower_char(c))
}

pub open spec fn yearly_token(t: Seq<char>) -> bool {
    let l = ascii_lower(t);
    ||| l.len() == 1 && l[0] == 'y'
    ||| l.len() == 2 && l[0] == 'y' && l[1] == 'r'
    ||| l.len() == 6 && l[0] == 'y' && l[1] == 'e' && l[2] == 'a' && l[3] == 'r' && l[4] == 'l' && l[5] == 'y'
}

fn lower_at(t: &Vec<char>, i: usize) -> (r: char)
    requires
        i < t@.len(),
    ensures
        r == ascii_lower_char(t@[i as int]),
{
    let c = t[i];
    if 'A' <= c && c <= 'Z' {
        ((c as u8) + 32) as char
    } else {
        c
    }
}

fn is_yearly(t: &Vec<char>) -> (r: bool)
    ensures
        r == yearly_token(t@),
{
    let ghost l = ascii_lower(t@);
    let n = t.len();
    if n == 1 {
        let a = lower_at(t, 0);
        assert(l =~= seq![a]);
        a == 'y'
    } else if n == 2 {
        let a = lower_at(t, 0);
        let b = lower_at(t, 1);
        assert(l =~= seq![a, b]);
        a == 'y' && b == 'r'
    } else if n == 6 {
        let a = lower_at(t, 0);
        let b = lower_at(t, 1);
        let c = lower_at(t, 2);
        let d = lower_at(t, 3);
        let e = lower_at(t, 4);
        let f = lower_at(t, 5);
        assert(l =~= seq![a, b, c, d, e, f]);
        a == 'y' && b == 'e' && c == 'a' && d == 'r' && e == 'l' && f == 'y'
    } else {
        assert(l.len() == n);
        false
    }
}

pub open spec fn not_yearly() -> spec_fn(Seq<char>) -> bool {
    |t: Seq<char>| !yearly_token(t)
}

/// The words of a new subscription's text, without the yearly markers, and whether
/// there was one.
pub fn sub_words(text: &str) -> (r: (Vec<String>, bool))
    ensures
        r.0@.map_values(|s: String| s@) == words(text@).filter(not_yearly()),
        r.1 == exists|i: int| 0 <= i < words(text@).len() && yearly_token(#[trigger] words(text@)[i]),
{
    let ws = split_words(text);
    let ghost all = ws@.map_values(|x: Vec<char>| x@);
    let mut out: Vec<String> = Vec::new();
    let mut yearly = false;
    let mut i: usize = 0;
    proof {
        reveal(Seq::filter);
        assert(all.take(0) =~= Seq::<Seq<char>>::empty());
        assert(out@.map_values(|s: String| s@) =~= Seq::<Seq<char>>::empty());
    }
    while i < ws.len()
        invariant
            i <= ws@.len(),
            all == ws@.map_values(|x: Vec<char>| x@),
            all == words(text@),
            out@.map_values(|s: String| s@) == all.take(i as int).filter(not_yearly()),
            yearly == exists|j: int| 0 <= j < i && yearly_token(#[trigger] all[j]),
        decreases ws.len() - i,
    {
        let y = is_yearly(&ws[i]);
        proof {
            reveal(Seq::filter);
            assert(all.take(i + 1).drop_last() =~= all.take(i as int));
            assert(all[i as int] == ws@[i as int]@);
        }
        if y {
            yearly = true;
        } else {
            let ghost before = out@.map_values(|s: String| s@);
            out.push(string_of(&ws[i]));
            assert(out@.map_values(|s: String| s@) =~= before.push(all[i as int]));
        }
        i = i + 1;
    }
    assert(all.take(i as int) =~= all);
    (out, yearly)
}

/// How many of the last words are read as price and renewal day: up to two trailing
/// numbers, always leaving at least one word for the name. `numeric[i]` tells
/// whether word `i` reads as a number.
pub fn trailing_numbers(numeric: &Vec<bool>) -> (r: usize)
    ensures
        r <= 2,
        numeric@.len() == 0 ==> r == 0,
        numeric@.len() > 0 ==> r < numeric@.len(),
        forall|j: int| numeric@.len() - r <= j < numeric@.len() ==> numeric@[j],
        r < 2 && r + 1 < numeric@.len() ==> !numeric@[numeric@.len() - 1 - r],
{
    let n = numeric.len();
    let mut k: usize = 0;
    while k < 2 && k + 1 < n && numeric[n - 1 - k]
        invariant
            k <= 2,
            n == numeric@.len(),
            n > 0 ==> k < n,
            n == 0 ==> k == 0,
            forall|j: int| n - k <= j < n ==> numeric@[j],
        decreases 2 - k,
    {
        k = k + 1;
    }
    k
}

} // verus!
