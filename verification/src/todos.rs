use crate::command::{
    clamp_sel, clamp_selection, edit_text, edited, is_down, is_up, key_is_down, key_is_up, no_reload, nothing, quiet,
    reload_none, sel_down, sel_up, step_down, step_up, Command, Effect, InputMode, Key, NewTodo, Reload,
};
use crate::date::{chrono_parse_date, format_date, Date};
use crate::pomodoro::Kind;
use crate::recur::parse_spec;
use crate::theme::{Rgb, Theme};
use crate::text::{
    chars_of, concat, contains_chars, contains_seq, decimal, decimal_text, std_parse_u32, trim, trimmed, lemma_text_le_refl, lemma_text_le_total, lemma_text_le_trans,
    text_le, text_le_chars, to_lower, unicode_lower,
};
use vstd::prelude::*;

verus! {

/// A todo as stored.
#[derive(Clone, Debug, PartialEq, Eq)]
pub struct Todo {
    pub id: i64,
    pub title: String,
    pub notes: String,
    /// 0 low, 1 medium, 2 high.
    pub priority: u8,
    pub due_date: Option<Date>,
    pub project: Option<String>,
    /// Comma-separated tags.
    pub tags: String,
    pub parent_id: Option<i64>,
    pub recur_rule: Option<String>,
    pub done_at: Option<String>,
    pub created_at: String,
}

impl Todo {
    pub open spec fn wf(self) -> bool {
        self.due_date matches Some(d) ==> d.wf()
    }
}

pub open spec fn all_wf(s: Seq<Todo>) -> bool {
    forall|i: int| 0 <= i < s.len() ==> (#[trigger] s[i]).wf()
}

/// An open todo whose due date has passed.
pub open spec fn is_overdue(t: Todo, today: Date) -> bool {
    t.done_at is None && (t.due_date matches Some(d) && d.days < today.days)
}

/// Whether the todo is open and past its due date.
pub fn overdue(t: &Todo, today: Date) -> (r: bool)
    ensures
        r == is_overdue(*t, today),
{
    t.done_at.is_none() && match t.due_date {
        Some(d) => d.days < today.days,
        None => false,
    }
}

/// The mark in front of a todo and its colour: a green tick once done; otherwise a
/// filled dot for high priority and a ring for the others, red when overdue or high,
/// yellow for medium and muted for low.
pub fn todo_mark(t: &Todo, today: Date, theme: &Theme) -> (r: (&'static str, Rgb))
    ensures
        t.done_at is Some ==> r.0@ == "✔"@ && r.1 == theme.green,
        t.done_at is None && t.priority == 2 ==> r.0@ == "◉"@ && r.1 == theme.red,
        t.done_at is None && t.priority != 2 ==> r.0@ == "○"@,
        t.done_at is None && t.priority != 2 && is_overdue(*t, today) ==> r.1 == theme.red,
        t.done_at is None && t.priority == 1 && !is_overdue(*t, today) ==> r.1 == theme.yellow,
        t.done_at is None && t.priority != 1 && t.priority != 2 && !is_overdue(*t, today) ==> r.1 == theme.muted,
{
    if t.done_at.is_some() {
        ("✔", theme.green)
    } else {
        let mark = if t.priority == 2 { "◉" } else { "○" };
        let color = if overdue(t, today) || t.priority == 2 {
            theme.red
        } else if t.priority == 1 {
            theme.yellow
        } else {
            theme.muted
        };
        (mark, color)
    }
}

/// A line of the todo list: a top-level todo (with its subtask counts, open and
/// total, when it has subtasks) or a subtask of the expanded todo.
#[derive(Debug)]
pub struct Row {
    pub todo: Todo,
    pub is_subtask: bool,
    pub sub_counts: Option<(i64, i64)>,
}

/// The glyph in front of a todo: a tick once done, a filled dot for high priority, a
/// ring otherwise.
pub open spec fn mark_glyph(t: Todo) -> Seq<char> {
    if t.done_at is Some { "✔"@ } else if t.priority == 2 { "◉"@ } else { "○"@ }
}

/// The colour of that glyph: green once done; red when overdue or high; yellow for
/// medium; muted for low.
pub open spec fn mark_color(t: Todo, today: Date, theme: Theme) -> Rgb {
    if t.done_at is Some {
        theme.green
    } else if is_overdue(t, today) || t.priority == 2 {
        theme.red
    } else if t.priority == 1 {
        theme.yellow
    } else {
        theme.muted
    }
}

/// The colour of a todo's title: muted once done, red when overdue, plain text else.
pub open spec fn title_color(t: Todo, today: Date, theme: Theme) -> Rgb {
    if t.done_at is Some {
        theme.muted
    } else if is_overdue(t, today) {
        theme.red
    } else {
        theme.text
    }
}

/// An integer as `Display` writes it: a minus sign before negative numbers.
pub open spec fn signed_decimal(x: int) -> Seq<char> {
    if x < 0 { seq!['-'] + decimal((-x) as nat) } else { decimal(x as nat) }
}

/// A piece of a todo's line: its text, its colour, and whether it is the highlighted
/// title of the selected row.
pub open spec fn segment_view(s: (String, Rgb, bool)) -> (Seq<char>, Rgb, bool) {
    (s.0@, s.1, s.2)
}

pub open spec fn indent_segments(row: Row, theme: Theme) -> Seq<(Seq<char>, Rgb, bool)> {
    if row.is_subtask { seq![("    "@, theme.text, false)] } else { seq![] }
}

pub open spec fn recur_segments(t: Todo, theme: Theme) -> Seq<(Seq<char>, Rgb, bool)> {
    if t.recur_rule is Some { seq![(" ↻"@, theme.blue, false)] } else { seq![] }
}

pub open spec fn count_segments(row: Row, theme: Theme) -> Seq<(Seq<char>, Rgb, bool)> {
    match row.sub_counts {
        Some(c) => seq![(" ["@ + signed_decimal(c.1 - c.0) + "/"@ + signed_decimal(c.1 as int) + "]"@, theme.muted, false)],
        None => seq![],
    }
}

pub open spec fn due_segments(t: Todo, today: Date, theme: Theme) -> Seq<(Seq<char>, Rgb, bool)> {
    match t.due_date {
        Some(d) => seq![("  "@ + format_date(d.days as int), if is_overdue(t, today) { theme.red } else { theme.peach }, false)],
        None => seq![],
    }
}

pub open spec fn project_segments(t: Todo, theme: Theme) -> Seq<(Seq<char>, Rgb, bool)> {
    match t.project {
        Some(p) => seq![("  #"@ + p@, theme.blue, false)],
        None => seq![],
    }
}

/// The pieces of a todo's line, in order: an indent for a subtask; the mark; the
/// title; ` ↻` for a recurring todo; `[done/total]` when it has subtasks; the due date,
/// red when overdue; the project.
pub open spec fn todo_segments_spec(row: Row, today: Date, theme: Theme, selected: bool) -> Seq<(Seq<char>, Rgb, bool)> {
    let t = row.todo;
    indent_segments(row, theme)
        + seq![(" "@ + mark_glyph(t) + " "@, mark_color(t, today, theme), false)]
        + seq![(t.title@, title_color(t, today, theme), selected)]
        + recur_segments(t, theme)
        + count_segments(row, theme)
        + due_segments(t, today, theme)
        + project_segments(t, theme)
}

fn signed_text(x: i128) -> (r: String)
    requires
        -(u64::MAX as int) <= x <= u64::MAX,
    ensures
        r@ == signed_decimal(x as int),
{
    if x < 0 {
        proof {
            reveal_strlit("-");
        }
        concat("-", decimal_text((-x) as u64).as_str())
    } else {
        decimal_text(x as u64)
    }
}

fn push_segment(v: &mut Vec<(String, Rgb, bool)>, s: (String, Rgb, bool))
    ensures
        final(v)@.map_values(|x: (String, Rgb, bool)| segment_view(x))
            == old(v)@.map_values(|x: (String, Rgb, bool)| segment_view(x)).push(segment_view(s)),
{
    v.push(s);
    assert(v@.map_values(|x: (String, Rgb, bool)| segment_view(x))
        =~= old(v)@.map_values(|x: (String, Rgb, bool)| segment_view(x)).push(segment_view(s)));
}

/// The pieces of a todo's line, with their colours, as the list shows them.
pub fn todo_segments(row: &Row, today: Date, theme: &Theme, selected: bool) -> (r: Vec<(String, Rgb, bool)>)
    requires
        row.todo.wf(),
    ensures
        r@.map_values(|x: (String, Rgb, bool)| segment_view(x)) == todo_segments_spec(*row, today, *theme, selected),
{
    let t = &row.todo;
    let od = overdue(t, today);
    let mut v: Vec<(String, Rgb, bool)> = Vec::new();
    assert(v@.map_values(|x: (String, Rgb, bool)| segment_view(x)) =~= Seq::<(Seq<char>, Rgb, bool)>::empty());
    if row.is_subtask {
        push_segment(&mut v, ("    ".to_owned(), theme.text, false));
    }
    let ghost a1 = v@.map_values(|x: (String, Rgb, bool)| segment_view(x));
    assert(a1 =~= indent_segments(*row, *theme));
    let (glyph, mcolor) = todo_mark(t, today, theme);
    let m1 = concat(" ", glyph);
    let m = concat(m1.as_str(), " ");
    push_segment(&mut v, (m, mcolor, false));
    let tcolor = if t.done_at.is_some() { theme.muted } else if od { theme.red } else { theme.text };
    push_segment(&mut v, (t.title.clone(), tcolor, selected));
    let ghost a2 = v@.map_values(|x: (String, Rgb, bool)| segment_view(x));
    assert(a2 =~= a1 + seq![(" "@ + mark_glyph(*t) + " "@, mark_color(*t, today, *theme), false)]
        + seq![(t.title@, title_color(*t, today, *theme), selected)]);
    if t.recur_rule.is_some() {
        push_segment(&mut v, (" ↻".to_owned(), theme.blue, false));
    }
    let ghost a3 = v@.map_values(|x: (String, Rgb, bool)| segment_view(x));
    assert(a3 =~= a2 + recur_segments(*t, *theme));
    if let Some(c) = row.sub_counts {
        let done = signed_text(c.1 as i128 - c.0 as i128);
        let total = signed_text(c.1 as i128);
        let s1 = concat(" [", done.as_str());
        let s2 = concat(s1.as_str(), "/");
        let s3 = concat(s2.as_str(), total.as_str());
        let s4 = concat(s3.as_str(), "]");
        push_segment(&mut v, (s4, theme.muted, false));
    }
    let ghost a4 = v@.map_values(|x: (String, Rgb, bool)| segment_view(x));
    assert(a4 =~= a3 + count_segments(*row, *theme));
    if let Some(d) = t.due_date {
        let s = concat("  ", d.to_text().as_str());
        push_segment(&mut v, (s, if od { theme.red } else { theme.peach }, false));
    }
    let ghost a5 = v@.map_values(|x: (String, Rgb, bool)| segment_view(x));
    assert(a5 =~= a4 + due_segments(*t, today, *theme));
    if let Some(p) = &t.project {
        let s = concat("  #", p.as_str());
        push_segment(&mut v, (s, theme.blue, false));
    }
    assert(v@.map_values(|x: (String, Rgb, bool)| segment_view(x)) =~= a5 + project_segments(*t, *theme));
    v
}

pub open spec fn text_of(o: Option<String>) -> Seq<char> {
    match o {
        Some(s) => s@,
        None => Seq::empty(),
    }
}

/// The text a todo is grouped by: its project, or nothing.
pub open spec fn project_key(t: Todo) -> Seq<char> {
    text_of(t.project)
}

/// The todo's title, project or tags contain the filter, ignoring case.
pub open spec fn matches_filter(t: Todo, f: Seq<char>) -> bool {
    let lf = unicode_lower(f);
    ||| contains_seq(unicode_lower(t.title@), lf)
    ||| contains_seq(unicode_lower(project_key(t)), lf)
    ||| contains_seq(unicode_lower(t.tags@), lf)
}

pub open spec fn filter_pred(f: Seq<char>) -> spec_fn(Todo) -> bool {
    |t: Todo| matches_filter(t, f)
}

pub open spec fn with_key(k: Seq<char>) -> spec_fn(Todo) -> bool {
    |t: Todo| project_key(t) == k
}

pub open spec fn sorted_by_project(s: Seq<Todo>) -> bool {
    forall|i: int, j: int| 0 <= i < j < s.len() ==> text_le(project_key(s[i]), project_key(s[j]))
}

/// `out` is `inp` sorted by project, keeping the order of todos of the same project.
pub open spec fn stable_sort_of(out: Seq<Todo>, inp: Seq<Todo>) -> bool {
    &&& sorted_by_project(out)
    &&& forall|k: Seq<char>| #[trigger] out.filter(with_key(k)) == inp.filter(with_key(k))
}

fn project_chars(t: &Todo) -> (r: Vec<char>)
    ensures
        r@ == project_key(*t),
{
    match &t.project {
        Some(p) => chars_of(p.as_str()),
        None => Vec::new(),
    }
}

proof fn lemma_filter_none(s: Seq<Todo>, p: spec_fn(Todo) -> bool)
    requires
        forall|i: int| 0 <= i < s.len() ==> !p(s[i]),
    ensures
        s.filter(p) == Seq::<Todo>::empty(),
    decreases s.len(),
{
    reveal(Seq::filter);
    if s.len() > 0 {
        lemma_filter_none(s.drop_last(), p);
    }
}

proof fn lemma_filter_single(x: Todo, p: spec_fn(Todo) -> bool)
    ensures
        seq![x].filter(p) == (if p(x) { seq![x] } else { Seq::<Todo>::empty() }),
{
    reveal(Seq::filter);
    assert(seq![x].drop_last() =~= Seq::<Todo>::empty());
    assert(Seq::<Todo>::empty().filter(p) =~= Seq::<Todo>::empty());
    assert(Seq::<Todo>::empty().push(x) =~= seq![x]);
}

proof fn lemma_filter_take_succ(s: Seq<Todo>, i: int, p: spec_fn(Todo) -> bool)
    requires
        0 <= i < s.len(),
    ensures
        s.take(i + 1).filter(p) == (if p(s[i]) { s.take(i).filter(p).push(s[i]) } else { s.take(i).filter(p) }),
{
    reveal(Seq::filter);
    assert(s.take(i + 1).drop_last() =~= s.take(i));
}

/// Sorts todos by project, keeping the order of todos in the same project.
pub fn sort_by_project(v: Vec<Todo>) -> (r: Vec<Todo>)
    ensures
        stable_sort_of(r@, v@),
{
    let ghost orig = v@;
    let mut input = v;
    let mut out: Vec<Todo> = Vec::new();
    let mut i: usize = 0;
    let n = input.len();
    proof {
        assert forall|k: Seq<char>| #[trigger] out@.filter(with_key(k)) == orig.take(0).filter(with_key(k)) by {
            reveal(Seq::filter);
            assert(orig.take(0) =~= Seq::<Todo>::empty());
        }
        assert(input@ =~= orig.skip(0));
    }
    while i < n
        invariant
            n == orig.len(),
            i <= n,
            input@ == orig.skip(i as int),
            sorted_by_project(out@),
            forall|k: Seq<char>| #[trigger] out@.filter(with_key(k)) == orig.take(i as int).filter(with_key(k)),
        decreases n - i,
    {
        let x = input.remove(0);
        assert(x == orig[i as int]);
        assert(input@ =~= orig.skip(i + 1));
        let kx = project_chars(&x);
        let mut p: usize = 0;
        while p < out.len() && text_le_chars(&project_chars(&out[p]), &kx)
            invariant
                p <= out.len(),
                kx@ == project_key(x),
                forall|q: int| 0 <= q < p ==> text_le(project_key(#[trigger] out@[q]), project_key(x)),
            decreases out.len() - p,
        {
            p = p + 1;
        }
        let ghost o = out@;
        proof {
            assert forall|q: int| p <= q < o.len() implies !text_le(project_key(#[trigger] o[q]), project_key(x)) by {
                if text_le(project_key(o[q]), project_key(x)) {
                    assert(q != p);
                    lemma_text_le_trans(project_key(o[p as int]), project_key(o[q]), project_key(x));
                }
            }
        }
        out.insert(p, x);
        proof {
            let o2 = out@;
            assert(o2 =~= o.take(p as int) + seq![x] + o.skip(p as int));
            assert forall|a: int, b: int| 0 <= a < b < o2.len() implies text_le(project_key(o2[a]), project_key(o2[b])) by {
                if b == p {
                    assert(o2[a] == o[a]);
                } else if a == p {
                    assert(o2[b] == o[b - 1]);
                    lemma_text_le_total(project_key(o[b - 1]), project_key(x));
                } else if a < p && b > p {
                    assert(o2[a] == o[a]);
                    assert(o2[b] == o[b - 1]);
                } else if b < p {
                    assert(o2[a] == o[a]);
                    assert(o2[b] == o[b]);
                } else {
                    assert(o2[a] == o[a - 1]);
                    assert(o2[b] == o[b - 1]);
                }
            }
            assert forall|k: Seq<char>| #[trigger] out@.filter(with_key(k)) == orig.take(i + 1).filter(with_key(k)) by {
                let pk = with_key(k);
                lemma_filter_take_succ(orig, i as int, pk);
                assert(o =~= o.take(p as int) + o.skip(p as int));
                Seq::filter_distributes_over_add(o.take(p as int), o.skip(p as int), pk);
                Seq::filter_distributes_over_add(o.take(p as int) + seq![x], o.skip(p as int), pk);
                Seq::filter_distributes_over_add(o.take(p as int), seq![x], pk);
                lemma_filter_single(x, pk);
                if k == project_key(x) {
                    assert forall|q: int| 0 <= q < o.skip(p as int).len() implies !pk(o.skip(p as int)[q]) by {
                        assert(o.skip(p as int)[q] == o[p + q]);
                        if project_key(o[p + q]) == project_key(x) {
                            lemma_text_le_refl(project_key(x));
                        }
                    }
                    lemma_filter_none(o.skip(p as int), pk);
                    assert(o.take(p as int).filter(pk) + Seq::<Todo>::empty() =~= o.take(p as int).filter(pk));
                    assert(o.take(p as int).filter(pk) + seq![x] =~= o.take(p as int).filter(pk).push(x));
                } else {
                    assert(o.take(p as int).filter(pk) + Seq::<Todo>::empty() =~= o.take(p as int).filter(pk));
                }
            }
        }
        i = i + 1;
    }
    assert(orig.take(n as int) =~= orig);
    out
}

fn lower_chars(s: &str) -> (r: Vec<char>)
    ensures
        r@ == unicode_lower(s@),
{
    let l = to_lower(s);
    chars_of(l.as_str())
}

fn matches(t: &Todo, lf: &Vec<char>, ghost_f: Ghost<Seq<char>>) -> (r: bool)
    requires
        lf@ == unicode_lower(ghost_f@),
    ensures
        r == matches_filter(*t, ghost_f@),
{
    let empty = String::new();
    let project = match &t.project {
        Some(p) => p,
        None => &empty,
    };
    assert(project@ == project_key(*t));
    contains_chars(&lower_chars(t.title.as_str()), lf) || contains_chars(&lower_chars(project.as_str()), lf)
        || contains_chars(&lower_chars(t.tags.as_str()), lf)
}

/// The todos whose title, project or tags contain `f`, ignoring case, in their order.
pub fn filter_todos(v: Vec<Todo>, f: &str) -> (r: Vec<Todo>)
    ensures
        r@ == v@.filter(filter_pred(f@)),
{
    let ghost orig = v@;
    let lf = lower_chars(f);
    let mut input = v;
    let mut out: Vec<Todo> = Vec::new();
    let n = input.len();
    let mut i: usize = 0;
    proof {
        reveal(Seq::filter);
        assert(orig.take(0) =~= Seq::<Todo>::empty());
        assert(input@ =~= orig.skip(0));
    }
    while i < n
        invariant
            n == orig.len(),
            i <= n,
            lf@ == unicode_lower(f@),
            input@ == orig.skip(i as int),
            out@ == orig.take(i as int).filter(filter_pred(f@)),
        decreases n - i,
    {
        let x = input.remove(0);
        assert(x == orig[i as int]);
        assert(input@ =~= orig.skip(i + 1));
        proof {
            lemma_filter_take_succ(orig, i as int, filter_pred(f@));
        }
        if matches(&x, &lf, Ghost(f@)) {
            out.push(x);
        }
        i = i + 1;
    }
    assert(orig.take(n as int) =~= orig);
    out
}

/// The form for adding or editing a todo: title, notes, priority (0-2), due
/// (YYYY-MM-DD), project, tags, repeat rule.
#[derive(Debug)]
pub struct TodoForm {
    pub fields: Vec<String>,
    pub focus: usize,
    pub editing_id: Option<i64>,
    pub parent_id: Option<i64>,
}

/// The todos module's state.
#[derive(Debug)]
pub struct TodosState {
    pub items: Vec<Row>,
    pub selected: usize,
    pub group_by_project: bool,
    pub filter: Option<String>,
    pub filter_editing: bool,
    pub form: Option<TodoForm>,
    pub expanded: Option<i64>,
    /// The last completed todo and the next occurrence it spawned, so that both can be undone.
    pub last_completed: Option<(i64, Option<i64>)>,
}

/// The row of a top-level todo; its counts are kept only when it has subtasks.
pub open spec fn top_row(t: Todo, c: Option<(i64, i64)>) -> Row {
    Row {
        todo: t,
        is_subtask: false,
        sub_counts: match c {
            Some(x) => if x.1 > 0 { Some(x) } else { None },
            None => None,
        },
    }
}

pub open spec fn sub_rows(subs: Seq<Todo>) -> Seq<Row> {
    subs.map_values(|t: Todo| Row { todo: t, is_subtask: true, sub_counts: None })
}

/// The list rows: each top-level todo, followed by the subtasks of the expanded one.
pub open spec fn rows_of(tops: Seq<Todo>, counts: Seq<Option<(i64, i64)>>, expanded: Option<i64>, subs: Seq<Todo>) -> Seq<Row>
    decreases tops.len(),
{
    if tops.len() == 0 {
        Seq::empty()
    } else {
        rows_of(tops.drop_last(), counts.drop_last(), expanded, subs) + seq![top_row(tops.last(), counts.last())]
            + (if expanded == Some(tops.last().id) { sub_rows(subs) } else { Seq::empty() })
    }
}

impl TodosState {
    pub open spec fn wf(self) -> bool {
        &&& self.items@.len() > 0 ==> self.selected < self.items@.len()
        &&& forall|i: int| 0 <= i < self.items@.len() ==> (#[trigger] self.items@[i]).todo.wf()
        &&& self.form matches Some(f) ==> f.fields@.len() == 7 && f.focus < 7
    }

    pub fn new() -> (r: TodosState)
        ensures
            r.wf(),
            r.items@.len() == 0,
            r.selected == 0,
            r.filter is None,
            r.form is None,
            !r.filter_editing,
            !r.group_by_project,
            r.expanded is None,
            r.last_completed is None,
    {
        TodosState {
            items: Vec::new(),
            selected: 0,
            group_by_project: false,
            filter: None,
            filter_editing: false,
            form: None,
            expanded: None,
            last_completed: None,
        }
    }

    /// Which of the open top-level todos the list shows, in order: those matching the
    /// filter, grouped by project when grouping is on.
    pub fn visible(&self, open: Vec<Todo>) -> (r: Vec<Todo>)
        ensures
            ({
                let f = match self.filter {
                    Some(f) => open@.filter(filter_pred(f@)),
                    None => open@,
                };
                if self.group_by_project { stable_sort_of(r@, f) } else { r@ == f }
            }),
    {
        let tops = match &self.filter {
            Some(f) => filter_todos(open, f.as_str()),
            None => open,
        };
        if self.group_by_project {
            sort_by_project(tops)
        } else {
            tops
        }
    }

    /// Builds the rows from the shown top-level todos, their subtask counts and the
    /// subtasks of the expanded todo; the selection is kept in the list.
    pub fn set_rows(&mut self, tops: Vec<Todo>, counts: Vec<Option<(i64, i64)>>, subtasks: Vec<Todo>)
        requires
            counts@.len() == tops@.len(),
            old(self).wf(),
            all_wf(tops@),
            all_wf(subtasks@),
            forall|i: int, j: int|
                0 <= i < tops@.len() && 0 <= j < tops@.len() && old(self).expanded == Some(tops@[i].id)
                    && old(self).expanded == Some(tops@[j].id) ==> i == j,
        ensures
            final(self).items@ == rows_of(tops@, counts@, old(self).expanded, subtasks@),
            final(self).selected == clamp_sel(old(self).selected as int, final(self).items@.len() as int),
            final(self).wf(),
            final(self).group_by_project == old(self).group_by_project,
            final(self).filter == old(self).filter,
            final(self).filter_editing == old(self).filter_editing,
            final(self).form == old(self).form,
            final(self).expanded == old(self).expanded,
            final(self).last_completed == old(self).last_completed,
    {
        let ghost t0 = tops@;
        let ghost c0 = counts@;
        let ghost s0 = subtasks@;
        let mut tops = tops;
        let mut counts = counts;
        let mut subs = Some(subtasks);
        let mut rows: Vec<Row> = Vec::new();
        let n = tops.len();
        let mut i: usize = 0;
        assert(t0.take(0) =~= Seq::<Todo>::empty());
        assert(tops@ =~= t0.skip(0));
        assert(counts@ =~= c0.skip(0));
        while i < n
            invariant
                n == t0.len(),
                c0.len() == n,
                all_wf(t0),
                all_wf(s0),
                forall|q: int| 0 <= q < rows@.len() ==> (#[trigger] rows@[q]).todo.wf(),
                i <= n,
                tops@ == t0.skip(i as int),
                counts@ == c0.skip(i as int),
                rows@ == rows_of(t0.take(i as int), c0.take(i as int), self.expanded, s0),
                subs matches Some(sv) ==> sv@ == s0,
                subs is None ==> exists|j: int| 0 <= j < i && self.expanded == Some(#[trigger] t0[j].id),
                forall|a: int, b: int|
                    0 <= a < n && 0 <= b < n && self.expanded == Some(t0[a].id) && self.expanded == Some(t0[b].id) ==> a == b,
            decreases n - i,
        {
            let t = tops.remove(0);
            let c = counts.remove(0);
            assert(t == t0[i as int]);
            assert(c == c0[i as int]);
            assert(tops@ =~= t0.skip(i + 1));
            assert(counts@ =~= c0.skip(i + 1));
            assert(t0.take(i + 1).drop_last() =~= t0.take(i as int));
            assert(c0.take(i + 1).drop_last() =~= c0.take(i as int));
            let id = t.id;
            let kept = match c {
                Some(x) => if x.1 > 0 { Some(x) } else { None },
                None => None,
            };
            rows.push(Row { todo: t, is_subtask: false, sub_counts: kept });
            let ghost before = rows@;
            if self.expanded == Some(id) && subs.is_some() {
                let mut ss = subs.take().unwrap();
                let m = ss.len();
                let mut k: usize = 0;
                assert(s0.take(0) =~= Seq::<Todo>::empty());
                assert(ss@ =~= s0.skip(0));
                while k < m
                    invariant
                        m == s0.len(),
                        k <= m,
                        ss@ == s0.skip(k as int),
                        rows@ == before + sub_rows(s0.take(k as int)),
                        all_wf(s0),
                        forall|q: int| 0 <= q < rows@.len() ==> (#[trigger] rows@[q]).todo.wf(),
                    decreases m - k,
                {
                    let st = ss.remove(0);
                    assert(st == s0[k as int]);
                    assert(ss@ =~= s0.skip(k + 1));
                    rows.push(Row { todo: st, is_subtask: true, sub_counts: None });
                    assert(sub_rows(s0.take(k + 1)) =~= sub_rows(s0.take(k as int)).push(Row { todo: s0[k as int], is_subtask: true, sub_counts: None }));
                    k = k + 1;
                }
                assert(s0.take(m as int) =~= s0);
            } else {
                proof {
                    if self.expanded == Some(id) {
                        let j = choose|j: int| 0 <= j < i && self.expanded == Some(#[trigger] t0[j].id);
                        assert(j == i);
                    }
                }
            }
            assert(rows@ =~= rows_of(t0.take(i + 1), c0.take(i + 1), self.expanded, s0));
            i = i + 1;
        }
        assert(t0.take(n as int) =~= t0);
        assert(c0.take(n as int) =~= c0);
        let len = rows.len();
        self.items = rows;
        self.selected = clamp_selection(self.selected, len);
    }
}

pub open spec fn field_texts(f: TodoForm) -> Seq<Seq<char>> {
    f.fields@.map_values(|s: String| s@)
}

/// What `str::parse::<u8>` reads.
pub open spec fn std_parse_u8(s: Seq<char>) -> Option<nat> {
    match std_parse_u32(s) {
        Some(v) => if v <= 255 { Some(v) } else { None },
        None => None,
    }
}

/// The priority a form field holds: its number, or 0 where it holds none.
pub open spec fn priority_of(s: Seq<char>) -> nat {
    match std_parse_u8(s) {
        Some(v) => v,
        None => 0,
    }
}

pub open spec fn due_text(d: Option<Date>) -> Seq<char> {
    match d {
        Some(d) => format_date(d.days as int),
        None => Seq::empty(),
    }
}

/// The form fields for editing `t`.
pub open spec fn edit_fields(t: Todo) -> Seq<Seq<char>> {
    seq![t.title@, t.notes@, decimal(t.priority as nat), due_text(t.due_date), text_of(t.project), t.tags@, text_of(t.recur_rule)]
}

pub open spec fn empty_fields() -> Seq<Seq<char>> {
    seq![Seq::empty(), Seq::empty(), Seq::empty(), Seq::empty(), Seq::empty(), Seq::empty(), Seq::empty()]
}

/// How a filled-in form is judged when it is saved.
pub enum FormVerdict {
    MissingTitle,
    BadDue,
    BadRepeat,
    Ready,
}

pub open spec fn verdict(fv: Seq<Seq<char>>) -> FormVerdict {
    if trimmed(fv[0]).len() == 0 {
        FormVerdict::MissingTitle
    } else if trimmed(fv[3]).len() > 0 && chrono_parse_date(trimmed(fv[3])) is None {
        FormVerdict::BadDue
    } else if trimmed(fv[6]).len() > 0 && parse_spec(trimmed(fv[6])) is None {
        FormVerdict::BadRepeat
    } else {
        FormVerdict::Ready
    }
}

pub open spec fn opt_text(t: Seq<char>, o: Option<String>) -> bool {
    if t.len() == 0 { o is None } else { o matches Some(s) && s@ == t }
}

/// `todo` is what the form `f` saves.
pub open spec fn saved_from(todo: NewTodo, f: TodoForm) -> bool {
    let fv = field_texts(f);
    &&& todo.title@ == trimmed(fv[0])
    &&& todo.notes@ == fv[1]
    &&& todo.priority == priority_of(fv[2])
    &&& trimmed(fv[3]).len() == 0 ==> todo.due_date is None
    &&& trimmed(fv[3]).len() > 0 ==> (todo.due_date matches Some(d) && d.wf() && chrono_parse_date(trimmed(fv[3])) == Some(d.days as int))
    &&& opt_text(trimmed(fv[4]), todo.project)
    &&& todo.tags@ == trimmed(fv[5])
    &&& todo.parent_id == f.parent_id
    &&& opt_text(trimmed(fv[6]), todo.recur_rule)
}

pub open spec fn says(status: Option<String>, msg: Seq<char>) -> bool {
    status matches Some(m) && m@ == msg
}

fn form_for(t: &Todo) -> (r: TodoForm)
    requires
        t.wf(),
    ensures
        field_texts(r) == edit_fields(*t),
        r.fields@.len() == 7,
        r.focus == 0,
        r.editing_id == Some(t.id),
        r.parent_id == t.parent_id,
{
    let mut fields: Vec<String> = Vec::new();
    fields.push(t.title.clone());
    fields.push(t.notes.clone());
    fields.push(decimal_text(t.priority as u64));
    fields.push(match t.due_date {
        Some(d) => d.to_text(),
        None => String::new(),
    });
    fields.push(match &t.project {
        Some(p) => p.clone(),
        None => String::new(),
    });
    fields.push(t.tags.clone());
    fields.push(match &t.recur_rule {
        Some(r) => r.clone(),
        None => String::new(),
    });
    let r = TodoForm { fields, focus: 0, editing_id: Some(t.id), parent_id: t.parent_id };
    assert(field_texts(r) =~= edit_fields(*t));
    r
}

fn blank_form(parent_id: Option<i64>) -> (r: TodoForm)
    ensures
        field_texts(r) == empty_fields(),
        r.fields@.len() == 7,
        r.focus == 0,
        r.editing_id is None,
        r.parent_id == parent_id,
{
    let mut fields: Vec<String> = Vec::new();
    let mut i: usize = 0;
    while i < 7
        invariant
            i <= 7,
            fields@.len() == i,
            forall|j: int| 0 <= j < i ==> (#[trigger] fields@[j])@ == Seq::<char>::empty(),
        decreases 7 - i,
    {
        fields.push(String::new());
        i = i + 1;
    }
    let r = TodoForm { fields, focus: 0, editing_id: None, parent_id };
    assert(field_texts(r) =~= empty_fields());
    r
}

fn priority_value(s: &String) -> (r: u8)
    ensures
        r as nat == priority_of(s@),
{
    let v = chars_of(s.as_str());
    match crate::text::parse_u32(&v, 0, v.len()) {
        Some(p) => {
            assert(v@.subrange(0, v@.len() as int) =~= v@);
            if p <= 255 { p as u8 } else { 0 }
        },
        None => {
            assert(v@.subrange(0, v@.len() as int) =~= v@);
            0
        },
    }
}

fn optional_text(t: &str) -> (r: Option<String>)
    ensures
        opt_text(t@, r),
{
    if t.is_empty() { None } else { Some(t.to_owned()) }
}

/// What a key does while the todo form is open: the state, input mode and status
/// line after it, and the command it gives.
pub open spec fn todo_form_step(pre: TodosState, post: TodosState, pre_mode: InputMode, post_mode: InputMode, pre_status: Option<String>, post_status: Option<String>, key: Key, r: Command) -> bool {
    &&& post.items == pre.items
    &&& post.selected == pre.selected
    &&& post.filter == pre.filter
    &&& post.filter_editing == pre.filter_editing
    &&& post.group_by_project == pre.group_by_project
    &&& post.expanded == pre.expanded
    &&& post.last_completed == pre.last_completed
    &&& ({
        let f = pre.form.unwrap();
        let fv = field_texts(f);
        let same_but = |fields: Seq<Seq<char>>, focus: int|
            post.form matches Some(g) && field_texts(g) == fields && g.focus == focus
                && g.editing_id == f.editing_id && g.parent_id == f.parent_id;
        let unchanged = r == quiet() && post_mode == pre_mode && post_status == pre_status;
        if key == Key::Esc {
            post.form is None && post_mode == InputMode::Normal && r == quiet() && post_status == pre_status
        } else if key == Key::Tab || key == Key::Down {
            same_but(fv, (f.focus + 1) % 7) && unchanged
        } else if key == Key::BackTab || key == Key::Up {
            same_but(fv, (f.focus + 6) % 7) && unchanged
        } else if (key == Key::Left || key == Key::Right) && f.focus == 2 {
            let p = priority_of(fv[2]);
            let q = if key == Key::Right { (p + 1) % 3 } else { (p + 2) % 3 };
            same_but(fv.update(2, decimal(q as nat)), 2) && unchanged
        } else if key == Key::Backspace {
            same_but(fv.update(f.focus as int, edited(fv[f.focus as int], key)), f.focus as int) && unchanged
        } else if key == Key::Enter {
            match verdict(fv) {
                FormVerdict::MissingTitle => says(post_status, "title is required"@) && post.form == pre.form
                    && r == quiet() && post_mode == pre_mode,
                FormVerdict::BadDue => says(post_status, "due must be YYYY-MM-DD"@) && post.form == pre.form
                    && r == quiet() && post_mode == pre_mode,
                FormVerdict::BadRepeat => says(post_status, "repeat: daily | weekly:mon,thu | every:3d"@)
                    && post.form == pre.form && r == quiet() && post_mode == pre_mode,
                FormVerdict::Ready => {
                    &&& r.effect matches Effect::TodoSave { todo, editing_id } && saved_from(todo, f) && editing_id == f.editing_id
                    &&& r.reload == Reload { todos: true, calendar: true, ..no_reload() }
                    &&& post.form is None
                    &&& post_mode == InputMode::Normal
                    &&& post_status == pre_status
                },
            }
        } else if key is Char {
            if f.focus != 2 {
                same_but(fv.update(f.focus as int, edited(fv[f.focus as int], key)), f.focus as int) && unchanged
            } else {
                post.form == pre.form && unchanged
            }
        } else {
            post.form == pre.form && unchanged
        }
    })
}

/// Handles a key while the add/edit form is open.
pub fn form_key(st: &mut TodosState, mode: &mut InputMode, status: &mut Option<String>, key: Key) -> (r: Command)
    requires
        old(st).wf(),
        old(st).form is Some,
    ensures
        final(st).wf(),
        todo_form_step(*old(st), *final(st), *old(mode), *final(mode), *old(status), *final(status), key, r),
{
    let mut form = st.form.take().unwrap();
    let ghost fv = field_texts(form);
    if key == Key::Esc {
        *mode = InputMode::Normal;
        return nothing();
    } else if key == Key::Tab || key == Key::Down {
        form.focus = (form.focus + 1) % 7;
    } else if key == Key::BackTab || key == Key::Up {
        form.focus = (form.focus + 6) % 7;
    } else if (key == Key::Left || key == Key::Right) && form.focus == 2 {
        let p = priority_value(&form.fields[2]) as u32;
        let q = if key == Key::Right { (p + 1) % 3 } else { (p + 2) % 3 };
        form.fields.set(2, decimal_text(q as u64));
        assert(field_texts(form) =~= fv.update(2, decimal(q as nat)));
    } else if key == Key::Backspace || (matches!(key, Key::Char(_)) && form.focus != 2) {
        let mut text = form.fields[form.focus].clone();
        edit_text(&mut text, key);
        form.fields.set(form.focus, text);
        assert(field_texts(form) =~= fv.update(form.focus as int, edited(fv[form.focus as int], key)));
    } else if key == Key::Enter {
        let title = trim(form.fields[0].as_str());
        if title.is_empty() {
            *status = Some("title is required".to_owned());
            st.form = Some(form);
            return nothing();
        }
        let due_str = trim(form.fields[3].as_str());
        let due = if due_str.is_empty() {
            None
        } else {
            match Date::parse(due_str) {
                Some(d) => Some(d),
                None => {
                    *status = Some("due must be YYYY-MM-DD".to_owned());
                    st.form = Some(form);
                    return nothing();
                },
            }
        };
        let rule_str = trim(form.fields[6].as_str());
        let rule = if rule_str.is_empty() {
            None
        } else {
            if crate::recur::parse(rule_str).is_none() {
                *status = Some("repeat: daily | weekly:mon,thu | every:3d".to_owned());
                st.form = Some(form);
                return nothing();
            }
            Some(rule_str.to_owned())
        };
        let todo = NewTodo {
            title: title.to_owned(),
            notes: form.fields[1].clone(),
            priority: priority_value(&form.fields[2]),
            due_date: due,
            project: optional_text(trim(form.fields[4].as_str())),
            tags: trim(form.fields[5].as_str()).to_owned(),
            parent_id: form.parent_id,
            recur_rule: rule,
        };
        *mode = InputMode::Normal;
        return Command {
            effect: Effect::TodoSave { todo, editing_id: form.editing_id },
            reload: Reload { todos: true, calendar: true, ..reload_none() },
        };
    }
    st.form = Some(form);
    nothing()
}

/// The status shown when a todo still has open subtasks.
pub open spec fn open_subtasks_message(open: nat) -> Seq<char> {
    decimal(open) + " subtasks still open — finish them first"@
}

/// The open-subtask count that blocks completing a row, if any.
pub open spec fn blocking_open(row: Row) -> Option<i64> {
    if row.todo.parent_id is None {
        match row.sub_counts {
            Some(c) => if c.0 > 0 { Some(c.0) } else { None },
            None => None,
        }
    } else {
        None
    }
}

/// What a key does in the todos module: the state, input mode and status line after
/// it, and the command it gives.
pub open spec fn todos_key_step(pre: TodosState, post: TodosState, pre_mode: InputMode, post_mode: InputMode, pre_status: Option<String>, post_status: Option<String>, key: Key, focus_min: u64, r: Command) -> bool {
    &&& pre.form is Some ==> todo_form_step(pre, post, pre_mode, post_mode, pre_status, post_status, key, r)
    &&& post.items == pre.items
    &&& pre.form is None && pre.filter_editing ==> {
        &&& post.form is None
        &&& post.selected == pre.selected
        &&& post.group_by_project == pre.group_by_project
        &&& post.expanded == pre.expanded
        &&& post.last_completed == pre.last_completed
        &&& r == Command { effect: Effect::Nothing, reload: Reload { todos: true, ..no_reload() } }
        &&& post_status == pre_status
        &&& if key == Key::Enter || key == Key::Esc {
            &&& !post.filter_editing
            &&& post_mode == InputMode::Normal
            &&& key == Key::Esc ==> post.filter is None
            &&& key == Key::Enter ==> post.filter == pre.filter
        } else if key == Key::Backspace || key is Char {
            &&& post.filter_editing
            &&& post_mode == pre_mode
            &&& post.filter matches Some(f) && f@ == edited(text_of(pre.filter), key)
        } else {
            post.filter_editing && post_mode == pre_mode && post.filter == pre.filter
        }
    }
    &&& pre.form is None && !pre.filter_editing ==> {
        let n = pre.items@.len();
        let sel = pre.selected as int;
        let row = pre.items@[sel];
        let same_view = post.filter == pre.filter && post.filter_editing == pre.filter_editing
            && post.group_by_project == pre.group_by_project && post.expanded == pre.expanded;
        let calm = post_mode == pre_mode && post_status == pre_status;
        if is_up(key) && n > 0 {
            post.selected == sel_up(sel) && r == quiet() && same_view && calm && post.form is None
                && post.last_completed == pre.last_completed
        } else if is_down(key) && n > 0 {
            post.selected == sel_down(sel, n as int) && r == quiet() && same_view && calm && post.form is None
                && post.last_completed == pre.last_completed
        } else if key == Key::Enter && n > 0 {
            &&& !row.is_subtask ==> post.expanded == (if pre.expanded == Some(row.todo.id) { None } else { Some(row.todo.id) })
                && r == Command { effect: Effect::Nothing, reload: Reload { todos: true, ..no_reload() } }
            &&& row.is_subtask ==> post.expanded == pre.expanded && r == quiet()
            &&& post.selected == sel && calm && post.form is None
            &&& post.last_completed == pre.last_completed
        } else if (key == Key::Char(' ') || key == Key::Char('x')) && n > 0 {
            &&& post.selected == sel && same_view && post_mode == pre_mode && post.form is None
            &&& post.last_completed == pre.last_completed
            &&& if row.todo.done_at is Some {
                r == quiet() && post_status == pre_status
            } else if blocking_open(row) is Some {
                r == quiet() && says(post_status, open_subtasks_message(blocking_open(row).unwrap() as nat))
            } else {
                &&& r == Command {
                    effect: Effect::TodoComplete {
                        id: row.todo.id,
                        recurring: row.todo.recur_rule is Some,
                        parent: row.todo.parent_id,
                    },
                    reload: no_reload(),
                }
                &&& post_status == pre_status
            }
        } else if key == Key::Char('u') {
            &&& post.last_completed is None
            &&& pre.last_completed matches Some(lc) ==> r == Command {
                effect: Effect::TodoUncomplete { id: lc.0, spawned: lc.1 },
                reload: Reload { todos: true, calendar: true, ..no_reload() },
            }
            &&& pre.last_completed is None ==> r == quiet()
            &&& post.selected == sel && same_view && calm && post.form is None
        } else if key == Key::Char('d') && n > 0 {
            &&& r == Command { effect: Effect::TodoDelete { id: row.todo.id }, reload: Reload { todos: true, calendar: true, ..no_reload() } }
            &&& post.selected == sel && same_view && calm && post.form is None
            &&& post.last_completed == pre.last_completed
        } else if key == Key::Char('a') || (key == Key::Char('A') && n > 0) || (key == Key::Char('e') && n > 0) {
            &&& post.form matches Some(f) && f.focus == 0 && (if key == Key::Char('e') {
                field_texts(f) == edit_fields(row.todo) && f.editing_id == Some(row.todo.id) && f.parent_id == row.todo.parent_id
            } else {
                &&& field_texts(f) == empty_fields() && f.editing_id is None
                &&& key == Key::Char('a') ==> f.parent_id is None
                &&& key == Key::Char('A') ==> f.parent_id == Some(match row.todo.parent_id { Some(p) => p, None => row.todo.id })
            })
            &&& post_mode == InputMode::Editing
            &&& r == quiet() && post_status == pre_status
            &&& post.selected == sel && same_view && post.last_completed == pre.last_completed
        } else if key == Key::Char('/') {
            &&& post.filter matches Some(f) && f@.len() == 0
            &&& post.filter_editing
            &&& post_mode == InputMode::Editing
            &&& r == quiet() && post_status == pre_status
            &&& post.selected == sel && post.form is None && post.group_by_project == pre.group_by_project
            &&& post.expanded == pre.expanded && post.last_completed == pre.last_completed
        } else if key == Key::Char('g') {
            &&& post.group_by_project == !pre.group_by_project
            &&& r == Command { effect: Effect::Nothing, reload: Reload { todos: true, ..no_reload() } }
            &&& post.selected == sel && calm && post.form is None && post.filter == pre.filter
            &&& post.filter_editing == pre.filter_editing && post.expanded == pre.expanded
            &&& post.last_completed == pre.last_completed
        } else if key == Key::Char('p') && n > 0 {
            &&& r.reload == no_reload()
            &&& r.effect matches Effect::PomoStart { kind, minutes, todo_id, todo_title }
                && kind == Kind::Focus && minutes == focus_min && todo_id == Some(row.todo.id)
                && todo_title == Some(row.todo.title)
            &&& post.selected == sel && same_view && calm && post.form is None
            &&& post.last_completed == pre.last_completed
        } else {
            r == quiet() && post.selected == sel && same_view && calm && post.form is None
                && post.last_completed == pre.last_completed
        }
    }
}

/// Handles a key for the todos module.
pub fn handle_key(
    st: &mut TodosState,
    mode: &mut InputMode,
    status: &mut Option<String>,
    key: Key,
    focus_min: u64,
) -> (r: Command)
    requires
        old(st).wf(),
    ensures
        final(st).wf(),
        todos_key_step(*old(st), *final(st), *old(mode), *final(mode), *old(status), *final(status), key, focus_min, r),
{
    if st.form.is_some() {
        return form_key(st, mode, status, key);
    }
    if st.filter_editing {
        if key == Key::Enter || key == Key::Esc {
            if key == Key::Esc {
                st.filter = None;
            }
            st.filter_editing = false;
            *mode = InputMode::Normal;
        } else if key == Key::Backspace || matches!(key, Key::Char(_)) {
            let mut f = match st.filter.take() {
                Some(f) => f,
                None => String::new(),
            };
            edit_text(&mut f, key);
            st.filter = Some(f);
        }
        return Command { effect: Effect::Nothing, reload: Reload { todos: true, ..reload_none() } };
    }
    let n = st.items.len();
    if key_is_up(key) && n > 0 {
        st.selected = step_up(st.selected);
        nothing()
    } else if key_is_down(key) && n > 0 {
        st.selected = step_down(st.selected, n);
        nothing()
    } else if key == Key::Enter && n > 0 {
        let row = &st.items[st.selected];
        if !row.is_subtask {
            let id = row.todo.id;
            st.expanded = if st.expanded == Some(id) { None } else { Some(id) };
            Command { effect: Effect::Nothing, reload: Reload { todos: true, ..reload_none() } }
        } else {
            nothing()
        }
    } else if (key == Key::Char(' ') || key == Key::Char('x')) && n > 0 {
        let row = &st.items[st.selected];
        if row.todo.done_at.is_some() {
            return nothing();
        }
        if row.todo.parent_id.is_none() {
            if let Some(c) = row.sub_counts {
                if c.0 > 0 {
                    let count = decimal_text(c.0 as u64);
                    *status = Some(concat(count.as_str(), " subtasks still open — finish them first"));
                    return nothing();
                }
            }
        }
        Command {
            effect: Effect::TodoComplete {
                id: row.todo.id,
                recurring: row.todo.recur_rule.is_some(),
                parent: row.todo.parent_id,
            },
            reload: reload_none(),
        }
    } else if key == Key::Char('u') {
        match st.last_completed.take() {
            Some((id, spawned)) => Command {
                effect: Effect::TodoUncomplete { id, spawned },
                reload: Reload { todos: true, calendar: true, ..reload_none() },
            },
            None => nothing(),
        }
    } else if key == Key::Char('d') && n > 0 {
        let id = st.items[st.selected].todo.id;
        Command { effect: Effect::TodoDelete { id }, reload: Reload { todos: true, calendar: true, ..reload_none() } }
    } else if key == Key::Char('a') {
        st.form = Some(blank_form(None));
        *mode = InputMode::Editing;
        nothing()
    } else if key == Key::Char('A') && n > 0 {
        let row = &st.items[st.selected];
        let pid = match row.todo.parent_id {
            Some(p) => p,
            None => row.todo.id,
        };
        st.form = Some(blank_form(Some(pid)));
        *mode = InputMode::Editing;
        nothing()
    } else if key == Key::Char('e') && n > 0 {
        let form = form_for(&st.items[st.selected].todo);
        st.form = Some(form);
        *mode = InputMode::Editing;
        nothing()
    } else if key == Key::Char('/') {
        st.filter = Some(String::new());
        st.filter_editing = true;
        *mode = InputMode::Editing;
        nothing()
    } else if key == Key::Char('g') {
        st.group_by_project = !st.group_by_project;
        Command { effect: Effect::Nothing, reload: Reload { todos: true, ..reload_none() } }
    } else if key == Key::Char('p') && n > 0 {
        let row = &st.items[st.selected];
        Command {
            effect: Effect::PomoStart {
                kind: Kind::Focus,
                minutes: focus_min,
                todo_id: Some(row.todo.id),
                todo_title: Some(row.todo.title.clone()),
            },
            reload: reload_none(),
        }
    } else {
        nothing()
    }
}

impl TodosState {
    /// After a completion was stored: remembers it for undo and reports what follows
    /// from it (a scheduled next occurrence; a parent whose subtasks are now all done).
    pub fn completed(&mut self, status: &mut Option<String>, id: i64, spawned: Option<i64>, recurring: bool, parent_open: Option<i64>)
        requires
            old(self).wf(),
        ensures
            final(self).wf(),
            final(self).last_completed == Some((id, spawned)),
            final(self).items == old(self).items,
            final(self).selected == old(self).selected,
            final(self).form == old(self).form,
            final(self).filter == old(self).filter,
            parent_open == Some(0i64) ==> says(*final(status), "all subtasks done — space on parent to close it"@),
            parent_open != Some(0i64) && recurring ==> says(*final(status), "↻ next occurrence scheduled"@),
            parent_open != Some(0i64) && !recurring ==> *final(status) == *old(status),
    {
        self.last_completed = Some((id, spawned));
        if recurring {
            *status = Some("↻ next occurrence scheduled".to_owned());
        }
        if parent_open == Some(0) {
            *status = Some("all subtasks done — space on parent to close it".to_owned());
        }
    }
}

/// Undo reverses the last completion: after a completion of `id` that spawned `spawned`
/// was recorded, `u` asks to mark `id` open again and remove `spawned`, and forgets it.
pub proof fn lemma_undo_reverses_completion(
    pre: TodosState,
    post: TodosState,
    pre_mode: InputMode,
    post_mode: InputMode,
    pre_status: Option<String>,
    post_status: Option<String>,
    focus_min: u64,
    r: Command,
    id: i64,
    spawned: Option<i64>,
)
    requires
        pre.last_completed == Some((id, spawned)),
        pre.form is None,
        !pre.filter_editing,
        todos_key_step(pre, post, pre_mode, post_mode, pre_status, post_status, Key::Char('u'), focus_min, r),
    ensures
        r.effect == (Effect::TodoUncomplete { id, spawned }),
        r.reload.todos && r.reload.calendar,
        post.last_completed is None,
{
}

/// `g` twice leaves the grouping as it was.
pub proof fn lemma_group_toggle_twice(
    s0: TodosState,
    s1: TodosState,
    s2: TodosState,
    m0: InputMode,
    m1: InputMode,
    m2: InputMode,
    st0: Option<String>,
    st1: Option<String>,
    st2: Option<String>,
    focus_min: u64,
    r1: Command,
    r2: Command,
)
    requires
        s0.form is None,
        !s0.filter_editing,
        todos_key_step(s0, s1, m0, m1, st0, st1, Key::Char('g'), focus_min, r1),
        todos_key_step(s1, s2, m1, m2, st1, st2, Key::Char('g'), focus_min, r2),
    ensures
        s2.group_by_project == s0.group_by_project,
        s2.filter == s0.filter,
        s2.expanded == s0.expanded,
        s2.selected == s0.selected,
{
}

/// The filter keeps exactly the todos whose title, project or tags contain the filter
/// text, ignoring case: every such todo of the list is kept, and every kept todo is one.
pub proof fn lemma_filter_searches_title_project_and_tags(open: Seq<Todo>, f: Seq<char>, r: Seq<Todo>)
    requires
        r == open.filter(filter_pred(f)),
    ensures
        forall|i: int|
            0 <= i < open.len() && (contains_seq(unicode_lower(open[i].title@), unicode_lower(f))
                || contains_seq(unicode_lower(text_of(open[i].project)), unicode_lower(f))
                || contains_seq(unicode_lower(open[i].tags@), unicode_lower(f)))
                ==> #[trigger] r.contains(open[i]),
        forall|j: int|
            0 <= j < r.len() ==> (contains_seq(unicode_lower((#[trigger] r[j]).title@), unicode_lower(f))
                || contains_seq(unicode_lower(text_of(r[j].project)), unicode_lower(f))
                || contains_seq(unicode_lower(r[j].tags@), unicode_lower(f))),
{
    assert forall|i: int|
        0 <= i < open.len() && (contains_seq(unicode_lower(open[i].title@), unicode_lower(f))
            || contains_seq(unicode_lower(text_of(open[i].project)), unicode_lower(f))
            || contains_seq(unicode_lower(open[i].tags@), unicode_lower(f)))
        implies #[trigger] r.contains(open[i]) by {
        assert(filter_pred(f)(open[i]));
        open.lemma_filter_contains(filter_pred(f), i);
    }
    assert forall|j: int| 0 <= j < r.len() implies (contains_seq(unicode_lower((#[trigger] r[j]).title@), unicode_lower(f))
        || contains_seq(unicode_lower(text_of(r[j].project)), unicode_lower(f))
        || contains_seq(unicode_lower(r[j].tags@), unicode_lower(f))) by {
        open.lemma_filter_pred(filter_pred(f), j);
    }
}

/// Space (or `x`) on an open row that no open subtask blocks asks to complete that very
/// todo; `d` asks to delete the selected todo. Neither changes the list's view.
pub proof fn lemma_done_and_delete_act_on_the_selected_todo(
    s0: TodosState,
    s1: TodosState,
    m0: InputMode,
    m1: InputMode,
    st0: Option<String>,
    st1: Option<String>,
    key: Key,
    focus_min: u64,
    r: Command,
)
    requires
        s0.form is None,
        !s0.filter_editing,
        s0.items@.len() > 0,
        todos_key_step(s0, s1, m0, m1, st0, st1, key, focus_min, r),
    ensures
        ({
            let t = s0.items@[s0.selected as int].todo;
            &&& (key == Key::Char(' ') || key == Key::Char('x')) && t.done_at is None
                && blocking_open(s0.items@[s0.selected as int]) is None
                ==> r.effect == (Effect::TodoComplete { id: t.id, recurring: t.recur_rule is Some, parent: t.parent_id })
            &&& (key == Key::Char(' ') || key == Key::Char('x')) && t.done_at is Some ==> r.effect == Effect::Nothing
            &&& key == Key::Char('d') ==> r.effect == (Effect::TodoDelete { id: t.id })
                && r.reload.todos && r.reload.calendar
        }),
        key == Key::Char(' ') || key == Key::Char('x') || key == Key::Char('d')
            ==> s1.selected == s0.selected && s1.filter == s0.filter,
{
}

} // verus!
