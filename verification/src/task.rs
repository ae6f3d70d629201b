//! Tasks and the line format in which they are stored: one task per line,
//! `completed|priority|created|modified|title`, where the title may itself
//! hold `|`. An older format, `completed|title`, is still read.

use vstd::prelude::*;
use vstd::string::StringExecFns;

use crate::priority::{name_of, priority_from_str, priority_named, priority_to_str, Priority};
use crate::clock::current_timestamp;
use crate::text::{chars_of, str_eq, string_from_chars};

verus! {

/// A task of the list or of the trash.
pub struct Task {
    pub title: String,
    pub completed: bool,
    pub priority: Priority,
    pub created_at: String,
    pub modified_at: String,
}

/// The value of a task.
#[verifier::ext_equal]
pub struct TaskView {
    pub title: Seq<char>,
    pub completed: bool,
    pub priority: Priority,
    pub created_at: Seq<char>,
    pub modified_at: Seq<char>,
}

impl View for Task {
    type V = TaskView;

    open spec fn view(&self) -> TaskView {
        TaskView {
            title: self.title@,
            completed: self.completed,
            priority: self.priority,
            created_at: self.created_at@,
            modified_at: self.modified_at@,
        }
    }
}

/// The values of a sequence of tasks.
pub open spec fn task_views(ts: Seq<Task>) -> Seq<TaskView> {
    ts.map_values(|t: Task| t@)
}

/// How a flag is written: `true` or `false`.
pub open spec fn flag_text(b: bool) -> Seq<char> {
    if b {
        "true"@
    } else {
        "false"@
    }
}

/// The stored line of a task, without its line break.
pub open spec fn task_line(t: TaskView) -> Seq<char> {
    flag_text(t.completed) + seq!['|'] + name_of(t.priority) + seq!['|'] + t.created_at + seq!['|']
        + t.modified_at + seq!['|'] + t.title
}

/// The stored text of a list of tasks: each line followed by a line break.
pub open spec fn tasks_text(ts: Seq<TaskView>) -> Seq<char>
    decreases ts.len(),
{
    if ts.len() == 0 {
        Seq::empty()
    } else {
        tasks_text(ts.drop_last()) + task_line(ts.last()) + seq!['\n']
    }
}

/// Positions of the `|` separators in `s`, in increasing order.
pub open spec fn bars(s: Seq<char>) -> Seq<int>
    decreases s.len(),
{
    if s.len() == 0 {
        Seq::empty()
    } else if s.last() == '|' {
        bars(s.drop_last()).push(s.len() - 1)
    } else {
        bars(s.drop_last())
    }
}

/// The task a stored line stands for, if it is in one of the two formats.
/// A line with one separator is in the old format and gets priority `Low`
/// and the time `now`; a line with four or more is in the current format;
/// any other line stands for no task.
pub open spec fn parsed_line(s: Seq<char>, now: Seq<char>) -> Option<TaskView> {
    let b = bars(s);
    if b.len() == 1 {
        Some(
            TaskView {
                title: s.skip(b[0] + 1),
                completed: s.take(b[0]) == "true"@,
                priority: Priority::Low,
                created_at: now,
                modified_at: now,
            },
        )
    } else if b.len() >= 4 {
        Some(
            TaskView {
                title: s.skip(b[3] + 1),
                completed: s.take(b[0]) == "true"@,
                priority: priority_named(s.subrange(b[0] + 1, b[1])),
                created_at: s.subrange(b[1] + 1, b[2]),
                modified_at: s.subrange(b[2] + 1, b[3]),
            },
        )
    } else {
        None
    }
}

/// The tasks that a sequence of stored lines stands for, skipping the lines
/// in neither format.
pub open spec fn parsed_lines(lines: Seq<Seq<char>>, now: Seq<char>) -> Seq<TaskView>
    decreases lines.len(),
{
    if lines.len() == 0 {
        Seq::empty()
    } else {
        match parsed_line(lines.last(), now) {
            Some(t) => parsed_lines(lines.drop_last(), now).push(t),
            None => parsed_lines(lines.drop_last(), now),
        }
    }
}

/// The values of a sequence of strings.
pub open spec fn string_views(v: Seq<String>) -> Seq<Seq<char>> {
    v.map_values(|s: String| s@)
}

/// The stored line of a task, followed by a line break.
pub fn task_to_line(task: &Task) -> (r: String)
    ensures
        r@ == task_line(task@) + seq!['\n'],
{
    let mut r = if task.completed {
        String::from_str("true")
    } else {
        String::from_str("false")
    };
    r.append("|");
    r.append(priority_to_str(task.priority));
    r.append("|");
    r.append(task.created_at.as_str());
    r.append("|");
    r.append(task.modified_at.as_str());
    r.append("|");
    r.append(task.title.as_str());
    r.append("\n");
    proof {
        reveal_strlit("|");
        reveal_strlit("\n");
    }
    assert(r@ =~= task_line(task@) + seq!['\n']);
    r
}

/// The stored text of a list of tasks.
pub fn tasks_to_text(tasks: &Vec<Task>) -> (r: String)
    ensures
        r@ == tasks_text(task_views(tasks@)),
{
    let mut r = String::new();
    let mut i: usize = 0;
    while i < tasks.len()
        invariant
            i <= tasks.len(),
            r@ == tasks_text(task_views(tasks@.take(i as int))),
        decreases tasks.len() - i,
    {
        let line = task_to_line(&tasks[i]);
        r.append(line.as_str());
        proof {
            let tk = task_views(tasks@.take(i + 1));
            assert(tk.drop_last() =~= task_views(tasks@.take(i as int)));
            assert(tk.last() == tasks@[i as int]@);
        }
        i += 1;
    }
    assert(tasks@.take(tasks.len() as int) =~= tasks@);
    r
}

/// Positions of the separators in `v` (exec).
fn bar_positions(v: &Vec<char>) -> (r: Vec<usize>)
    ensures
        r@.len() == bars(v@).len(),
        forall|k: int| 0 <= k < r@.len() ==> r@[k] as int == #[trigger] bars(v@)[k],
{
    let mut r: Vec<usize> = Vec::new();
    let mut i: usize = 0;
    while i < v.len()
        invariant
            i <= v.len(),
            r@.len() == bars(v@.take(i as int)).len(),
            forall|k: int| 0 <= k < r@.len() ==> r@[k] as int == #[trigger] bars(v@.take(i as int))[k],
        decreases v.len() - i,
    {
        let ghost before = v@.take(i as int);
        assert(v@.take(i + 1).drop_last() =~= before);
        if v[i] == '|' {
            r.push(i);
        }
        i += 1;
    }
    assert(v@.take(v.len() as int) =~= v@);
    r
}

pub proof fn lemma_bars_shape(s: Seq<char>)
    ensures
        forall|k: int| 0 <= k < bars(s).len() ==> 0 <= #[trigger] bars(s)[k] < s.len(),
        forall|k: int| 0 <= k < bars(s).len() ==> s[#[trigger] bars(s)[k]] == '|',
        forall|j: int, k: int| 0 <= j < k < bars(s).len() ==> bars(s)[j] < bars(s)[k],
    decreases s.len(),
{
    if s.len() > 0 {
        lemma_bars_shape(s.drop_last());
        let b = bars(s.drop_last());
        assert forall|k: int| 0 <= k < b.len() implies s[#[trigger] b[k]] == '|' by {
            assert(s.drop_last()[b[k]] == '|');
        }
    }
}

/// The characters of `v` from `a` up to `b`, as a string.
fn piece(v: &Vec<char>, a: usize, b: usize) -> (r: String)
    requires
        a <= b <= v.len(),
    ensures
        r@ == v@.subrange(a as int, b as int),
{
    string_from_chars(&v.as_slice()[a..b])
}

/// Reads one stored line (without its line break); `now` is the time given
/// to a task in the old format.
pub fn parse_task_line(line: &str, now: &str) -> (r: Option<Task>)
    ensures
        r matches Some(t) ==> parsed_line(line@, now@) == Some(t@),
        r is None <==> parsed_line(line@, now@) is None,
{
    let v = chars_of(line);
    let b = bar_positions(&v);
    proof {
        lemma_bars_shape(v@);
    }
    if b.len() == 1 {
        let head = piece(&v, 0, b[0]);
        let title = piece(&v, b[0] + 1, v.len());
        proof {
            assert(v@.subrange(0, b@[0] as int) =~= v@.take(bars(v@)[0]));
            assert(v@.subrange(b@[0] + 1, v.len() as int) =~= v@.skip(bars(v@)[0] + 1));
        }
        let t = Task {
            title,
            completed: str_eq(head.as_str(), "true"),
            priority: Priority::Low,
            created_at: String::from_str(now),
            modified_at: String::from_str(now),
        };
        assert(t@ =~= parsed_line(line@, now@).unwrap());
        Some(t)
    } else if b.len() >= 4 {
        assert(bars(v@)[0] < bars(v@)[1] && bars(v@)[1] < bars(v@)[2] && bars(v@)[2] < bars(v@)[3]);
        let head = piece(&v, 0, b[0]);
        let prio = piece(&v, b[0] + 1, b[1]);
        let created = piece(&v, b[1] + 1, b[2]);
        let modified = piece(&v, b[2] + 1, b[3]);
        let title = piece(&v, b[3] + 1, v.len());
        proof {
            assert(v@.subrange(0, b@[0] as int) =~= v@.take(bars(v@)[0]));
            assert(v@.subrange(b@[3] + 1, v.len() as int) =~= v@.skip(bars(v@)[3] + 1));
        }
        let t = Task {
            title,
            completed: str_eq(head.as_str(), "true"),
            priority: priority_from_str(prio.as_str()),
            created_at: created,
            modified_at: modified,
        };
        assert(t@ =~= parsed_line(line@, now@).unwrap());
        Some(t)
    } else {
        None
    }
}

/// Reads stored lines into tasks, skipping the lines in neither format.
pub fn parse_task_lines(lines: &Vec<String>, now: &str) -> (r: Vec<Task>)
    ensures
        task_views(r@) == parsed_lines(string_views(lines@), now@),
{
    let mut r: Vec<Task> = Vec::new();
    let mut i: usize = 0;
    while i < lines.len()
        invariant
            i <= lines.len(),
            task_views(r@) == parsed_lines(string_views(lines@.take(i as int)), now@),
        decreases lines.len() - i,
    {
        let ghost prefix = string_views(lines@.take(i + 1));
        assert(prefix.drop_last() =~= string_views(lines@.take(i as int)));
        assert(prefix.last() == lines@[i as int]@);
        match parse_task_line(lines[i].as_str(), now) {
            Some(t) => {
                let ghost old_r = r@;
                r.push(t);
                assert(task_views(r@) =~= task_views(old_r).push(t@));
            },
            None => {},
        }
        i += 1;
    }
    assert(lines@.take(lines.len() as int) =~= lines@);
    r
}


/// Reads stored lines into tasks; tasks in the old format get the current
/// time.
pub fn parse_task_lines_now(lines: &Vec<String>) -> (r: Vec<Task>)
    ensures
        exists|now: Seq<char>|
            is_timestamp(now) && bar_free(now) && task_views(r@) == #[trigger] parsed_lines(
                string_views(lines@),
                now,
            ),
{
    let now = current_timestamp();
    parse_task_lines(lines, now.as_str())
}

/// `l` without one `\r` at its end, if it has one.
pub open spec fn chop_cr(l: Seq<char>) -> Seq<char> {
    if l.len() > 0 && l.last() == '\r' {
        l.drop_last()
    } else {
        l
    }
}

/// The lines of `s`, given that the line being read so far is `cur`: each
/// `\n` ends a line (without a `\r` just before it), and a last line without
/// `\n` counts when it is not empty.
pub open spec fn lines_after(cur: Seq<char>, s: Seq<char>) -> Seq<Seq<char>>
    decreases s.len(),
{
    if s.len() == 0 {
        if cur.len() == 0 {
            Seq::empty()
        } else {
            seq![cur]
        }
    } else if s[0] == '\n' {
        seq![chop_cr(cur)] + lines_after(Seq::empty(), s.drop_first())
    } else {
        lines_after(cur.push(s[0]), s.drop_first())
    }
}

/// The lines of a text, as `BufRead::lines` reads them.
pub open spec fn text_lines(s: Seq<char>) -> Seq<Seq<char>> {
    lines_after(Seq::empty(), s)
}

/// Splits a text into its lines, as `BufRead::lines` does.
pub fn split_lines(text: &str) -> (r: Vec<String>)
    ensures
        string_views(r@) == text_lines(text@),
{
    let v = chars_of(text);
    let mut r: Vec<String> = Vec::new();
    let mut cur: Vec<char> = Vec::new();
    let mut i: usize = 0;
    assert(v@.skip(0) =~= v@);
    assert(cur@ =~= Seq::<char>::empty());
    assert(string_views(r@) =~= Seq::<Seq<char>>::empty());
    assert(Seq::<Seq<char>>::empty() + text_lines(text@) =~= text_lines(text@));
    while i < v.len()
        invariant
            i <= v.len(),
            v@ == text@,
            string_views(r@) + lines_after(cur@, v@.skip(i as int)) == text_lines(text@),
        decreases v.len() - i,
    {
        let ghost rest = v@.skip(i as int);
        assert(rest[0] == v@[i as int]);
        assert(rest.drop_first() =~= v@.skip(i + 1));
        if v[i] == '\n' {
            let ghost before = string_views(r@);
            let n = cur.len();
            let line = if n > 0 && cur[n - 1] == '\r' {
                string_from_chars(&cur.as_slice()[0..n - 1])
            } else {
                string_from_chars(cur.as_slice())
            };
            assert(line@ =~= chop_cr(cur@));
            r.push(line);
            assert(string_views(r@) =~= before.push(chop_cr(cur@)));
            assert(before + (seq![chop_cr(cur@)] + lines_after(Seq::empty(), v@.skip(i + 1)))
                =~= before.push(chop_cr(cur@)) + lines_after(Seq::empty(), v@.skip(i + 1)));
            cur = Vec::new();
        } else {
            cur.push(v[i]);
        }
        i += 1;
    }
    assert(v@.skip(i as int).len() == 0);
    if cur.len() > 0 {
        let ghost before = string_views(r@);
        r.push(string_from_chars(cur.as_slice()));
        assert(string_views(r@) =~= before + seq![cur@]);
    } else {
        assert(string_views(r@) =~= string_views(r@) + Seq::<Seq<char>>::empty());
    }
    r
}

/// `s` holds no line break nor carriage return.
pub open spec fn line_free(s: Seq<char>) -> bool {
    forall|i: int| 0 <= i < s.len() ==> s[i] != '\n' && s[i] != '\r'
}

proof fn lemma_lines_across(cur: Seq<char>, x: Seq<char>, y: Seq<char>)
    requires
        line_free(x),
    ensures
        lines_after(cur, x + seq!['\n'] + y) == seq![chop_cr(cur + x)] + lines_after(Seq::empty(), y),
    decreases x.len(),
{
    let s = x + seq!['\n'] + y;
    if x.len() == 0 {
        assert(s[0] == '\n');
        assert(s.drop_first() =~= y);
        assert(cur + x =~= cur);
    } else {
        assert(s[0] == x[0]);
        assert(s.drop_first() =~= x.drop_first() + seq!['\n'] + y);
        lemma_lines_across(cur.push(x[0]), x.drop_first(), y);
        assert(cur.push(x[0]) + x.drop_first() =~= cur + x);
    }
}

proof fn lemma_line_of_task(t: TaskView)
    requires
        line_free(t.title),
        line_free(t.created_at),
        line_free(t.modified_at),
    ensures
        line_free(task_line(t)),
{
    reveal_strlit("true");
    reveal_strlit("false");
    reveal_strlit("Low");
    reveal_strlit("Medium");
    reveal_strlit("High");
    reveal_strlit("Critical");
    let l = task_line(t);
    assert(line_free(flag_text(t.completed)));
    assert(line_free(name_of(t.priority)));
    assert forall|i: int| 0 <= i < l.len() implies l[i] != '\n' && l[i] != '\r' by {
        let f = flag_text(t.completed);
        let n = name_of(t.priority);
        let c = t.created_at;
        let m = t.modified_at;
        assert(l =~= f + seq!['|'] + n + seq!['|'] + c + seq!['|'] + m + seq!['|'] + t.title);
        let a = f.len() as int;
        let b = a + 1 + n.len();
        let d = b + 1 + c.len();
        let e = d + 1 + m.len();
        if i < a {
            assert(l[i] == f[i]);
        } else if i == a || i == b || i == d || i == e {
            assert(l[i] == '|');
        } else if i < b {
            assert(l[i] == n[i - a - 1]);
        } else if i < d {
            assert(l[i] == c[i - b - 1]);
        } else if i < e {
            assert(l[i] == m[i - d - 1]);
        } else {
            assert(l[i] == t.title[i - e - 1]);
        }
    }
}

/// Tasks whose fields can stand on one stored line.
pub open spec fn one_line_tasks(ts: Seq<TaskView>) -> bool {
    forall|i: int|
        0 <= i < ts.len() ==> line_free(#[trigger] ts[i].title) && line_free(ts[i].created_at)
            && line_free(ts[i].modified_at)
}

proof fn lemma_text_lines_of_tasks(ts: Seq<TaskView>, rest: Seq<char>)
    requires
        one_line_tasks(ts),
    ensures
        lines_after(Seq::empty(), tasks_text(ts) + rest) == ts.map_values(|t: TaskView| task_line(t))
            + lines_after(Seq::empty(), rest),
    decreases ts.len(),
{
    if ts.len() > 0 {
        let t = ts.last();
        assert(t == ts[ts.len() - 1]);
        let l = task_line(t);
        lemma_line_of_task(t);
        assert forall|i: int| 0 <= i < ts.drop_last().len() implies line_free(#[trigger] ts.drop_last()[i].title)
            && line_free(ts.drop_last()[i].created_at) && line_free(ts.drop_last()[i].modified_at) by {
            assert(ts.drop_last()[i] == ts[i]);
        }
        let rest2 = l + seq!['\n'] + rest;
        assert(tasks_text(ts) + rest =~= tasks_text(ts.drop_last()) + rest2);
        lemma_text_lines_of_tasks(ts.drop_last(), rest);
        lemma_text_lines_of_tasks(ts.drop_last(), rest2);
        lemma_lines_across(Seq::empty(), l, rest);
        assert(Seq::<char>::empty() + l =~= l);
        assert(chop_cr(l) == l);
        assert(ts.map_values(|t: TaskView| task_line(t)) =~= ts.drop_last().map_values(
            |t: TaskView| task_line(t),
        ).push(l));
    } else {
        assert(tasks_text(ts) + rest =~= rest);
    }
}

/// Reading back the stored text of a list of tasks, line by line, gives the
/// list, whenever no field holds a line break or carriage return and no
/// timestamp holds `|`.
pub proof fn law_text_round_trip(ts: Seq<TaskView>, now: Seq<char>)
    requires
        one_line_tasks(ts),
        forall|i: int| 0 <= i < ts.len() ==> bar_free(#[trigger] ts[i].created_at) && bar_free(ts[i].modified_at),
    ensures
        parsed_lines(text_lines(tasks_text(ts)), now) == ts,
{
    lemma_text_lines_of_tasks(ts, Seq::empty());
    assert(tasks_text(ts) + Seq::<char>::empty() =~= tasks_text(ts));
    assert(ts.map_values(|t: TaskView| task_line(t)) + Seq::<Seq<char>>::empty() =~= ts.map_values(
        |t: TaskView| task_line(t),
    ));
    law_lines_round_trip(ts, now);
}

/// Reads a stored text into tasks, line by line; tasks in the old format get
/// the current time.
pub fn parse_task_text_now(text: &str) -> (r: Vec<Task>)
    ensures
        exists|now: Seq<char>|
            is_timestamp(now) && bar_free(now) && task_views(r@) == #[trigger] parsed_lines(
                text_lines(text@),
                now,
            ),
{
    let lines = split_lines(text);
    parse_task_lines_now(&lines)
}

/// `c` is a decimal digit.
pub open spec fn is_digit(c: char) -> bool {
    '0' <= c && c <= '9'
}

/// How a year is written: four digits for years 0 to 9999, otherwise a sign
/// followed by at least four digits.
pub open spec fn year_text(y: Seq<char>) -> bool {
    ||| (y.len() == 4 && forall|i: int| 0 <= i < 4 ==> is_digit(#[trigger] y[i]))
    ||| (y.len() >= 5 && (y[0] == '+' || y[0] == '-') && forall|i: int|
        1 <= i < y.len() ==> is_digit(#[trigger] y[i]))
}

/// The text after the year: `-MM-DD HH:MM:SS`, each field two digits.
pub open spec fn date_time_tail(t: Seq<char>) -> bool {
    &&& t.len() == 15
    &&& t[0] == '-' && is_digit(t[1]) && is_digit(t[2])
    &&& t[3] == '-' && is_digit(t[4]) && is_digit(t[5])
    &&& t[6] == ' ' && is_digit(t[7]) && is_digit(t[8])
    &&& t[9] == ':' && is_digit(t[10]) && is_digit(t[11])
    &&& t[12] == ':' && is_digit(t[13]) && is_digit(t[14])
}

/// A timestamp as tasks carry it: `YYYY-MM-DD HH:MM:SS` (19 characters for
/// the years 0 to 9999).
pub open spec fn is_timestamp(s: Seq<char>) -> bool {
    s.len() >= 19 && year_text(s.take(s.len() - 15)) && date_time_tail(s.skip(s.len() - 15))
}

/// `s` holds no separator.
pub open spec fn bar_free(s: Seq<char>) -> bool {
    forall|i: int| 0 <= i < s.len() ==> s[i] != '|'
}

proof fn lemma_bar_free(s: Seq<char>)
    requires
        bar_free(s),
    ensures
        bars(s) == Seq::<int>::empty(),
    decreases s.len(),
{
    if s.len() > 0 {
        lemma_bar_free(s.drop_last());
    }
}

/// The separators of `a + [|] + b`, where `a` holds none.
proof fn lemma_bars_after_field(a: Seq<char>, b: Seq<char>)
    requires
        bar_free(a),
    ensures
        bars(a + seq!['|'] + b) =~= seq![a.len() as int] + bars(b).map_values(
            |k: int| k + a.len() + 1,
        ),
    decreases b.len(),
{
    let s = a + seq!['|'] + b;
    if b.len() == 0 {
        assert(s.drop_last() =~= a);
        lemma_bar_free(a);
    } else {
        lemma_bars_after_field(a, b.drop_last());
        assert(s.drop_last() =~= a + seq!['|'] + b.drop_last());
        assert(s.last() == b.last());
    }
}

proof fn lemma_flag_text(b: bool)
    ensures
        bar_free(flag_text(b)),
        (flag_text(b) == "true"@) == b,
{
    reveal_strlit("true");
    reveal_strlit("false");
    assert("true"@.len() == 4);
    assert("false"@.len() == 5);
}

proof fn lemma_name_bar_free(p: Priority)
    ensures
        bar_free(name_of(p)),
{
    reveal_strlit("Low");
    reveal_strlit("Medium");
    reveal_strlit("High");
    reveal_strlit("Critical");
}

/// Reading back the stored line of a task gives the task, whenever its two
/// timestamps hold no `|` (the title may hold any).
pub proof fn law_line_round_trip(t: TaskView, now: Seq<char>)
    requires
        bar_free(t.created_at),
        bar_free(t.modified_at),
    ensures
        parsed_line(task_line(t), now) == Some(t),
{
    let f = flag_text(t.completed);
    let n = name_of(t.priority);
    let c = t.created_at;
    let m = t.modified_at;
    let ti = t.title;
    lemma_flag_text(t.completed);
    lemma_name_bar_free(t.priority);
    crate::priority::law_priority_name_round_trip(t.priority);
    let r3 = m + seq!['|'] + ti;
    let r2 = c + seq!['|'] + r3;
    let r1 = n + seq!['|'] + r2;
    let s = f + seq!['|'] + r1;
    assert(task_line(t) =~= s);
    lemma_bars_after_field(m, ti);
    lemma_bars_after_field(c, r3);
    lemma_bars_after_field(n, r2);
    lemma_bars_after_field(f, r1);
    let b = bars(s);
    let b0 = f.len() as int;
    let b1 = b0 + 1 + n.len();
    let b2 = b1 + 1 + c.len();
    let b3 = b2 + 1 + m.len();
    assert(b[0] == b0);
    assert(bars(r1)[0] == n.len());
    assert(b[1] == b1);
    assert(bars(r2)[0] == c.len());
    assert(bars(r1)[1] == n.len() + 1 + c.len());
    assert(b[2] == b2);
    assert(bars(r3)[0] == m.len());
    assert(bars(r2)[1] == c.len() + 1 + m.len());
    assert(bars(r1)[2] == n.len() + 1 + c.len() + 1 + m.len());
    assert(b[3] == b3);
    assert(b.len() >= 4);
    assert(s.take(b0) =~= f);
    assert(s.subrange(b0 + 1, b1) =~= n);
    assert(s.subrange(b1 + 1, b2) =~= c);
    assert(s.subrange(b2 + 1, b3) =~= m);
    assert(s.skip(b3 + 1) =~= ti);
    assert(parsed_line(s, now).unwrap() =~= t);
}

/// Reading back the stored lines of a list of tasks gives the list, whenever
/// no timestamp holds `|`.
pub proof fn law_lines_round_trip(ts: Seq<TaskView>, now: Seq<char>)
    requires
        forall|i: int| 0 <= i < ts.len() ==> bar_free(#[trigger] ts[i].created_at) && bar_free(ts[i].modified_at),
    ensures
        parsed_lines(ts.map_values(|t: TaskView| task_line(t)), now) == ts,
    decreases ts.len(),
{
    let lines = ts.map_values(|t: TaskView| task_line(t));
    if ts.len() > 0 {
        law_lines_round_trip(ts.drop_last(), now);
        assert(lines.drop_last() =~= ts.drop_last().map_values(|t: TaskView| task_line(t)));
        assert(ts[ts.len() - 1] == ts.last());
        law_line_round_trip(ts.last(), now);
        assert(parsed_lines(lines, now) =~= ts);
    } else {
        assert(parsed_lines(lines, now) =~= ts);
    }
}

} // verus!
