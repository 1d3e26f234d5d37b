use vstd::prelude::*;
use crate::task::{string_views, texts, Task};

verus! {

/// The character of a decimal digit.
pub open spec fn digit_char(d: nat) -> char {
    if d == 0 { '0' }
    else if d == 1 { '1' }
    else if d == 2 { '2' }
    else if d == 3 { '3' }
    else if d == 4 { '4' }
    else if d == 5 { '5' }
    else if d == 6 { '6' }
    else if d == 7 { '7' }
    else if d == 8 { '8' }
    else { '9' }
}

/// A natural number written in decimal, without leading zeros.
pub open spec fn decimal(n: nat) -> Seq<char>
    decreases n,
{
    if n < 10 {
        seq![digit_char(n)]
    } else {
        decimal(n / 10) + seq![digit_char(n % 10)]
    }
}

fn digit_str(d: usize) -> (r: &'static str)
    requires
        d < 10,
    ensures
        r@ == seq![digit_char(d as nat)],
{
    proof {
        reveal_strlit("0");
        reveal_strlit("1");
        reveal_strlit("2");
        reveal_strlit("3");
        reveal_strlit("4");
        reveal_strlit("5");
        reveal_strlit("6");
        reveal_strlit("7");
        reveal_strlit("8");
        reveal_strlit("9");
    }
    if d == 0 { "0" }
    else if d == 1 { "1" }
    else if d == 2 { "2" }
    else if d == 3 { "3" }
    else if d == 4 { "4" }
    else if d == 5 { "5" }
    else if d == 6 { "6" }
    else if d == 7 { "7" }
    else if d == 8 { "8" }
    else { assert(d == 9); "9" }
}

/// Appends `n` in decimal.
pub fn push_decimal(s: &mut String, n: usize)
    ensures
        final(s)@ == old(s)@ + decimal(n as nat),
    decreases n,
{
    if n >= 10 {
        push_decimal(s, n / 10);
    }
    s.append(digit_str(n % 10));
    if n >= 10 {
        assert(final(s)@ =~= old(s)@ + decimal(n as nat));
    }
}

/// `n` in decimal, as a new string.
pub fn decimal_string(n: usize) -> (r: String)
    ensures
        r@ == decimal(n as nat),
{
    let mut s = String::new();
    push_decimal(&mut s, n);
    assert(s@ =~= decimal(n as nat));
    s
}

pub open spec fn added_prefix() -> Seq<char> {
    "\u{2713} Task added: "@
}

/// The confirmation shown after a task was added.
pub open spec fn added_message(text: Seq<char>) -> Seq<char> {
    added_prefix() + text
}

pub open spec fn task_word() -> Seq<char> {
    "\u{2713} Task "@
}

pub open spec fn removed_suffix() -> Seq<char> {
    " removed"@
}

/// The confirmation shown after the task at `position` was removed.
pub open spec fn removed_message(position: nat) -> Seq<char> {
    task_word() + decimal(position) + removed_suffix()
}

pub open spec fn error_task_word() -> Seq<char> {
    "Error: Task "@
}

pub open spec fn missing_suffix() -> Seq<char> {
    " doesn't exist"@
}

/// The error shown when no task stands at `position`.
pub open spec fn missing_message(position: nat) -> Seq<char> {
    error_task_word() + decimal(position) + missing_suffix()
}

/// The hint shown in place of an empty listing.
pub open spec fn empty_hint() -> Seq<char> {
    "No tasks yet! Add one with: tasky add <task>"@
}

/// The first line of a listing.
pub open spec fn list_header() -> Seq<char> {
    "All Tasks:"@
}

/// The line of a listing for the task at 1-based `position`.
pub open spec fn task_line(position: nat, text: Seq<char>) -> Seq<char> {
    decimal(position) + ". "@ + text
}

/// The lines shown for the task texts: a hint when there are none, else a
/// header, a blank line, one numbered line per task in order, and a blank line.
pub open spec fn listing(ts: Seq<Seq<char>>) -> Seq<Seq<char>> {
    if ts.len() == 0 {
        seq![empty_hint()]
    } else {
        seq![list_header(), Seq::empty()]
            + Seq::new(ts.len(), |i: int| task_line((i + 1) as nat, ts[i]))
            + seq![Seq::empty()]
    }
}

pub fn added_text(text: &String) -> (r: String)
    ensures
        r@ == added_message(text@),
{
    let mut s = String::from_str("\u{2713} Task added: ");
    s.append(text.as_str());
    s
}

pub fn removed_text(position: usize) -> (r: String)
    ensures
        r@ == removed_message(position as nat),
{
    let mut s = String::from_str("\u{2713} Task ");
    push_decimal(&mut s, position);
    s.append(" removed");
    s
}

pub fn missing_text(position: usize) -> (r: String)
    ensures
        r@ == missing_message(position as nat),
{
    let mut s = String::from_str("Error: Task ");
    push_decimal(&mut s, position);
    s.append(" doesn't exist");
    s
}

/// The lines that list the tasks, or the hint when there are none.
pub fn list_lines(tasks: &Vec<Task>) -> (r: Vec<String>)
    ensures
        string_views(r@) == listing(texts(tasks@)),
{
    let ghost ts = texts(tasks@);
    let mut lines: Vec<String> = Vec::new();
    if tasks.len() == 0 {
        lines.push(String::from_str("No tasks yet! Add one with: tasky add <task>"));
        assert(string_views(lines@) =~= listing(ts));
        return lines;
    }
    lines.push(String::from_str("All Tasks:"));
    lines.push(String::new());
    let n = tasks.len();
    let mut i: usize = 0;
    while i < n
        invariant
            n == tasks.len(),
            ts == texts(tasks@),
            i <= n,
            lines@.len() == i + 2,
            lines@[0]@ == list_header(),
            lines@[1]@ == Seq::<char>::empty(),
            forall|j: int| 0 <= j < i ==> #[trigger] lines@[j + 2]@ == task_line((j + 1) as nat, ts[j]),
        decreases n - i,
    {
        let mut line = String::new();
        push_decimal(&mut line, i + 1);
        line.append(". ");
        line.append(tasks[i].text.as_str());
        lines.push(line);
        i = i + 1;
    }
    lines.push(String::new());
    assert(string_views(lines@) =~= listing(ts)) by {
        assert forall|j: int| 0 <= j < ts.len() implies lines@[j + 2]@ == task_line((j + 1) as nat, ts[j]) by {}
    }
    lines
}

} // verus!
