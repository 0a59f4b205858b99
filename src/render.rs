use vstd::prelude::*;
use crate::todo::{Status, TodoList, TodoModel};

verus! {

/// The label under which a status is shown.
pub open spec fn status_label(s: Status) -> Seq<char> {
    match s {
        Status::NotStarted => "Not Started"@,
        Status::InProgress => "In Progress"@,
        Status::Completed => "Completed"@,
    }
}

/// The line shown in place of a listing when there are no tasks.
pub open spec fn no_tasks_line() -> Seq<char> {
    "No tasks at the moment."@
}

/// The character of the decimal digit `d`.
pub open spec fn digit_char(d: nat) -> char
    recommends
        d < 10,
{
    if d == 0 {
        '0'
    } else if d == 1 {
        '1'
    } else if d == 2 {
        '2'
    } else if d == 3 {
        '3'
    } else if d == 4 {
        '4'
    } else if d == 5 {
        '5'
    } else if d == 6 {
        '6'
    } else if d == 7 {
        '7'
    } else if d == 8 {
        '8'
    } else {
        '9'
    }
}

/// `n` written in decimal, without leading zeros.
pub open spec fn decimal(n: nat) -> Seq<char>
    decreases n,
{
    if n < 10 {
        seq![digit_char(n)]
    } else {
        decimal(n / 10).push(digit_char(n % 10))
    }
}

/// The line that shows `t` at the 1-based display position `position`:
/// `<position>: <description> [<status label>]`.
pub open spec fn task_line(position: nat, t: TodoModel) -> Seq<char> {
    decimal(position) + ": "@ + t.description + " ["@ + status_label(t.status) + "]"@
}

/// The lines that show the tasks `s`, one per task in order and numbered from 1,
/// or the single no-tasks line where there are none.
pub open spec fn listing(s: Seq<TodoModel>) -> Seq<Seq<char>> {
    if s.len() == 0 {
        seq![no_tasks_line()]
    } else {
        Seq::new(s.len(), |i: int| task_line((i + 1) as nat, s[i]))
    }
}

impl Status {
    /// The label under which this status is shown.
    pub fn label(&self) -> (r: &'static str)
        ensures
            r@ == status_label(*self),
    {
        match self {
            Status::NotStarted => "Not Started",
            Status::InProgress => "In Progress",
            Status::Completed => "Completed",
        }
    }
}

fn digit_str(d: usize) -> (r: &'static str)
    requires
        d < 10,
    ensures
        r@ == seq![digit_char(d as nat)],
{
    proof {
        reveal_strlit("0");
        reveal_strlit("1");
        reveal_strlit("2");
        reveal_strlit("3");
        reveal_strlit("4");
        reveal_strlit("5");
        reveal_strlit("6");
        reveal_strlit("7");
        reveal_strlit("8");
        reveal_strlit("9");
    }
    let r = if d == 0 {
        "0"
    } else if d == 1 {
        "1"
    } else if d == 2 {
        "2"
    } else if d == 3 {
        "3"
    } else if d == 4 {
        "4"
    } else if d == 5 {
        "5"
    } else if d == 6 {
        "6"
    } else if d == 7 {
        "7"
    } else if d == 8 {
        "8"
    } else {
        "9"
    };
    assert(r@ =~= seq![digit_char(d as nat)]);
    r
}

/// `n` written in decimal.
pub fn decimal_string(n: usize) -> (r: String)
    ensures
        r@ == decimal(n as nat),
    decreases n,
{
    if n < 10 {
        String::from_str(digit_str(n))
    } else {
        let mut s = decimal_string(n / 10);
        s.append(digit_str(n % 10));
        s
    }
}

/// The line that shows the task `description` / `status` at display position `position`.
pub fn format_task_line(position: usize, description: &String, status: Status) -> (r: String)
    ensures
        r@ == task_line(
            position as nat,
            TodoModel { description: description@, status },
        ),
{
    let mut s = decimal_string(position);
    s.append(": ");
    s.append(description.as_str());
    s.append(" [");
    s.append(status.label());
    s.append("]");
    s
}

impl TodoList {
    /// The lines that show this list: one per task, in order, numbered from 1,
    /// or the single no-tasks line where the list is empty.
    pub fn list(&self) -> (r: Vec<String>)
        ensures
            r@.len() == listing(self@).len(),
            forall|k: int| 0 <= k < r@.len() ==> #[trigger] r@[k]@ == listing(self@)[k],
    {
        let mut lines: Vec<String> = Vec::new();
        if self.is_empty() {
            lines.push(String::from_str("No tasks at the moment."));
            return lines;
        }
        let n = self.len();
        let mut i: usize = 0;
        while i < n
            invariant
                n == self@.len(),
                i <= n,
                lines@.len() == i,
                forall|k: int| 0 <= k < i ==> #[trigger] lines@[k]@ == task_line((k + 1) as nat, self@[k]),
            decreases n - i,
        {
            let t = self.get(i);
            lines.push(format_task_line(i + 1, &t.description, t.status));
            i = i + 1;
        }
        lines
    }
}

} // verus!
