use vstd::prelude::*;

verus! {

/// What a menu choice asks for.
#[derive(Clone, Copy, Debug, PartialEq, Eq, Structural)]
pub enum Command {
    Add,
    List,
    MarkInProgress,
    Complete,
    Remove,
    Exit,
}

/// The command of menu choice `n`, or none where `n` names no choice.
pub open spec fn command_of(n: int) -> Option<Command> {
    if n == 1 {
        Some(Command::Add)
    } else if n == 2 {
        Some(Command::List)
    } else if n == 3 {
        Some(Command::MarkInProgress)
    } else if n == 4 {
        Some(Command::Complete)
    } else if n == 5 {
        Some(Command::Remove)
    } else if n == 6 {
        Some(Command::Exit)
    } else {
        None
    }
}

/// Whether `c` is an ASCII decimal digit.
pub open spec fn is_digit(c: char) -> bool {
    '0' <= c && c <= '9'
}

/// The value of the digit `c`.
pub open spec fn digit_value(c: char) -> nat {
    (c as u32 - '0' as u32) as nat
}

/// Whether `s` is a non-empty run of ASCII decimal digits.
pub open spec fn all_digits(s: Seq<char>) -> bool {
    s.len() > 0 && forall|i: int| 0 <= i < s.len() ==> is_digit(#[trigger] s[i])
}

/// The number that the digits `s` write in decimal.
pub open spec fn digits_value(s: Seq<char>) -> nat
    decreases s.len(),
{
    if s.len() == 0 {
        0
    } else {
        digits_value(s.drop_last()) * 10 + digit_value(s.last())
    }
}

/// The number that `s` writes in decimal, where `s` is digits alone and the
/// number fits in a `usize`.
pub open spec fn number_of(s: Seq<char>) -> Option<usize> {
    if all_digits(s) && digits_value(s) <= usize::MAX {
        Some(digits_value(s) as usize)
    } else {
        None
    }
}

/// The 0-based index of the task at 1-based display position `position`;
/// none for position 0, which names no task.
pub open spec fn index_of_position(position: usize) -> Option<usize> {
    if position == 0 {
        None
    } else {
        Some((position - 1) as usize)
    }
}

proof fn lemma_digits_value_grows(s: Seq<char>, i: int, j: int)
    requires
        0 <= i <= j <= s.len(),
        forall|k: int| 0 <= k < s.len() ==> is_digit(#[trigger] s[k]),
    ensures
        digits_value(s.subrange(0, i)) <= digits_value(s.subrange(0, j)),
    decreases j - i,
{
    if i < j {
        lemma_digits_value_grows(s, i, j - 1);
        assert(s.subrange(0, j).drop_last() =~= s.subrange(0, j - 1));
    }
}

/// The number that `text` writes in decimal: `Some` exactly where `text` is one
/// or more ASCII digits whose value fits in a `usize`.
pub fn parse_number(text: &str) -> (r: Option<usize>)
    ensures
        r == number_of(text@),
{
    let n = text.unicode_len();
    if n == 0 {
        return None;
    }
    let mut acc: usize = 0;
    let mut i: usize = 0;
    while i < n
        invariant
            n == text@.len(),
            i <= n,
            forall|k: int| 0 <= k < i ==> is_digit(#[trigger] text@[k]),
            acc as nat == digits_value(text@.subrange(0, i as int)),
        decreases n - i,
    {
        let c = text.get_char(i);
        if !('0' <= c && c <= '9') {
            assert(!all_digits(text@));
            return None;
        }
        let d = (c as u32 - '0' as u32) as usize;
        assert(text@.subrange(0, i + 1).drop_last() =~= text@.subrange(0, i as int));
        if acc > (usize::MAX - d) / 10 {
            proof {
                assert(acc * 10 + d > usize::MAX) by (nonlinear_arith)
                    requires
                        acc > (usize::MAX - d) / 10,
                        d < 10,
                ;
                if all_digits(text@) {
                    lemma_digits_value_grows(text@, i + 1, n as int);
                    assert(text@.subrange(0, n as int) =~= text@);
                }
            }
            return None;
        }
        assert(acc * 10 + d <= usize::MAX) by (nonlinear_arith)
            requires
                acc <= (usize::MAX - d) / 10,
                d < 10,
        ;
        acc = acc * 10 + d;
        i = i + 1;
    }
    assert(text@.subrange(0, n as int) =~= text@);
    Some(acc)
}

/// The command of menu choice `n`.
pub fn command_for(n: usize) -> (r: Option<Command>)
    ensures
        r == command_of(n as int),
{
    if n == 1 {
        Some(Command::Add)
    } else if n == 2 {
        Some(Command::List)
    } else if n == 3 {
        Some(Command::MarkInProgress)
    } else if n == 4 {
        Some(Command::Complete)
    } else if n == 5 {
        Some(Command::Remove)
    } else if n == 6 {
        Some(Command::Exit)
    } else {
        None
    }
}

/// The command that the menu input `text` asks for; none where it is not one of
/// the menu's numbers.
pub fn parse_choice(text: &str) -> (r: Option<Command>)
    ensures
        r == (match number_of(text@) {
            Some(n) => command_of(n as int),
            None => None,
        }),
{
    match parse_number(text) {
        Some(n) => command_for(n),
        None => None,
    }
}

/// The 0-based index of the task at 1-based display position `position`, without
/// wrapping below zero.
pub fn position_to_index(position: usize) -> (r: Option<usize>)
    ensures
        r == index_of_position(position),
{
    if position == 0 {
        None
    } else {
        Some(position - 1)
    }
}

/// The 0-based task index that the input `text` names as a 1-based display
/// position; none where the text is no number, or is 0.
pub fn parse_position(text: &str) -> (r: Option<usize>)
    ensures
        r == (match number_of(text@) {
            Some(p) => index_of_position(p),
            None => None,
        }),
{
    match parse_number(text) {
        Some(p) => position_to_index(p),
        None => None,
    }
}

} // verus!
