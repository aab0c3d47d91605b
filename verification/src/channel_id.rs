//! Identifiers of channel ends by task name, direction and index, and their
//! text form.

use vstd::prelude::*;

verus! {

/// Whether a channel end is an input or an output of its task.
#[derive(Copy, Clone, Debug, PartialEq, Eq, Structural)]
pub enum Direction {
    In,
    Out,
}

/// The character of the decimal digit `d` (0 to 9).
pub open spec fn digit_char(d: nat) -> char {
    (48 + d) as char
}

/// The decimal digits of `n`, most significant first, without leading zeros.
pub open spec fn decimal_chars(n: nat) -> Seq<char>
    decreases n,
{
    if n < 10 {
        seq![digit_char(n)]
    } else {
        decimal_chars(n / 10).push(digit_char(n % 10))
    }
}

/// The one-character text of the decimal digit `d`.
fn digit_text(d: usize) -> (res: &'static str)
    requires
        d < 10,
    ensures
        res@ == seq![digit_char(d as nat)],
{
    match d {
        1 => {
            proof {
                reveal_strlit("1");
            }
            "1"
        },
        2 => {
            proof {
                reveal_strlit("2");
            }
            "2"
        },
        3 => {
            proof {
                reveal_strlit("3");
            }
            "3"
        },
        4 => {
            proof {
                reveal_strlit("4");
            }
            "4"
        },
        5 => {
            proof {
                reveal_strlit("5");
            }
            "5"
        },
        6 => {
            proof {
                reveal_strlit("6");
            }
            "6"
        },
        7 => {
            proof {
                reveal_strlit("7");
            }
            "7"
        },
        8 => {
            proof {
                reveal_strlit("8");
            }
            "8"
        },
        9 => {
            proof {
                reveal_strlit("9");
            }
            "9"
        },
        _ => {
            proof {
                reveal_strlit("0");
            }
            "0"
        },
    }
}

/// Appends the decimal digits of `n` to `s`.
fn append_decimal(s: &mut String, n: usize)
    ensures
        final(s)@ == old(s)@ + decimal_chars(n as nat),
    decreases n,
{
    if n >= 10 {
        append_decimal(s, n / 10);
    }
    let digit = digit_text(n % 10);
    s.append(digit);
    proof {
        if n >= 10 {
            assert(decimal_chars(n as nat) == decimal_chars((n / 10) as nat).push(digit_char((n % 10) as nat)));
        }
        assert(s@ =~= old(s)@ + decimal_chars(n as nat));
    }
}

/// The name of a direction, as its `Debug` form writes it.
pub open spec fn direction_chars(dir: Direction) -> Seq<char> {
    match dir {
        Direction::In => seq!['I', 'n'],
        Direction::Out => seq!['O', 'u', 't'],
    }
}

/// The text `Id:(<task name> <direction> <index>)`.
pub open spec fn id_chars(task_name: Seq<char>, dir: Direction, id: nat) -> Seq<char> {
    seq!['I', 'd', ':', '('] + task_name + seq![' '] + direction_chars(dir) + seq![' '] + decimal_chars(id) + seq![
        ')',
    ]
}

fn direction_text(dir: Direction) -> (res: String)
    ensures
        res@ == direction_chars(dir),
{
    match dir {
        Direction::In => {
            let s = String::from_str("In");
            proof {
                reveal_strlit("In");
            }
            s
        },
        Direction::Out => {
            let s = String::from_str("Out");
            proof {
                reveal_strlit("Out");
            }
            s
        },
    }
}

/// The text `Id:(<task name> <direction> <index>)`.
pub fn id_text(task_name: &String, dir: Direction, id: usize) -> (res: String)
    ensures
        res@ == id_chars(task_name@, dir, id as nat),
{
    let mut res = String::from_str("Id:(");
    res.append(task_name.as_str());
    res.append(" ");
    let dir_text = direction_text(dir);
    res.append(dir_text.as_str());
    res.append(" ");
    append_decimal(&mut res, id);
    res.append(")");
    proof {
        reveal_strlit("Id:(");
        reveal_strlit(" ");
        reveal_strlit(")");
        assert(res@ =~= id_chars(task_name@, dir, id as nat));
    }
    res
}

/// A channel end: the task it belongs to, its direction and its index.
#[derive(Clone, Debug)]
pub struct Id {
    task_name: String,
    dir: Direction,
    id: usize,
}

impl Id {
    pub closed spec fn spec_task_name(&self) -> Seq<char> {
        self.task_name@
    }

    pub closed spec fn spec_dir(&self) -> Direction {
        self.dir
    }

    pub closed spec fn spec_id(&self) -> usize {
        self.id
    }

    /// The text form of the id: `Id:(<task name> <direction> <index>)`.
    pub fn to_text(&self) -> (res: String)
        ensures
            res@ == id_chars(self.spec_task_name(), self.spec_dir(), self.spec_id() as nat),
    {
        id_text(&self.task_name, self.dir, self.id)
    }
}

/// The id of the channel end with index `id` and direction `dir` of the task
/// named `name`.
pub fn new(name: String, dir: Direction, id: usize) -> (res: Id)
    ensures
        res.spec_task_name() == name@,
        res.spec_dir() == dir,
        res.spec_id() == id,
{
    Id { task_name: name, dir, id }
}

} // verus!
