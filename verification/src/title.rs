//! The chart's title: the process identifier where there is one, else the
//! command line.
use vstd::prelude::*;
use vstd::string::*;

verus! {

/// What was monitored: a running process, known by its identifier, or a
/// command that was started for the purpose.
#[derive(Debug)]
pub struct Opts {
    /// The identifier of the monitored process, if it was given.
    pub pid: Option<u32>,
    /// The command line that was started, word by word.
    pub command: Vec<String>,
}

impl Opts {
    /// The words of the command line, as sequences of characters.
    pub open spec fn tokens(self) -> Seq<Seq<char>> {
        Seq::new(self.command@.len(), |i: int| self.command@[i]@)
    }
}

/// The character of one decimal digit.
pub open spec fn digit(d: nat) -> char {
    if d == 0 {
        '0'
    } else if d == 1 {
        '1'
    } else if d == 2 {
        '2'
    } else if d == 3 {
        '3'
    } else if d == 4 {
        '4'
    } else if d == 5 {
        '5'
    } else if d == 6 {
        '6'
    } else if d == 7 {
        '7'
    } else if d == 8 {
        '8'
    } else {
        '9'
    }
}

/// `n` in decimal, without sign or leading zeros.
pub open spec fn decimal(n: nat) -> Seq<char>
    decreases n,
{
    if n < 10 {
        seq![digit(n)]
    } else {
        decimal(n / 10).push(digit(n % 10))
    }
}

/// The words joined by single spaces.
pub open spec fn join_spaced(tokens: Seq<Seq<char>>) -> Seq<char>
    decreases tokens.len(),
{
    if tokens.len() == 0 {
        Seq::empty()
    } else if tokens.len() == 1 {
        tokens[0]
    } else {
        join_spaced(tokens.drop_last()) + seq![' '] + tokens.last()
    }
}

/// The title: `PID` and the identifier where there is one, else the command
/// line.
pub open spec fn title_text(pid: Option<u32>, tokens: Seq<Seq<char>>) -> Seq<char> {
    match pid {
        Some(p) => seq!['P', 'I', 'D', ' '] + decimal(p as nat),
        None => join_spaced(tokens),
    }
}

/// The text of one decimal digit.
fn digit_text(d: u32) -> (text: &'static str)
    requires
        d < 10,
    ensures
        text@ == seq![digit(d as nat)],
{
    proof {
        reveal_strlit("0");
        reveal_strlit("1");
        reveal_strlit("2");
        reveal_strlit("3");
        reveal_strlit("4");
        reveal_strlit("5");
        reveal_strlit("6");
        reveal_strlit("7");
        reveal_strlit("8");
        reveal_strlit("9");
    }
    let text = match d {
        0 => "0",
        1 => "1",
        2 => "2",
        3 => "3",
        4 => "4",
        5 => "5",
        6 => "6",
        7 => "7",
        8 => "8",
        _ => "9",
    };
    assert(text@ =~= seq![digit(d as nat)]);
    text
}

/// Appends `n` in decimal to `s`.
pub fn push_decimal(s: &mut String, n: u32)
    ensures
        final(s)@ == old(s)@ + decimal(n as nat),
    decreases n,
{
    if n >= 10 {
        push_decimal(s, n / 10);
    }
    s.append(digit_text(n % 10));
    proof {
        assert(final(s)@ =~= old(s)@ + decimal(n as nat));
    }
}

/// The words of `command` joined by single spaces; the empty string where
/// there is no word.
pub fn join_command(command: &Vec<String>) -> (line: String)
    ensures
        line@ == join_spaced(Seq::new(command@.len(), |i: int| command@[i]@)),
{
    let ghost tokens = Seq::new(command@.len(), |i: int| command@[i]@);
    let mut line = String::new();
    let mut i: usize = 0;
    while i < command.len()
        invariant
            0 <= i <= command@.len(),
            tokens == Seq::new(command@.len(), |i: int| command@[i]@),
            line@ == join_spaced(tokens.take(i as int)),
        decreases command@.len() - i,
    {
        let ghost before = line@;
        if i > 0 {
            line.append(" ");
            proof {
                reveal_strlit(" ");
                assert(line@ =~= before + seq![' ']);
            }
        }
        line.append(command[i].as_str());
        proof {
            let next = tokens.take(i + 1);
            assert(next.drop_last() =~= tokens.take(i as int));
            assert(next.last() == command@[i as int]@);
            if i == 0 {
                assert(next[0] == command@[0]@);
                assert(line@ =~= command@[0]@);
            }
        }
        i += 1;
    }
    proof {
        assert(tokens.take(i as int) =~= tokens);
    }
    line
}

/// The title of the chart of what `opts` names. With an identifier it is
/// `PID`, a space and the identifier in decimal; without one it is the command
/// line, its words joined by single spaces.
pub fn resolve_title(opts: &Opts) -> (title: String)
    ensures
        title@ == title_text(opts.pid, opts.tokens()),
{
    match opts.pid {
        Some(p) => {
            let mut title = String::from_str("PID ");
            proof {
                reveal_strlit("PID ");
                assert(title@ =~= seq!['P', 'I', 'D', ' ']);
            }
            push_decimal(&mut title, p);
            title
        },
        None => join_command(&opts.command),
    }
}

} // verus!
