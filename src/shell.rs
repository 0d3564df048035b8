//! The decisions of a line-editing command shell: how typed bytes edit the
//! current line, how a line splits into arguments, and what a command does.
use vstd::prelude::*;

verus! {

/// The most arguments a command line may hold.
pub const MAX_ARGS: usize = 64;

/// The most bytes a command line may hold.
pub const LINE_CAPACITY: usize = 512;

/// The byte that separates arguments.
pub const SPACE: u8 = 0x20;

/// The views of a sequence of byte vectors.
pub open spec fn views(v: Seq<Vec<u8>>) -> Seq<Seq<u8>> {
    v.map_values(|w: Vec<u8>| w@)
}

/// Splitting `s` from the left: the words completed so far and the word
/// being read at the end of `s`.
pub open spec fn scan(s: Seq<u8>) -> (Seq<Seq<u8>>, Seq<u8>)
    decreases s.len(),
{
    if s.len() == 0 {
        (Seq::empty(), Seq::empty())
    } else {
        let (done, cur) = scan(s.drop_last());
        if s.last() == SPACE {
            if cur.len() > 0 {
                (done.push(cur), Seq::empty())
            } else {
                (done, cur)
            }
        } else {
            (done, cur.push(s.last()))
        }
    }
}

/// The non-empty runs of non-space bytes of `s`, in order.
pub open spec fn words(s: Seq<u8>) -> Seq<Seq<u8>> {
    let (done, cur) = scan(s);
    if cur.len() > 0 {
        done.push(cur)
    } else {
        done
    }
}

/// Why a line is not a command.
#[derive(Clone, Copy, Debug, PartialEq, Eq, Structural)]
pub enum ParseError {
    /// The line holds no argument.
    Empty,
    /// The line holds more arguments than there is room for.
    TooManyArgs,
}

/// A command: its arguments, the first of which names it.
pub struct Command {
    args: Vec<Vec<u8>>,
}

impl View for Command {
    type V = Seq<Seq<u8>>;

    closed spec fn view(&self) -> Seq<Seq<u8>> {
        views(self.args@)
    }
}

impl Command {
    #[verifier::type_invariant]
    spec fn inv(self) -> bool {
        self.args.len() >= 1
    }

    /// Splits `s` at spaces into at most `capacity` arguments.
    pub fn parse(s: &[u8], capacity: usize) -> (r: Result<Command, ParseError>)
        ensures
            words(s@).len() == 0 ==> r == Err::<Command, ParseError>(ParseError::Empty),
            words(s@).len() > capacity ==> r == Err::<Command, ParseError>(
                ParseError::TooManyArgs,
            ),
            0 < words(s@).len() <= capacity ==> (r matches Ok(c) && c@ == words(s@)),
    {
        let mut args: Vec<Vec<u8>> = Vec::new();
        let mut cur: Vec<u8> = Vec::new();
        let mut i: usize = 0;
        while i < s.len()
            invariant
                i <= s@.len(),
                views(args@) == scan(s@.take(i as int)).0,
                cur@ == scan(s@.take(i as int)).1,
            decreases s@.len() - i,
        {
            let c: u8 = s[i];
            proof {
                assert(s@.take(i + 1).drop_last() =~= s@.take(i as int));
            }
            if c == SPACE {
                if cur.len() > 0 {
                    args.push(cur);
                    cur = Vec::new();
                    proof {
                        assert(views(args@) =~= scan(s@.take(i + 1)).0);
                    }
                }
            } else {
                cur.push(c);
            }
            i = i + 1;
        }
        proof {
            assert(s@.take(s@.len() as int) =~= s@);
        }
        if cur.len() > 0 {
            args.push(cur);
            proof {
                assert(views(args@) =~= words(s@));
            }
        }
        if args.len() > capacity {
            Err(ParseError::TooManyArgs)
        } else if args.len() == 0 {
            Err(ParseError::Empty)
        } else {
            Ok(Command { args })
        }
    }

    /// This command's arguments.
    pub fn args(&self) -> (r: &Vec<Vec<u8>>)
        ensures
            views(r@) == self@,
            r@.len() >= 1,
    {
        proof {
            use_type_invariant(self);
        }
        &self.args
    }

    /// This command's name: its first argument.
    pub fn path(&self) -> (r: &Vec<u8>)
        ensures
            self@.len() >= 1,
            r@ == self@[0],
    {
        proof {
            use_type_invariant(self);
        }
        &self.args[0]
    }

    /// What this command does.
    pub fn run(&self) -> (r: Outcome)
        ensures
            match r {
                Outcome::Echo(t) => is_echo(self@) && t@ == echo_text(self@.drop_first()),
                Outcome::Unknown => !is_echo(self@),
            },
    {
        proof {
            use_type_invariant(self);
        }
        let name: &Vec<u8> = &self.args[0];
        let echo: bool = name.len() == 4 && name[0] == 0x65u8 && name[1] == 0x63u8 && name[2]
            == 0x68u8 && name[3] == 0x6fu8;
        proof {
            assert(echo == (self@[0] =~= echo_name()));
        }
        if !echo {
            return Outcome::Unknown;
        }
        let mut out: Vec<u8> = Vec::new();
        let mut i: usize = 1;
        while i < self.args.len()
            invariant
                1 <= i <= self.args@.len(),
                self@ == views(self.args@),
                out@ == echo_text(self@.drop_first().take(i - 1)),
            decreases self.args@.len() - i,
        {
            let arg: &Vec<u8> = &self.args[i];
            let mut j: usize = 0;
            let ghost start = out@;
            while j < arg.len()
                invariant
                    j <= arg@.len(),
                    out@ == start + arg@.take(j as int),
                decreases arg@.len() - j,
            {
                out.push(arg[j]);
                proof {
                    assert(arg@.take(j + 1) =~= arg@.take(j as int).push(arg@[j as int]));
                }
                j = j + 1;
            }
            out.push(SPACE);
            proof {
                let rest = self@.drop_first();
                assert(arg@.take(arg@.len() as int) =~= arg@);
                assert(rest.take(i as int).drop_last() =~= rest.take(i - 1));
                assert(out@ =~= echo_text(rest.take(i as int)));
            }
            i = i + 1;
        }
        proof {
            assert(self@.drop_first().take(self@.len() - 1) =~= self@.drop_first());
        }
        Outcome::Echo(out)
    }
}

/// The name of the echo command.
pub open spec fn echo_name() -> Seq<u8> {
    seq![0x65u8, 0x63u8, 0x68u8, 0x6fu8]
}

/// Whether `args` is a call of the echo command.
pub open spec fn is_echo(args: Seq<Seq<u8>>) -> bool {
    args.len() >= 1 && args[0] == echo_name()
}

/// Each of `args` followed by a space.
pub open spec fn echo_text(args: Seq<Seq<u8>>) -> Seq<u8>
    decreases args.len(),
{
    if args.len() == 0 {
        Seq::empty()
    } else {
        echo_text(args.drop_last()) + args.last() + seq![SPACE]
    }
}

/// What a command does.
pub enum Outcome {
    /// Print this text and end the line.
    Echo(Vec<u8>),
    /// The command is not known.
    Unknown,
}

/// A byte that the shell ignores.
pub const NUL: u8 = 0x00;

/// The bytes that erase the last byte of the line.
pub const BACKSPACE: u8 = 0x08;

/// The bytes that erase the last byte of the line.
pub const DELETE: u8 = 0x7f;

/// A byte that ends the line.
pub const NEWLINE: u8 = 0x0a;

/// A byte that ends the line.
pub const RETURN: u8 = 0x0d;

/// What a typed byte did to the line being edited.
pub enum Step {
    /// The byte was ignored; the line is unchanged.
    Ignored,
    /// The byte was added to the line.
    Kept,
    /// The last byte of the line was erased.
    Erased,
    /// The line ended; this is its text, and a new line begins.
    Line(Vec<u8>),
    /// The line was full; it is dropped and a new line begins.
    Overflow,
}

/// The line being typed at the shell.
pub struct LineEditor {
    input: Vec<u8>,
}

impl View for LineEditor {
    type V = Seq<u8>;

    closed spec fn view(&self) -> Seq<u8> {
        self.input@
    }
}

impl LineEditor {
    /// An empty line.
    pub fn new() -> (r: LineEditor)
        ensures
            r@ == Seq::<u8>::empty(),
    {
        LineEditor { input: Vec::new() }
    }

    /// The bytes of the line so far.
    pub fn line(&self) -> (r: &Vec<u8>)
        ensures
            r@ == self@,
    {
        &self.input
    }

    /// Takes one typed byte.
    pub fn feed(&mut self, byte: u8) -> (r: Step)
        ensures
            byte == NUL ==> r is Ignored && final(self)@ == old(self)@,
            (byte == BACKSPACE || byte == DELETE) && old(self)@.len() == 0 ==> r is Ignored
                && final(self)@ == old(self)@,
            (byte == BACKSPACE || byte == DELETE) && old(self)@.len() > 0 ==> r is Erased
                && final(self)@ == old(self)@.drop_last(),
            byte == NEWLINE || byte == RETURN ==> (r matches Step::Line(l) && l@ == old(self)@)
                && final(self)@ == Seq::<u8>::empty(),
            byte != NUL && byte != BACKSPACE && byte != DELETE && byte != NEWLINE && byte
                != RETURN && old(self)@.len() < LINE_CAPACITY ==> r is Kept && final(self)@
                == old(self)@.push(byte),
            byte != NUL && byte != BACKSPACE && byte != DELETE && byte != NEWLINE && byte
                != RETURN && old(self)@.len() >= LINE_CAPACITY ==> r is Overflow
                && final(self)@ == Seq::<u8>::empty(),
            old(self)@.len() <= LINE_CAPACITY ==> final(self)@.len() <= LINE_CAPACITY,
    {
        if byte == NUL {
            Step::Ignored
        } else if byte == BACKSPACE || byte == DELETE {
            if self.input.len() != 0 {
                self.input.pop();
                Step::Erased
            } else {
                Step::Ignored
            }
        } else if byte == NEWLINE || byte == RETURN {
            let line: Vec<u8> = self.input.clone();
            self.input = Vec::new();
            Step::Line(line)
        } else if self.input.len() < LINE_CAPACITY {
            self.input.push(byte);
            Step::Kept
        } else {
            self.input = Vec::new();
            Step::Overflow
        }
    }
}

} // verus!
