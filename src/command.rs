use vstd::prelude::*;
use vstd::string::StrSliceExecFns;

verus! {

/// A line of the command-line shell, read.
#[derive(Debug, PartialEq, Eq)]
pub enum Command {
    /// `h`: show the usage.
    Help,
    /// `a <text>`: add the text as an item.
    Add(String),
    /// `v`: show the list.
    View,
    /// `r <n>`: remove the item at the 1-based position `n`.
    Remove(usize),
    /// `r 0`: a position must be positive.
    NotPositive,
    /// `r <text>` where the text is no number.
    NotANumber(String),
    /// `c`: remove every item.
    Clean,
    /// `q`: leave.
    Quit,
    /// Anything else.
    Unknown,
}

/// What `str::trim` leaves of `s`.
pub uninterp spec fn trimmed_of(s: Seq<char>) -> Seq<char>;

/// Relies on `str::trim`: removes leading and trailing whitespace, which
/// depends on the characters alone; nothing is left of an empty string.
#[verifier::external_body]
fn trim(s: &str) -> (r: &str)
    ensures
        r@ == trimmed_of(s@),
        s@.len() == 0 ==> r@.len() == 0,
{
    s.trim()
}

pub open spec fn is_digit(c: char) -> bool {
    '0' <= c <= '9'
}

/// The number that the decimal digits `s` write.
pub open spec fn decimal_value(s: Seq<char>) -> nat
    decreases s.len(),
{
    if s.len() == 0 {
        0
    } else {
        decimal_value(s.drop_last()) * 10 + (s.last() as nat - '0' as nat) as nat
    }
}

/// The digits of `s`, without one leading `+`.
pub open spec fn unsigned_digits(s: Seq<char>) -> Seq<char> {
    if s.len() > 0 && s[0] == '+' {
        s.drop_first()
    } else {
        s
    }
}

/// The `usize` that `s` writes in decimal, with an optional leading `+`:
/// at least one digit, nothing else, and a value that fits.
pub open spec fn decimal_of(s: Seq<char>) -> Option<usize> {
    let d = unsigned_digits(s);
    if d.len() > 0 && (forall|i: int| 0 <= i < d.len() ==> is_digit(#[trigger] d[i]))
        && decimal_value(d) <= usize::MAX {
        Some(decimal_value(d) as usize)
    } else {
        None
    }
}

proof fn lemma_decimal_prefix_grows(d: Seq<char>, i: int)
    requires
        0 <= i <= d.len(),
        forall|k: int| 0 <= k < d.len() ==> is_digit(#[trigger] d[k]),
    ensures
        decimal_value(d.take(i)) <= decimal_value(d),
    decreases d.len() - i,
{
    if i < d.len() {
        lemma_decimal_prefix_grows(d, i + 1);
        assert(d.take(i + 1).drop_last() =~= d.take(i));
    } else {
        assert(d.take(i) =~= d);
    }
}

/// Reads `s` as a decimal `usize`, as `str::parse` does.
pub fn parse_decimal(s: &str) -> (r: Option<usize>)
    ensures
        r == decimal_of(s@),
{
    let len = s.unicode_len();
    let mut start: usize = 0;
    if len > 0 && s.get_char(0) == '+' {
        start = 1;
    }
    let ghost d = unsigned_digits(s@);
    assert(d =~= s@.subrange(start as int, len as int));
    if start == len {
        return None;
    }
    let mut acc: usize = 0;
    let mut i: usize = start;
    while i < len
        invariant
            start <= i <= len,
            len == s@.len(),
            d == unsigned_digits(s@),
            d == s@.subrange(start as int, len as int),
            forall|k: int| 0 <= k < i - start ==> is_digit(#[trigger] d[k]),
            acc == decimal_value(d.take(i - start)),
        decreases len - i,
    {
        let c = s.get_char(i);
        if c < '0' || c > '9' {
            assert(!is_digit(d[i - start]));
            return None;
        }
        let digit = (c as u32 - '0' as u32) as usize;
        assert(d.take(i + 1 - start).drop_last() =~= d.take(i - start));
        assert(d.take(i + 1 - start).last() == c);
        assert(decimal_value(d.take(i + 1 - start)) == acc * 10 + digit);
        if acc > (usize::MAX - digit) / 10 {
            proof {
                assert(acc * 10 + digit > usize::MAX) by (nonlinear_arith)
                    requires
                        acc > (usize::MAX - digit) / 10,
                        digit <= 9,
                ;
                if forall|k: int| 0 <= k < d.len() ==> is_digit(#[trigger] d[k]) {
                    lemma_decimal_prefix_grows(d, i + 1 - start);
                }
            }
            return None;
        }
        assert(acc * 10 + digit <= usize::MAX) by (nonlinear_arith)
            requires
                acc <= (usize::MAX - digit) / 10,
                digit <= 9,
        ;
        acc = acc * 10 + digit;
        i = i + 1;
    }
    assert(d.take(len - start) =~= d);
    Some(acc)
}

/// What follows the command letter and the character after it.
pub open spec fn rest_of(line: Seq<char>) -> Seq<char> {
    if line.len() >= 2 {
        line.subrange(2, line.len() as int)
    } else {
        Seq::empty()
    }
}

/// The argument of a command: its rest, trimmed.
pub open spec fn argument_of(line: Seq<char>) -> Seq<char> {
    trimmed_of(rest_of(line))
}

/// Reads one line of the shell: its first character picks the command, and
/// the text after the first two characters, trimmed, is its argument.
pub fn parse_command(line: &str) -> (r: Command)
    ensures
        line@.len() == 0 ==> r is Unknown,
        line@.len() > 0 ==> {
            let first = line@[0];
            let arg = argument_of(line@);
            &&& first == 'h' ==> r is Help
            &&& first == 'a' ==> (r matches Command::Add(t) && t@ == arg)
            &&& first == 'v' ==> r is View
            &&& first == 'r' ==> match decimal_of(arg) {
                Some(n) => if n > 0 {
                    r == Command::Remove(n)
                } else {
                    r is NotPositive
                },
                None => (r matches Command::NotANumber(t) && t@ == arg),
            }
            &&& first == 'c' ==> r is Clean
            &&& first == 'q' ==> r is Quit
            &&& !(first == 'h' || first == 'a' || first == 'v' || first == 'r' || first == 'c'
                || first == 'q') ==> r is Unknown
        },
{
    let len = line.unicode_len();
    if len == 0 {
        return Command::Unknown;
    }
    let first = line.get_char(0);
    let rest = if len >= 2 {
        line.substring_char(2, len)
    } else {
        ""
    };
    proof {
        reveal_strlit("");
        assert(rest@ == rest_of(line@));
    }
    let arg = trim(rest);
    if first == 'h' {
        Command::Help
    } else if first == 'a' {
        Command::Add(arg.to_string())
    } else if first == 'v' {
        Command::View
    } else if first == 'r' {
        match parse_decimal(arg) {
            Some(n) => if n > 0 {
                Command::Remove(n)
            } else {
                Command::NotPositive
            },
            None => Command::NotANumber(arg.to_string()),
        }
    } else if first == 'c' {
        Command::Clean
    } else if first == 'q' {
        Command::Quit
    } else {
        Command::Unknown
    }
}

} // verus!
