use rand::Rng;
use vstd::prelude::*;

verus! {

/// What the game answers to one line of input.
#[derive(Clone, Copy, Debug, PartialEq, Eq, Structural)]
pub enum Verdict {
    /// The line is not a number; the player is asked again.
    Invalid,
    TooSmall,
    TooBig,
    /// The guess is the secret; the game ends.
    Win,
}

/// The smallest secret.
pub const LOWEST: u32 = 1;

/// The largest secret.
pub const HIGHEST: u32 = 100;

/// Whether `c` is an ASCII decimal digit.
pub open spec fn is_digit(c: char) -> bool {
    '0' <= c && c <= '9'
}

/// The value of a string of decimal digits.
pub open spec fn digits_value(s: Seq<char>) -> nat
    decreases s.len(),
{
    if s.len() == 0 {
        0
    } else {
        digits_value(s.drop_last()) * 10 + (s.last() as nat - '0' as nat) as nat
    }
}

/// The decimal number that `s` spells, when it is one that fits in `u32`:
/// an optional `+`, then one or more ASCII digits, nothing else.
pub open spec fn decimal_u32(s: Seq<char>) -> Option<u32> {
    let d = if s.len() > 0 && s[0] == '+' {
        s.drop_first()
    } else {
        s
    };
    if d.len() > 0 && (forall|i: int| 0 <= i < d.len() ==> is_digit(#[trigger] d[i]))
        && digits_value(d) <= u32::MAX {
        Some(digits_value(d) as u32)
    } else {
        None
    }
}

/// A line with the whitespace at both ends taken off.
pub uninterp spec fn trimmed(s: Seq<char>) -> Seq<char>;

/// Relies on str::trim: whitespace removed from both ends, as a function of
/// the text alone.
#[verifier::external_body]
fn trim_line(s: &str) -> (r: &str)
    ensures
        r@ == trimmed(s@),
{
    s.trim()
}

/// Relies on `u32`'s `FromStr`: it accepts an optional `+` followed by
/// decimal digits whose value fits in `u32`, and nothing else.
#[verifier::external_body]
fn parse_u32(s: &str) -> (r: Option<u32>)
    ensures
        r == decimal_u32(s@),
{
    s.parse::<u32>().ok()
}

/// Relies on rand's thread_rng and Rng::gen_range: a value drawn from the
/// half-open range `low..high`, which must not be empty.
#[verifier::external_body]
fn random_in(low: u32, high: u32) -> (r: u32)
    requires
        low < high,
    ensures
        low <= r < high,
{
    rand::thread_rng().gen_range(low..high)
}

/// How a guess compares with the secret.
pub open spec fn judge_spec(guess: u32, secret: u32) -> Verdict {
    if guess < secret {
        Verdict::TooSmall
    } else if guess > secret {
        Verdict::TooBig
    } else {
        Verdict::Win
    }
}

/// The verdict on a line, once it has been trimmed.
pub open spec fn verdict_of(t: Seq<char>, secret: u32) -> Verdict {
    match decimal_u32(t) {
        Some(g) => judge_spec(g, secret),
        None => Verdict::Invalid,
    }
}

pub fn judge(guess: u32, secret: u32) -> (r: Verdict)
    ensures
        r == judge_spec(guess, secret),
{
    if guess < secret {
        Verdict::TooSmall
    } else if guess > secret {
        Verdict::TooBig
    } else {
        Verdict::Win
    }
}

/// The verdict on a line already trimmed of surrounding whitespace.
pub fn judge_trimmed(t: &str, secret: u32) -> (r: Verdict)
    ensures
        r == verdict_of(t@, secret),
{
    match parse_u32(t) {
        Some(g) => judge(g, secret),
        None => Verdict::Invalid,
    }
}

/// One round of the game: the secret and what the game says of a guess.
pub struct Game {
    secret: u32,
}

impl Game {
    pub closed spec fn secret_spec(&self) -> u32 {
        self.secret
    }

    /// A game whose secret is drawn at random from `LOWEST..=HIGHEST`.
    pub fn new() -> (g: Game)
        ensures
            LOWEST <= g.secret_spec() <= HIGHEST,
    {
        Game { secret: random_in(LOWEST, HIGHEST + 1) }
    }

    /// A game with a chosen secret.
    pub fn with_secret(secret: u32) -> (g: Game)
        ensures
            g.secret_spec() == secret,
    {
        Game { secret }
    }

    pub fn secret(&self) -> (r: u32)
        ensures
            r == self.secret_spec(),
    {
        self.secret
    }

    /// The verdict on one line of input: the line is trimmed, read as a
    /// number, and compared with the secret.
    pub fn guess(&self, line: &str) -> (r: Verdict)
        ensures
            r == verdict_of(trimmed(line@), self.secret_spec()),
    {
        judge_trimmed(trim_line(line), self.secret)
    }
}

impl Verdict {
    /// The words the game says for this verdict; an invalid line gets none.
    pub open spec fn message_spec(&self) -> Seq<char> {
        match self {
            Verdict::Invalid => Seq::empty(),
            Verdict::TooSmall => "Too small"@,
            Verdict::TooBig => "Too big"@,
            Verdict::Win => "You win"@,
        }
    }

    pub fn message(&self) -> (r: String)
        ensures
            r@ == self.message_spec(),
    {
        match self {
            Verdict::Invalid => String::new(),
            Verdict::TooSmall => "Too small".to_owned(),
            Verdict::TooBig => "Too big".to_owned(),
            Verdict::Win => "You win".to_owned(),
        }
    }
}

} // verus!
