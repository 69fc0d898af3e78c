//! What a value hands to the template engine: pieces of text to emit and the
//! contexts in which a section body is rendered.
use vstd::prelude::*;
use vstd::string::*;

verus! {

/// One piece of output: its text and whether the engine must escape it.
pub struct Piece {
    pub text: String,
    pub escape: bool,
}

/// The model of a piece: its characters and its escape flag.
pub open spec fn piece_model(p: Piece) -> (Seq<char>, bool) {
    (p.text@, p.escape)
}

/// The model of a sequence of pieces.
pub open spec fn pieces_model(ps: Seq<Piece>) -> Seq<(Seq<char>, bool)> {
    ps.map_values(|p: Piece| piece_model(p))
}

/// The context in which one iteration of a section body is rendered.
#[derive(Clone, Copy, Debug, PartialEq, Eq)]
pub enum SectionContext {
    /// The enclosing context, unchanged.
    Unchanged,
    /// The value itself, pushed as the new context.
    Itself,
    /// The element at this index of a list, pushed as the new context.
    Element(usize),
}

/// The character of a decimal digit.
pub open spec fn digit_char(d: nat) -> char {
    seq!['0', '1', '2', '3', '4', '5', '6', '7', '8', '9'][d as int]
}

/// The decimal text of a natural number, without leading zeros.
pub open spec fn decimal(n: nat) -> Seq<char>
    decreases n,
{
    if n < 10 {
        seq![digit_char(n)]
    } else {
        decimal(n / 10).push(digit_char(n % 10))
    }
}

/// The decimal text of an integer, with a leading minus sign when negative.
pub open spec fn signed_decimal(n: int) -> Seq<char> {
    if n < 0 {
        seq!['-'] + decimal((-n) as nat)
    } else {
        decimal(n as nat)
    }
}

/// Exactly two decimal digits, zero-padded, of a number below one hundred.
pub open spec fn two_digits(n: nat) -> Seq<char> {
    seq![digit_char(n / 10), digit_char(n % 10)]
}

fn digit_text(d: u32) -> (r: &'static str)
    requires
        d < 10,
    ensures
        r@ == seq![digit_char(d as nat)],
{
    let r = match d {
        0 => "0",
        1 => "1",
        2 => "2",
        3 => "3",
        4 => "4",
        5 => "5",
        6 => "6",
        7 => "7",
        8 => "8",
        _ => "9",
    };
    proof {
        reveal_strlit("0");
        reveal_strlit("1");
        reveal_strlit("2");
        reveal_strlit("3");
        reveal_strlit("4");
        reveal_strlit("5");
        reveal_strlit("6");
        reveal_strlit("7");
        reveal_strlit("8");
        reveal_strlit("9");
        assert(r@ =~= seq![digit_char(d as nat)]);
    }
    r
}

/// The decimal text of an unsigned number.
pub fn decimal_text(n: u32) -> (r: String)
    ensures
        r@ == decimal(n as nat),
    decreases n,
{
    if n < 10 {
        String::from_str(digit_text(n))
    } else {
        let mut s = decimal_text(n / 10);
        s.append(digit_text(n % 10));
        s
    }
}

/// The decimal text of a signed number.
pub fn signed_decimal_text(n: i32) -> (r: String)
    ensures
        r@ == signed_decimal(n as int),
{
    if n < 0 {
        let magnitude = (-(n as i64)) as u32;
        let digits = decimal_text(magnitude);
        let minus = "-";
        proof {
            reveal_strlit("-");
        }
        let r = String::from_str(minus).concat(digits.as_str());
        r
    } else {
        decimal_text(n as u32)
    }
}

/// Two zero-padded decimal digits of a number below one hundred.
pub fn two_digit_text(n: u32) -> (r: String)
    requires
        n < 100,
    ensures
        r@ == two_digits(n as nat),
{
    let mut s = String::from_str(digit_text(n / 10));
    s.append(digit_text(n % 10));
    proof {
        assert(s@ =~= two_digits(n as nat));
    }
    s
}

} // verus!
