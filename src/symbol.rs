//! The closed set of symbol names and the characters they stand for.
use vstd::prelude::*;

verus! {

/// A symbol that can be copied, by its name.
#[derive(Clone, Copy, Debug, PartialEq, Eq, Structural)]
pub enum CharVal {
    // Dashes
    EnDash,
    EmDash,
    // Operators
    Minus,
    Times,
    Div,
    // Equality
    Sim,
    Approx,
    Gte,
    Lte,
    // Set theory
    In,
    Ni,
    Union,
    Intersection,
    Subset,
    SubsetEq,
    Supset,
    SupsetEq,
    // Long arrows
    RightArrow,
    MapsTo,
    LeftArrow,
    MapsFrom,
    // Other
    Prime,
    PlusMinus,
    Degree,
    TradeMark,
}

/// The Unicode scalar value that each symbol stands for.
pub open spec fn codepoint_of(v: CharVal) -> u32 {
    match v {
        CharVal::EnDash => 0x2013,
        CharVal::EmDash => 0x2014,
        CharVal::Minus => 0x2212,
        CharVal::Times => 0x00D7,
        CharVal::Div => 0x00F7,
        CharVal::Sim => 0x223C,
        CharVal::Approx => 0x2248,
        CharVal::Gte => 0x2265,
        CharVal::Lte => 0x2264,
        CharVal::In => 0x2208,
        CharVal::Ni => 0x220B,
        CharVal::Union => 0x222A,
        CharVal::Intersection => 0x2229,
        CharVal::Subset => 0x2282,
        CharVal::SubsetEq => 0x2286,
        CharVal::Supset => 0x2283,
        CharVal::SupsetEq => 0x2287,
        CharVal::RightArrow => 0x27F6,
        CharVal::MapsTo => 0x27FC,
        CharVal::LeftArrow => 0x27F5,
        CharVal::MapsFrom => 0x27FB,
        CharVal::Prime => 0x2032,
        CharVal::PlusMinus => 0x00B1,
        CharVal::Degree => 0x00B0,
        CharVal::TradeMark => 0x2122,
    }
}

/// Whether `n` is a Unicode scalar value: at most `0x10FFFF` and no surrogate.
pub open spec fn is_scalar_value(n: u32) -> bool {
    n <= 0x10FFFF && !(0xD800 <= n && n <= 0xDFFF)
}

/// Every entry of the table decodes to a character.
pub proof fn lemma_table_entries_are_scalar_values(v: CharVal)
    ensures
        is_scalar_value(codepoint_of(v)),
{
}

impl CharVal {
    /// The scalar value of this symbol's character.
    pub fn codepoint(&self) -> (r: u32)
        ensures
            r == codepoint_of(*self),
    {
        match self {
            CharVal::EnDash => 0x2013,
            CharVal::EmDash => 0x2014,
            CharVal::Minus => 0x2212,
            CharVal::Times => 0x00D7,
            CharVal::Div => 0x00F7,
            CharVal::Sim => 0x223C,
            CharVal::Approx => 0x2248,
            CharVal::Gte => 0x2265,
            CharVal::Lte => 0x2264,
            CharVal::In => 0x2208,
            CharVal::Ni => 0x220B,
            CharVal::Union => 0x222A,
            CharVal::Intersection => 0x2229,
            CharVal::Subset => 0x2282,
            CharVal::SubsetEq => 0x2286,
            CharVal::Supset => 0x2283,
            CharVal::SupsetEq => 0x2287,
            CharVal::RightArrow => 0x27F6,
            CharVal::MapsTo => 0x27FC,
            CharVal::LeftArrow => 0x27F5,
            CharVal::MapsFrom => 0x27FB,
            CharVal::Prime => 0x2032,
            CharVal::PlusMinus => 0x00B1,
            CharVal::Degree => 0x00B0,
            CharVal::TradeMark => 0x2122,
        }
    }
}

/// Relies on `char::from_u32`: the character whose scalar value is `i`, and
/// `None` exactly when `i` is a surrogate or above `char::MAX`.
#[verifier::external_body]
fn decode(i: u32) -> (r: Option<char>)
    ensures
        r is Some <==> is_scalar_value(i),
        r matches Some(c) ==> c as u32 == i,
{
    char::from_u32(i)
}

/// Relies on `String::from(char)`: a string that holds that one character.
#[verifier::external_body]
fn char_string(c: char) -> (r: String)
    ensures
        r@ == seq![c],
{
    String::from(c)
}

/// The character that a symbol stands for.
pub struct Char(char);

impl View for Char {
    type V = char;

    closed spec fn view(&self) -> char {
        self.0
    }
}

impl From<CharVal> for Char {
    fn from(x: CharVal) -> (r: Char)
        ensures
            r@ == codepoint_of(x) as char,
            r@ as u32 == codepoint_of(x),
    {
        proof {
            lemma_table_entries_are_scalar_values(x);
        }
        let c = decode(x.codepoint()).unwrap();
        proof {
            vstd::utf8::char_u32_cast(c, codepoint_of(x));
        }
        Char(c)
    }
}

impl vstd::std_specs::convert::FromSpecImpl<CharVal> for Char {
    open spec fn obeys_from_spec() -> bool {
        true
    }

    closed spec fn from_spec(v: CharVal) -> Char {
        Char(codepoint_of(v) as char)
    }
}

impl Char {
    /// The character as a one-character string.
    pub fn as_str(&self) -> (r: String)
        ensures
            r@ == seq![self@],
    {
        char_string(self.0)
    }

    /// The line printed for the character: the character, then a newline.
    pub fn line(&self) -> (r: String)
        ensures
            r@ == seq![self@, '\n'],
    {
        let mut s = self.as_str();
        s.append("\n");
        proof {
            reveal_strlit("\n");
        }
        s
    }
}

/// The character that `symbol` stands for, as a one-character string whose
/// scalar value is the symbol's table entry.
pub fn resolve(symbol: CharVal) -> (r: String)
    ensures
        r@ == seq![codepoint_of(symbol) as char],
        r@.len() == 1,
        r@[0] as u32 == codepoint_of(symbol),
{
    let c = Char::from(symbol);
    proof {
        vstd::utf8::char_u32_cast(c@, codepoint_of(symbol));
    }
    c.as_str()
}

} // verus!
