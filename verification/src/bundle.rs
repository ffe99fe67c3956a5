//! The bundle manifest: what a module is made of and how it presents itself.

use vstd::prelude::*;

use crate::command::FloatBits;

verus! {

/// A single-precision number of the manifest, held by what this library
/// reads of it. Whoever builds one gives the three fields from one number.
#[derive(Debug)]
pub struct FloatValue {
    /// The number's bit pattern.
    pub bits: FloatBits,
    /// The number written out in decimal.
    pub text: String,
    /// The number cut off toward zero and held to the range of `i32`; zero
    /// where it is not a number.
    pub truncated: i32,
}

/// One cell of the GUI's parameter grid.
#[derive(Debug)]
pub enum Value {
    /// An integer.
    VInt(i32),
    /// A number with a fraction.
    VFloat(FloatValue),
    /// A text.
    VString(String),
    /// Two small numbers.
    VPair((u8, u8)),
    /// A list of small numbers.
    VVU8(Vec<u8>),
}

impl Clone for FloatValue {
    /// A copy that is equal in every field.
    fn clone(&self) -> (copy: Self)
        ensures
            copy == *self,
    {
        FloatValue { bits: self.bits, text: self.text.clone(), truncated: self.truncated }
    }
}

impl Clone for Value {
    /// A copy that reads as the value does, as text and as a number.
    fn clone(&self) -> (copy: Self)
        ensures
            copy.text() == self.text(),
            number_of(copy) == number_of(*self),
    {
        match self {
            Value::VInt(i) => Value::VInt(*i),
            Value::VFloat(f) => Value::VFloat(f.clone()),
            Value::VString(s) => Value::VString(s.clone()),
            Value::VPair(pair) => Value::VPair((pair.0, pair.1)),
            Value::VVU8(v) => Value::VVU8(v.clone()),
        }
    }
}

/// The decimal digit of value `d`.
pub open spec fn digit(d: int) -> char {
    if d == 0 {
        '0'
    } else if d == 1 {
        '1'
    } else if d == 2 {
        '2'
    } else if d == 3 {
        '3'
    } else if d == 4 {
        '4'
    } else if d == 5 {
        '5'
    } else if d == 6 {
        '6'
    } else if d == 7 {
        '7'
    } else if d == 8 {
        '8'
    } else {
        '9'
    }
}

/// A natural number in decimal, without leading zeros.
pub open spec fn decimal_nat(n: nat) -> Seq<char>
    decreases n,
{
    if n < 10 {
        seq![digit(n as int)]
    } else {
        decimal_nat(n / 10).push(digit((n % 10) as int))
    }
}

/// An integer in decimal: a minus sign where it is negative, then its
/// magnitude.
pub open spec fn decimal(i: int) -> Seq<char> {
    if i < 0 {
        seq!['-'] + decimal_nat((-i) as nat)
    } else {
        decimal_nat(i as nat)
    }
}

/// The numbers of `bytes` in decimal, with a comma between neighbours.
pub open spec fn list_text(bytes: Seq<u8>) -> Seq<char>
    decreases bytes.len(),
{
    if bytes.len() == 0 {
        Seq::empty()
    } else if bytes.len() == 1 {
        decimal(bytes[0] as int)
    } else {
        list_text(bytes.drop_last()) + seq![','] + decimal(bytes.last() as int)
    }
}

/// The one-character string of the digit `d`.
fn digit_str(d: u32) -> (text: &'static str)
    requires
        d < 10,
    ensures
        text@ == seq![digit(d as int)],
{
    proof {
        reveal_strlit("0");
        reveal_strlit("1");
        reveal_strlit("2");
        reveal_strlit("3");
        reveal_strlit("4");
        reveal_strlit("5");
        reveal_strlit("6");
        reveal_strlit("7");
        reveal_strlit("8");
        reveal_strlit("9");
    }
    let text = if d == 0 {
        "0"
    } else if d == 1 {
        "1"
    } else if d == 2 {
        "2"
    } else if d == 3 {
        "3"
    } else if d == 4 {
        "4"
    } else if d == 5 {
        "5"
    } else if d == 6 {
        "6"
    } else if d == 7 {
        "7"
    } else if d == 8 {
        "8"
    } else {
        "9"
    };
    assert(text@ =~= seq![digit(d as int)]);
    text
}

/// Writes `n` in decimal behind `text`.
fn append_decimal_nat(text: &mut String, n: u32)
    ensures
        final(text)@ == old(text)@ + decimal_nat(n as nat),
    decreases n,
{
    if n >= 10 {
        append_decimal_nat(text, n / 10);
    }
    text.append(digit_str(n % 10));
    assert(text@ =~= old(text)@ + decimal_nat(n as nat));
}

/// Writes `i` in decimal behind `text`.
fn append_decimal(text: &mut String, i: i32)
    ensures
        final(text)@ == old(text)@ + decimal(i as int),
{
    if i < 0 {
        proof {
            reveal_strlit("-");
        }
        text.append("-");
        let magnitude: u32 = (-(i as i64)) as u32;
        append_decimal_nat(text, magnitude);
        assert(text@ =~= old(text)@ + decimal(i as int));
    } else {
        append_decimal_nat(text, i as u32);
    }
}

impl Value {
    /// The value written out: a number in decimal, a string as it is, a pair
    /// and a list of bytes in square brackets with commas between the
    /// numbers.
    pub open spec fn text(self) -> Seq<char> {
        match self {
            Value::VInt(i) => decimal(i as int),
            Value::VFloat(f) => f.text@,
            Value::VString(s) => s@,
            Value::VPair(pair) => seq!['['] + decimal(pair.0 as int) + seq![','] + decimal(
                pair.1 as int,
            ) + seq![']'],
            Value::VVU8(bytes) => seq!['['] + list_text(bytes@) + seq![']'],
        }
    }

    /// The value written out.
    pub fn to_string(&self) -> (text: String)
        ensures
            text@ == self.text(),
    {
        proof {
            reveal_strlit("[");
            reveal_strlit(",");
            reveal_strlit("]");
        }
        match self {
            Value::VInt(i) => {
                let mut text = String::new();
                append_decimal(&mut text, *i);
                assert(text@ =~= decimal(*i as int));
                text
            },
            Value::VFloat(f) => f.text.clone(),
            Value::VString(s) => s.clone(),
            Value::VPair(pair) => {
                let mut text = String::from_str("[");
                append_decimal(&mut text, pair.0 as i32);
                text.append(",");
                append_decimal(&mut text, pair.1 as i32);
                text.append("]");
                assert(text@ =~= self.text());
                text
            },
            Value::VVU8(bytes) => {
                let mut text = String::from_str("[");
                let mut i: usize = 0;
                while i < bytes.len()
                    invariant
                        i <= bytes.len(),
                        text@ == seq!['['] + list_text(bytes@.take(i as int)),
                        ","@ == seq![','],
                    decreases bytes.len() - i,
                {
                    if i > 0 {
                        text.append(",");
                    }
                    append_decimal(&mut text, bytes[i] as i32);
                    i += 1;
                    assert(bytes@.take(i as int).drop_last() =~= bytes@.take(i as int - 1));
                    assert(text@ =~= seq!['['] + list_text(bytes@.take(i as int)));
                }
                assert(bytes@.take(i as int) =~= bytes@);
                text.append("]");
                text
            },
        }
    }
}

/// The number that a value stands for: an integer itself, another number cut
/// off toward zero, and zero for everything else.
pub open spec fn number_of(v: Value) -> i32 {
    match v {
        Value::VFloat(f) => f.truncated,
        Value::VInt(i) => i,
        _ => 0,
    }
}

impl From<Value> for i32 {
    /// The number that `v` stands for.
    fn from(v: Value) -> (n: i32) {
        match v {
            Value::VFloat(f) => f.truncated,
            Value::VInt(i) => i,
            _ => 0,
        }
    }
}

impl vstd::std_specs::convert::FromSpecImpl<Value> for i32 {
    open spec fn obeys_from_spec() -> bool {
        true
    }

    open spec fn from_spec(v: Value) -> i32 {
        number_of(v)
    }
}

/// How the module's GUI is reached and laid out.
#[derive(Clone, Debug)]
pub struct GUIBundle {
    pub url: String,
    pub name: String,
    pub params: Vec<Vec<Value>>,
    pub width: i32,
    pub height: i32,
}

/// What the engine says of itself.
#[derive(Clone, Debug)]
pub struct Info {
    pub name: String,
    pub vendor: String,
    pub presets: u32,
    pub parameters: u32,
    pub inputs: i32,
    pub outputs: i32,
    pub midi_inputs: u32,
    pub midi_outputs: u32,
    pub id: u32,
    pub version: u32,
    pub category: String,
    pub initial_delay: u32,
    pub preset_chunks: bool,
    pub f64_precision: bool,
    pub silent_when_stopped: bool,
}

/// The manifest of one module: its binaries in the order in which the engine
/// takes them, its GUI, and where the GUI's description lies, if it has one.
#[derive(Clone, Debug)]
pub struct Bundle {
    pub wasm_url: Vec<String>,
    pub gui: GUIBundle,
    pub gui_description: Option<String>,
    pub info: Info,
}

/// One entry of the module listing.
#[derive(Clone, Debug)]
pub struct Module {
    pub name: String,
    pub json_url: String,
}

/// The module listing: the modules on offer and the name of the default one.
#[derive(Clone, Debug)]
pub struct Modules {
    pub default: String,
    pub modules: Vec<Module>,
}

} // verus!
