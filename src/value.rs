use vstd::prelude::*;

verus! {

broadcast use vstd::std_specs::vec::group_vec_axioms;

/// A value held by a variable: a boolean, a string, or an ordered list of
/// such values.
#[derive(Debug)]
pub enum VarValue {
    Bool(bool),
    Str(String),
    List(Vec<VarValue>),
}

/// The lower-case hexadecimal digit of a number below 16.
pub open spec fn hex_digit(n: u32) -> char {
    seq!['0', '1', '2', '3', '4', '5', '6', '7', '8', '9', 'a', 'b', 'c', 'd', 'e', 'f'][n as int]
}

/// How a JSON string literal writes one character: a quote and a backslash
/// escaped, the usual short escapes for backspace, tab, newline, form feed and
/// carriage return, any other control character as `\u00XX`, and every other
/// character as it is.
pub open spec fn json_escaped_char(c: char) -> Seq<char> {
    if c == '"' {
        seq!['\\', '"']
    } else if c == '\\' {
        seq!['\\', '\\']
    } else if c == '\x08' {
        seq!['\\', 'b']
    } else if c == '\t' {
        seq!['\\', 't']
    } else if c == '\n' {
        seq!['\\', 'n']
    } else if c == '\x0C' {
        seq!['\\', 'f']
    } else if c == '\r' {
        seq!['\\', 'r']
    } else if (c as u32) < 0x20 {
        seq!['\\', 'u', '0', '0', hex_digit(c as u32 / 16), hex_digit(c as u32 % 16)]
    } else {
        seq![c]
    }
}

/// The characters of a string, each written as a JSON string literal writes it.
pub open spec fn json_escaped(s: Seq<char>) -> Seq<char>
    decreases s.len(),
{
    if s.len() == 0 {
        Seq::empty()
    } else {
        json_escaped(s.drop_last()) + json_escaped_char(s.last())
    }
}

/// The text of a string written as a JSON string literal: quoted and escaped.
pub open spec fn json_string_literal(s: Seq<char>) -> Seq<char> {
    seq!['"'] + json_escaped(s) + seq!['"']
}

/// Relies on serde_json's `Display` of `Value::String`, which writes the
/// string as a JSON string literal through its escape table (`format_escaped_str`).
#[verifier::external_body]
pub(crate) fn json_quote(s: &str) -> (r: String)
    ensures
        r@ == json_string_literal(s@),
{
    serde_json::Value::String(s.to_string()).to_string()
}

/// The text of a boolean.
pub open spec fn bool_text(b: bool) -> Seq<char> {
    if b {
        "true"@
    } else {
        "false"@
    }
}

/// The compact JSON text of a value.
pub open spec fn value_text(v: VarValue) -> Seq<char>
    decreases v, 0nat,
{
    match v {
        VarValue::Bool(b) => bool_text(b),
        VarValue::Str(s) => json_string_literal(s@),
        VarValue::List(items) => "["@ + items_text(items, items.len() as nat) + "]"@,
    }
}

/// The texts of the first `n` items of a list, separated by commas.
pub open spec fn items_text(items: Vec<VarValue>, n: nat) -> Seq<char>
    decreases items, n,
{
    if n == 0 || n > items.len() {
        Seq::empty()
    } else if n == 1 {
        value_text(items@[0])
    } else {
        items_text(items, (n - 1) as nat) + ","@ + value_text(items@[n - 1])
    }
}

impl VarValue {
    /// The compact JSON text of this value.
    pub fn text(&self) -> (r: String)
        ensures
            r@ == value_text(*self),
        decreases self,
    {
        match self {
            VarValue::Bool(b) => {
                if *b {
                    String::from_str("true")
                } else {
                    String::from_str("false")
                }
            },
            VarValue::Str(s) => json_quote(s.as_str()),
            VarValue::List(items) => {
                let mut r = String::from_str("[");
                let mut i: usize = 0;
                while i < items.len()
                    invariant
                        i <= items.len(),
                        *self == VarValue::List(*items),
                        r@ == "["@ + items_text(*items, i as nat),
                    decreases items.len() - i,
                {
                    proof {
                        assert(decreases_to!(*self => (*self)->List_0));
                        assert(decreases_to!(*items => items@));
                        assert(decreases_to!(items@ => items@[i as int]));
                    }
                    let t = items[i].text();
                    if i > 0 {
                        r.append(",");
                    }
                    r.append(t.as_str());
                    i = i + 1;
                    proof {
                        assert(r@ =~= "["@ + items_text(*items, i as nat));
                    }
                }
                r.append("]");
                r
            },
        }
    }
}

} // verus!
