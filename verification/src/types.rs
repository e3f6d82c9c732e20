//! The closed domain of static types.
use vstd::prelude::*;
use crate::text::{chars_of, push_char};

verus! {

/// A static type, as a mathematical value.
pub enum Ty {
    Number,
    Boolean,
    String,
    Object,
    Custom(Seq<char>),
    Unknown,
}

/// A static type.
#[derive(Debug, Clone)]
pub enum Type {
    Number,
    Boolean,
    String,
    Object,
    /// A user-declared type, by name.
    Custom(String),
    Unknown,
}

impl View for Type {
    type V = Ty;

    open spec fn view(&self) -> Ty {
        match self {
            Type::Number => Ty::Number,
            Type::Boolean => Ty::Boolean,
            Type::String => Ty::String,
            Type::Object => Ty::Object,
            Type::Custom(name) => Ty::Custom(name@),
            Type::Unknown => Ty::Unknown,
        }
    }
}

/// The lower-case form of an ASCII letter; any other character is itself.
pub open spec fn lower_char(c: char) -> char {
    if 'A' <= c && c <= 'Z' {
        ((c as u8) + 32) as char
    } else {
        c
    }
}

/// `s` with every ASCII capital replaced by its lower-case form.
pub open spec fn lower_text(s: Seq<char>) -> Seq<char> {
    Seq::new(s.len(), |i: int| lower_char(s[i]))
}

/// The type that a declared signature names. Aliases are matched without
/// regard to the case of ASCII letters; an unrecognised name is `Unknown`.
pub open spec fn parse_type(s: Seq<char>) -> Ty {
    let l = lower_text(s);
    if l == "number"@ || l == "i32"@ || l == "f64"@ {
        Ty::Number
    } else if l == "boolean"@ || l == "bool"@ {
        Ty::Boolean
    } else if l == "string"@ {
        Ty::String
    } else if l == "object"@ {
        Ty::Object
    } else {
        Ty::Unknown
    }
}

fn to_lower(c: char) -> (r: char)
    ensures
        r == lower_char(c),
{
    if 'A' <= c && c <= 'Z' {
        ((c as u8) + 32) as char
    } else {
        c
    }
}

fn lowered(s: &str) -> (r: String)
    ensures
        r@ == lower_text(s@),
{
    let chars = chars_of(s);
    let mut r = String::new();
    let mut i: usize = 0;
    while i < chars.len()
        invariant
            chars@ == s@,
            i <= chars.len(),
            r@ == lower_text(s@.take(i as int)),
        decreases chars.len() - i,
    {
        push_char(&mut r, to_lower(chars[i]));
        i += 1;
        assert(r@ =~= lower_text(s@.take(i as int)));
    }
    assert(s@.take(chars.len() as int) =~= s@);
    r
}

fn is_text(s: &String, word: &str) -> (b: bool)
    ensures
        b == (s@ == word@),
{
    let w = word.to_owned();
    *s == w
}

impl Type {
    pub fn from_str(s: &str) -> (t: Self)
        ensures
            t@ == parse_type(s@),
    {
        let l = lowered(s);
        if is_text(&l, "number") || is_text(&l, "i32") || is_text(&l, "f64") {
            Type::Number
        } else if is_text(&l, "boolean") || is_text(&l, "bool") {
            Type::Boolean
        } else if is_text(&l, "string") {
            Type::String
        } else if is_text(&l, "object") {
            Type::Object
        } else {
            Type::Unknown
        }
    }

    /// Whether two types are the same type: the same kind, and for custom
    /// types the same name.
    pub fn same(&self, other: &Type) -> (b: bool)
        ensures
            b == (self@ == other@),
    {
        match (self, other) {
            (Type::Number, Type::Number) => true,
            (Type::Boolean, Type::Boolean) => true,
            (Type::String, Type::String) => true,
            (Type::Object, Type::Object) => true,
            (Type::Unknown, Type::Unknown) => true,
            (Type::Custom(a), Type::Custom(b)) => {
                let r = *a == *b;
                r
            },
            _ => false,
        }
    }

    /// A copy of this type.
    pub fn duplicate(&self) -> (t: Type)
        ensures
            t@ == self@,
    {
        match self {
            Type::Number => Type::Number,
            Type::Boolean => Type::Boolean,
            Type::String => Type::String,
            Type::Object => Type::Object,
            Type::Unknown => Type::Unknown,
            Type::Custom(name) => Type::Custom(name.clone()),
        }
    }
}

} // verus!
