//! The values of the YAML configuration files, as the configuration logic reads them.

use crate::text::{decimal, int_text};
use vstd::prelude::*;

verus! {

/// A YAML number. Floating-point numbers are held as the text that serde_yaml writes
/// for them, since the logic only ever prints them.
#[derive(Debug, PartialEq, Eq)]
pub enum YamlNumber {
    PosInt(u64),
    NegInt(i64),
    Float(String),
}

/// A YAML value. Sequences and mappings are held as the text that serde_yaml's `Debug`
/// gives them, since the logic only ever prints them; a tagged value keeps its inner
/// value and that text.
#[derive(Debug, PartialEq, Eq)]
pub enum YamlValue {
    Null,
    Bool(bool),
    Number(YamlNumber),
    String(String),
    Collection(String),
    Tagged(Box<YamlValue>, String),
}

/// How serde_yaml prints a number (`Display`).
pub open spec fn number_text(n: YamlNumber) -> Seq<char> {
    match n {
        YamlNumber::PosInt(u) => decimal(u as nat),
        YamlNumber::NegInt(i) => int_text(i as int),
        YamlNumber::Float(s) => s@,
    }
}

/// The value with its tags removed.
pub open spec fn untagged(v: YamlValue) -> YamlValue
    decreases v,
{
    match v {
        YamlValue::Tagged(inner, _) => untagged(*inner),
        _ => v,
    }
}

/// `Value::as_str`: the string of an (untagged) string value.
pub open spec fn as_str_spec(v: YamlValue) -> Option<Seq<char>> {
    match untagged(v) {
        YamlValue::String(s) => Some(s@),
        _ => None,
    }
}

/// `Value::as_i64`: the integer of an (untagged) integer value that fits in an `i64`.
pub open spec fn as_i64_spec(v: YamlValue) -> Option<i64> {
    match untagged(v) {
        YamlValue::Number(YamlNumber::PosInt(u)) => if u <= i64::MAX {
            Some(u as i64)
        } else {
            None
        },
        YamlValue::Number(YamlNumber::NegInt(i)) => Some(i),
        _ => None,
    }
}

/// How serde_yaml's `Debug` prints a null, a collection or a tagged value: the values
/// that no shell argument can be made of. (Other values never reach an error message.)
pub open spec fn debug_text(v: YamlValue) -> Seq<char> {
    match v {
        YamlValue::Null => "Null"@,
        YamlValue::Collection(t) => t@,
        YamlValue::Tagged(_, t) => t@,
        _ => Seq::empty(),
    }
}

impl Clone for YamlNumber {
    fn clone(&self) -> (r: Self)
        ensures
            r == *self,
    {
        match self {
            YamlNumber::PosInt(u) => YamlNumber::PosInt(*u),
            YamlNumber::NegInt(i) => YamlNumber::NegInt(*i),
            YamlNumber::Float(s) => YamlNumber::Float(s.clone()),
        }
    }
}

impl Clone for YamlValue {
    fn clone(&self) -> (r: Self)
        ensures
            r == *self,
        decreases self,
    {
        match self {
            YamlValue::Null => YamlValue::Null,
            YamlValue::Bool(b) => YamlValue::Bool(*b),
            YamlValue::Number(n) => YamlValue::Number(n.clone()),
            YamlValue::String(s) => YamlValue::String(s.clone()),
            YamlValue::Collection(t) => YamlValue::Collection(t.clone()),
            YamlValue::Tagged(inner, t) => {
                let i: YamlValue = (**inner).clone();
                YamlValue::Tagged(Box::new(i), t.clone())
            },
        }
    }
}

impl YamlValue {
    /// The value with its tags removed.
    pub fn untag_ref(&self) -> (r: &YamlValue)
        ensures
            *r == untagged(*self),
        decreases self,
    {
        match self {
            YamlValue::Tagged(inner, _) => inner.untag_ref(),
            _ => self,
        }
    }

    /// The string of an (untagged) string value (`Value::as_str`).
    pub fn as_str(&self) -> (r: Option<&String>)
        ensures
            match r {
                Some(s) => as_str_spec(*self) == Some(s@),
                None => as_str_spec(*self) is None,
            },
    {
        match self.untag_ref() {
            YamlValue::String(s) => Some(s),
            _ => None,
        }
    }

    /// The integer of an (untagged) integer value that fits in an `i64` (`Value::as_i64`).
    pub fn as_i64(&self) -> (r: Option<i64>)
        ensures
            r == as_i64_spec(*self),
    {
        match self.untag_ref() {
            YamlValue::Number(YamlNumber::PosInt(u)) => if *u <= i64::MAX as u64 {
                Some(*u as i64)
            } else {
                None
            },
            YamlValue::Number(YamlNumber::NegInt(i)) => Some(*i),
            _ => None,
        }
    }
}

} // verus!
