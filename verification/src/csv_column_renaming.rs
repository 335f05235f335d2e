//! The renaming of all columns of a CSV table: which column gets which new name, and
//! when the renaming is refused.

use crate::text::{chars_of, decimal};
use vstd::prelude::*;

verus! {

/// A character with Unicode's `White_Space` property (`char::is_whitespace`).
pub open spec fn is_white_space(c: char) -> bool {
    ||| ('\u{9}' <= c && c <= '\u{d}')
    ||| c == ' '
    ||| c == '\u{85}'
    ||| c == '\u{a0}'
    ||| c == '\u{1680}'
    ||| ('\u{2000}' <= c && c <= '\u{200a}')
    ||| c == '\u{2028}'
    ||| c == '\u{2029}'
    ||| c == '\u{202f}'
    ||| c == '\u{205f}'
    ||| c == '\u{3000}'
}

/// The name is empty once surrounding whitespace is trimmed: all its characters are
/// whitespace.
pub open spec fn is_blank(name: Seq<char>) -> bool {
    forall|i: int| 0 <= i < name.len() ==> is_white_space(#[trigger] name[i])
}

/// The table has at least one column and no column name is blank.
pub open spec fn has_valid_column_names(names: Seq<String>) -> bool {
    names.len() > 0 && forall|i: int| 0 <= i < names.len() ==> !is_blank(#[trigger] names[i]@)
}

/// Why a renaming of all columns is refused.
#[derive(Debug, PartialEq, Eq, Structural)]
pub enum ColumnRenamingError {
    /// The table has no columns, or a column whose name is blank.
    NoValidColumnNames,
    /// The number of new names differs from the number of columns.
    CountMismatch { new_names: usize, columns: usize },
}

/// The text of a renaming error.
pub open spec fn renaming_error_message(e: ColumnRenamingError) -> Seq<char> {
    match e {
        ColumnRenamingError::NoValidColumnNames => "Input CSV has no valid column names."@,
        ColumnRenamingError::CountMismatch { new_names, columns } => "Number of new column names ("@
            + decimal(new_names as nat) + ") does not match number of CSV columns ("@ + decimal(
            columns as nat,
        ) + ")."@,
    }
}

impl ColumnRenamingError {
    /// The text of the error.
    pub fn message(&self) -> (m: String)
        ensures
            m@ == renaming_error_message(*self),
    {
        match self {
            ColumnRenamingError::NoValidColumnNames => String::from_str(
                "Input CSV has no valid column names.",
            ),
            ColumnRenamingError::CountMismatch { new_names, columns } => {
                let mut m = String::from_str("Number of new column names (");
                crate::text::push_decimal(&mut m, *new_names as u64);
                m.append(") does not match number of CSV columns (");
                crate::text::push_decimal(&mut m, *columns as u64);
                m.append(").");
                m
            },
        }
    }
}

/// Whether a character has Unicode's `White_Space` property.
fn is_white_space_exec(c: char) -> (b: bool)
    ensures
        b == is_white_space(c),
{
    ('\u{9}' <= c && c <= '\u{d}') || c == ' ' || c == '\u{85}' || c == '\u{a0}' || c
        == '\u{1680}' || ('\u{2000}' <= c && c <= '\u{200a}') || c == '\u{2028}' || c
        == '\u{2029}' || c == '\u{202f}' || c == '\u{205f}' || c == '\u{3000}'
}

/// Whether the name is blank: empty once surrounding whitespace is trimmed.
pub fn is_blank_name(name: &str) -> (b: bool)
    ensures
        b == is_blank(name@),
{
    let chars = chars_of(name);
    let mut i: usize = 0;
    while i < chars.len()
        invariant
            i <= chars@.len(),
            chars@ == name@,
            forall|j: int| 0 <= j < i ==> is_white_space(#[trigger] chars@[j]),
        decreases chars@.len() - i,
    {
        if !is_white_space_exec(chars[i]) {
            return false;
        }
        i = i + 1;
    }
    true
}

/// Why renaming the columns `original` to `new` is refused, if it is: no column or a
/// blank column name first, else a count of new names that differs from the number of
/// columns.
pub open spec fn renaming_error(original: Seq<String>, new: Seq<String>) -> Option<ColumnRenamingError> {
    if !has_valid_column_names(original) {
        Some(ColumnRenamingError::NoValidColumnNames)
    } else if original.len() != new.len() {
        Some(
            ColumnRenamingError::CountMismatch {
                new_names: new.len() as usize,
                columns: original.len() as usize,
            },
        )
    } else {
        None
    }
}

/// Why renaming all columns would be refused, if it would: the table has no column or a
/// blank column name, or the numbers of columns and of new names differ.
pub fn column_renaming_error(original_column_names: &Vec<String>, new_column_names: &Vec<String>) -> (r:
    Option<ColumnRenamingError>)
    ensures
        r == renaming_error(original_column_names@, new_column_names@),
{
    let n = original_column_names.len();
    if n == 0 {
        return Some(ColumnRenamingError::NoValidColumnNames);
    }
    let mut i: usize = 0;
    while i < n
        invariant
            n == original_column_names@.len(),
            i <= n,
            forall|j: int| 0 <= j < i ==> !is_blank(#[trigger] original_column_names@[j]@),
        decreases n - i,
    {
        if is_blank_name(original_column_names[i].as_str()) {
            return Some(ColumnRenamingError::NoValidColumnNames);
        }
        i = i + 1;
    }
    if n != new_column_names.len() {
        return Some(
            ColumnRenamingError::CountMismatch { new_names: new_column_names.len(), columns: n },
        );
    }
    None
}

/// The renaming of all columns of a table: each column, in order, paired with the new
/// name at the same position. The table must have valid column names and as many
/// columns as new names (`column_renaming_error` tells when it has not).
pub fn rename_csv_columns(original_column_names: &Vec<String>, new_column_names: &Vec<String>) -> (r: Vec<
    (String, String),
>)
    requires
        has_valid_column_names(original_column_names@),
        original_column_names@.len() == new_column_names@.len(),
    ensures
        r@.len() == original_column_names@.len(),
        forall|i: int|
            0 <= i < r@.len() ==> (#[trigger] r@[i]).0@ == original_column_names@[i]@
                && r@[i].1@ == new_column_names@[i]@,
{
    let n = original_column_names.len();
    let mut pairs: Vec<(String, String)> = Vec::new();
    let mut k: usize = 0;
    while k < n
        invariant
            n == original_column_names@.len(),
            n == new_column_names@.len(),
            k <= n,
            pairs@.len() == k,
            forall|j: int|
                0 <= j < k ==> (#[trigger] pairs@[j]).0@ == original_column_names@[j]@
                    && pairs@[j].1@ == new_column_names@[j]@,
        decreases n - k,
    {
        let old_name = original_column_names[k].clone();
        let new_name = new_column_names[k].clone();
        pairs.push((old_name, new_name));
        k = k + 1;
    }
    pairs
}

} // verus!
