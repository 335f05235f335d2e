use braess_experiments::csv_column_renaming::{
    column_renaming_error, is_blank_name, rename_csv_columns, ColumnRenamingError,
};

fn names(v: &[&str]) -> Vec<String> {
    v.iter().map(|s| s.to_string()).collect()
}

#[test]
fn pairs_each_column_with_its_new_name() {
    let (old, new) = (names(&["a", "b", "c"]), names(&["x", "y", "z"]));
    assert_eq!(column_renaming_error(&old, &new), None);
    let r = rename_csv_columns(&old, &new);
    assert_eq!(
        r,
        vec![
            ("a".to_string(), "x".to_string()),
            ("b".to_string(), "y".to_string()),
            ("c".to_string(), "z".to_string())
        ]
    );
}

#[test]
fn swapped_names_are_paired_in_order() {
    let r = rename_csv_columns(&names(&["a", "b"]), &names(&["b", "a"]));
    assert_eq!(r, vec![("a".to_string(), "b".to_string()), ("b".to_string(), "a".to_string())]);
}

#[test]
fn no_columns_is_refused() {
    let e = column_renaming_error(&names(&[]), &names(&[])).unwrap();
    assert_eq!(e, ColumnRenamingError::NoValidColumnNames);
    assert_eq!(e.message(), "Input CSV has no valid column names.");
}

#[test]
fn blank_column_name_is_refused() {
    let e = column_renaming_error(&names(&["a", " \t\u{3000}"]), &names(&["x"])).unwrap();
    assert_eq!(e, ColumnRenamingError::NoValidColumnNames);
}

#[test]
fn count_mismatch_is_refused() {
    let e = column_renaming_error(&names(&["a", "b"]), &names(&["x"])).unwrap();
    assert_eq!(e, ColumnRenamingError::CountMismatch { new_names: 1, columns: 2 });
    assert_eq!(
        e.message(),
        "Number of new column names (1) does not match number of CSV columns (2)."
    );
}

#[test]
fn blank_names() {
    assert!(is_blank_name(""));
    assert!(is_blank_name(" \n\r\u{85}\u{a0}\u{2028}"));
    assert!(!is_blank_name(" a "));
    assert!(!is_blank_name("\u{200b}"));
    for c in ['\u{9}', '\u{b}', '\u{1680}', '\u{2000}', '\u{200a}', '\u{2029}', '\u{202f}', '\u{205f}'] {
        assert_eq!(is_blank_name(&c.to_string()), c.is_whitespace());
    }
}
