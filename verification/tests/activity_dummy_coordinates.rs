use braess_experiments::activity_dummy_coordinates::{
    add_dummy_coordinates_to_file, add_dummy_coordinates_to_line,
};

#[test]
fn adds_coordinates_for_actend() {
    let line = r#"<event time="0.0" type="actend" person="0" link="0_1" actType="dummy"  />"#;
    let expected =
        r#"<event time="0.0" type="actend" person="0" link="0_1" actType="dummy" x="0" y="0"  />"#;
    assert_eq!(expected, add_dummy_coordinates_to_line(line));
}

#[test]
fn adds_coordinates_for_actstart() {
    let line = r#"<event time="1.0" type="actstart" person="1" link="2_3" actType="home" />"#;
    let expected =
        r#"<event time="1.0" type="actstart" person="1" link="2_3" actType="home" x="0" y="0" />"#;
    assert_eq!(expected, add_dummy_coordinates_to_line(line));
}

#[test]
fn keeps_other_types_unchanged() {
    let line = r#"<event time="2.0" type="entered link" person="1" link="2_3" />"#;
    assert_eq!(line, add_dummy_coordinates_to_line(line));
}

#[test]
fn keeps_existing_coordinates_unchanged() {
    let line = r#"<event time="0.0" type="actend" person="0" link="0_1" x="4" y="5" />"#;
    assert_eq!(line, add_dummy_coordinates_to_line(line));
}

#[test]
fn adds_coordinates_right_before_closing_without_whitespace() {
    let line = r#"<event time="3.0" type="actend" person="2" link="1_2"/>"#;
    let expected = r#"<event time="3.0" type="actend" person="2" link="1_2" x="0" y="0"/>"#;
    assert_eq!(expected, add_dummy_coordinates_to_line(line));
}

#[test]
fn keeps_activity_event_without_closing_unchanged() {
    let line = r#"<event time="3.0" type="actend" person="2" link="1_2">"#;
    assert_eq!(line, add_dummy_coordinates_to_line(line));
}

#[test]
fn keeps_line_with_only_y_coordinate_unchanged() {
    let line = r#"<event time="3.0" type="actstart" person="2" y="7" />"#;
    assert_eq!(line, add_dummy_coordinates_to_line(line));
}

#[test]
fn keeps_non_event_lines_unchanged() {
    let line = r#"<activity type="actend" link="1_2" />"#;
    assert_eq!(line, add_dummy_coordinates_to_line(line));
    assert_eq!("", add_dummy_coordinates_to_line(""));
}

#[test]
fn uses_last_closing_and_whitespace_before_it() {
    let line = "<event type=\"actend\" a=\"/>\" \t />";
    let expected = "<event type=\"actend\" a=\"/>\" x=\"0\" y=\"0\" \t />";
    assert_eq!(expected, add_dummy_coordinates_to_line(line));
}

#[test]
fn adding_twice_changes_nothing_more() {
    let line = r#"<event time="1.0" type="actstart" person="1" link="2_3" actType="home" />"#;
    let once = add_dummy_coordinates_to_line(line);
    let twice = add_dummy_coordinates_to_line(&once);
    assert_eq!(once, twice);
}

#[test]
fn file_rewrite_counts_changed_lines() {
    let lines = vec![
        "<events>".to_string(),
        r#"<event time="0.0" type="actend" person="0" link="0_1" actType="dummy"  />"#.to_string(),
        r#"<event time="2.0" type="entered link" person="1" link="2_3" />"#.to_string(),
        r#"<event time="1.0" type="actstart" person="1" link="2_3" actType="home" />"#.to_string(),
        "</events>".to_string(),
    ];
    let (out, changed) = add_dummy_coordinates_to_file(&lines);
    assert_eq!(changed, 2);
    assert_eq!(out.len(), 5);
    assert_eq!(out[0], "<events>");
    assert_eq!(
        out[1],
        r#"<event time="0.0" type="actend" person="0" link="0_1" actType="dummy" x="0" y="0"  />"#
    );
    assert_eq!(out[2], lines[2]);
    assert_eq!(
        out[3],
        r#"<event time="1.0" type="actstart" person="1" link="2_3" actType="home" x="0" y="0" />"#
    );
    assert_eq!(out[4], "</events>");
}

#[test]
fn file_rewrite_of_no_lines() {
    let (out, changed) = add_dummy_coordinates_to_file(&Vec::new());
    assert!(out.is_empty());
    assert_eq!(changed, 0);
}

#[test]
fn adds_coordinates_when_only_an_attribute_name_ends_in_y() {
    let line = r#"<event time="5.0" type="actstart" person="2" link="1_2" actType="work" facility="f1" />"#;
    let expected = r#"<event time="5.0" type="actstart" person="2" link="1_2" actType="work" facility="f1" x="0" y="0" />"#;
    assert_eq!(expected, add_dummy_coordinates_to_line(line));
}

#[test]
fn adds_coordinates_when_only_an_attribute_name_ends_in_x() {
    let line = r#"<event time="5.0" type="actend" person="2" link="1_2" prefix="a" />"#;
    let expected = r#"<event time="5.0" type="actend" person="2" link="1_2" prefix="a" x="0" y="0" />"#;
    assert_eq!(expected, add_dummy_coordinates_to_line(line));
}

#[test]
fn keeps_line_with_x_coordinate_at_start_of_line_unchanged() {
    let line = "x=\"1\" <event type=\"actend\" />";
    assert_eq!(line, add_dummy_coordinates_to_line(line));
}
