use quick_assessment::report::{render_report, yaml_to_markdown, ReportError, YamlNode};

#[test]
fn sections_then_overall() {
    let r = yaml_to_markdown("Experience:\n  Note:\n    - a\n    - b\n  Rating: Medium\nOverall: Hard\n").unwrap();
    assert_eq!(r, "# Experience\n- a\n- b\n- Rating: Medium\n\n# Overall\nDifficulty Hard\n");
}

#[test]
fn overall_goes_last_wherever_it_stands() {
    let r = yaml_to_markdown("Overall: Hard\nExperience:\n  Note:\n    - a\n    - b\n  Rating: Medium\n").unwrap();
    assert_eq!(r, "# Experience\n- a\n- b\n- Rating: Medium\n\n# Overall\nDifficulty Hard\n");
}

#[test]
fn sections_keep_document_order() {
    let r = yaml_to_markdown("B:\n  Rating: Easy\nA:\n  Rating: Hard\n").unwrap();
    assert_eq!(r, "# B\n- Rating: Easy\n\n# A\n- Rating: Hard\n\n");
}

#[test]
fn sequence_root_is_a_structure_error() {
    let e = yaml_to_markdown("- just a list").unwrap_err();
    assert!(matches!(e, ReportError::RootNotMapping));
    assert!(e.is_structure_error());
}

#[test]
fn malformed_yaml_is_a_parse_error() {
    let e = yaml_to_markdown("{not valid: [yaml").unwrap_err();
    assert!(matches!(e, ReportError::Parse(_)));
    assert!(!e.is_structure_error());
}

#[test]
fn string_note_gives_heading_only() {
    let r = yaml_to_markdown("Experience:\n  Note: just a string\n").unwrap();
    assert_eq!(r, "# Experience\n\n");
}

#[test]
fn converting_twice_gives_the_same_text() {
    let text = "Knowledge:\n  Note:\n    - x\n  Rating: Easy\nOverall: Medium\n";
    assert_eq!(yaml_to_markdown(text).unwrap(), yaml_to_markdown(text).unwrap());
}

#[test]
fn non_string_section_name_is_rejected() {
    let e = yaml_to_markdown("1:\n  Rating: Easy\n").unwrap_err();
    assert!(matches!(e, ReportError::InvalidSectionName));
}

#[test]
fn non_string_subsection_name_is_rejected() {
    let e = yaml_to_markdown("A:\n  Rating: Easy\n  2: x\n").unwrap_err();
    assert!(matches!(e, ReportError::InvalidSubsectionName));
}

#[test]
fn first_error_met_is_returned() {
    let e = yaml_to_markdown("A:\n  3: x\n4: y\n").unwrap_err();
    assert!(matches!(e, ReportError::InvalidSubsectionName));
    let e = yaml_to_markdown("4: y\nA:\n  3: x\n").unwrap_err();
    assert!(matches!(e, ReportError::InvalidSectionName));
}

#[test]
fn non_string_notes_and_unknown_keys_are_skipped() {
    let r = yaml_to_markdown("A:\n  Note: [x, 1, y, [z]]\n  Extra: ignored\n  Rating: 5\n").unwrap();
    assert_eq!(r, "# A\n- x\n- y\n\n");
}

#[test]
fn section_that_is_not_a_mapping_gives_heading_only() {
    let r = yaml_to_markdown("A: 5\nB: text\n").unwrap();
    assert_eq!(r, "# A\n\n# B\n\n");
}

#[test]
fn overall_that_is_not_a_string_is_left_out() {
    let r = yaml_to_markdown("A:\n  Rating: Easy\nOverall: [Hard]\n").unwrap();
    assert_eq!(r, "# A\n- Rating: Easy\n\n");
}

#[test]
fn tags_are_looked_through() {
    let r = yaml_to_markdown("A:\n  Rating: !r Hard\n  Note: !n [a]\n").unwrap();
    assert_eq!(r, "# A\n- Rating: Hard\n- a\n\n");
}

#[test]
fn empty_document_is_not_a_mapping() {
    let e = yaml_to_markdown("").unwrap_err();
    assert!(matches!(e, ReportError::RootNotMapping));
}

#[test]
fn render_built_tree() {
    let root = YamlNode::Dict(vec![
        (YamlNode::Text("Overall".to_string()), YamlNode::Text("Easy".to_string())),
        (
            YamlNode::Text("Ambiguity".to_string()),
            YamlNode::Dict(vec![(
                YamlNode::Text("Note".to_string()),
                YamlNode::List(vec![YamlNode::Text("clear".to_string()), YamlNode::Scalar]),
            )]),
        ),
    ]);
    assert_eq!(render_report(&root).unwrap(), "# Ambiguity\n- clear\n\n# Overall\nDifficulty Easy\n");
    let tagged_root = YamlNode::Tagged(Box::new(YamlNode::Scalar));
    assert!(matches!(render_report(&tagged_root), Err(ReportError::RootNotMapping)));
}
