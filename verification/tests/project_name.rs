use backend::domain::ProjectName;

#[test]
fn name_is_empty() {
    let name = ProjectName::parse("".to_string());

    assert!(name.is_err());
}

#[test]
fn name_is_valid() {
    let name = ProjectName::parse("My project".to_string());
    assert!(name.is_ok());
}

#[test]
fn name_greater_than_50_is_invalid() {
    let name = "a".repeat(51);
    let final_name = ProjectName::parse(name);

    assert!(final_name.is_err());
}

#[test]
fn name_returned_is_equal() {
    let name = ProjectName::parse("Large project".to_string()).unwrap();

    assert_eq!(name.as_ref(), "Large project");
}

#[test]
fn name_of_only_white_space_is_empty() {
    let err = ProjectName::parse(" \t\n\u{3000} ".to_string()).unwrap_err();
    assert_eq!(err, "Project name cannot be empty!");
}

#[test]
fn name_of_exactly_50_characters_is_valid() {
    let name = ProjectName::parse("é".repeat(50)).unwrap();
    assert_eq!(name.as_ref(), "é".repeat(50));
}

#[test]
fn name_too_long_reports_the_trimmed_name() {
    let long = "b".repeat(51);
    let err = ProjectName::parse(format!("  {}  ", long)).unwrap_err();
    assert_eq!(err, format!("Project {} exceeds the character length(50)", long));
}

#[test]
fn name_is_trimmed() {
    let name = ProjectName::parse("\u{a0} My project \r\n".to_string()).unwrap();
    assert_eq!(name.as_ref(), "My project");
}

#[test]
fn name_reparses_to_itself() {
    let name = ProjectName::parse("  Design pass  ".to_string()).unwrap();
    let again = ProjectName::parse(name.as_ref().to_string()).unwrap();
    assert_eq!(again.as_ref(), name.as_ref());
}

#[test]
fn name_padding_does_not_change_verdict() {
    let inputs = vec!["".to_string(), "x".to_string(), "a b".to_string(), "z".repeat(51)];
    for s in inputs {
        let plain = ProjectName::parse(s.clone()).map(|n| n.as_ref().to_string());
        let padded = ProjectName::parse(format!("\u{2003}\t{}\u{85} ", s)).map(|n| n.as_ref().to_string());
        assert_eq!(plain, padded);
    }
}
