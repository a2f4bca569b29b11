use backend::domain::FigmaNodeId;

#[test]
fn node_id_is_empty() {
    assert!(FigmaNodeId::parse("".to_string()).is_err());
}

#[test]
fn node_id_wrong_format() {
    assert!(FigmaNodeId::parse("abc".to_string()).is_err());
    assert!(FigmaNodeId::parse("123".to_string()).is_err());
    assert!(FigmaNodeId::parse("123:456:789".to_string()).is_err());
}

#[test]
fn node_id_is_valid() {
    let id = FigmaNodeId::parse("123:456".to_string()).unwrap();
    assert_eq!(id.as_ref(), "123:456");
}

#[test]
fn node_id_error_messages() {
    assert_eq!(FigmaNodeId::parse(" ".to_string()).unwrap_err(), "Figma node id cannot be empty!");
    assert_eq!(
        FigmaNodeId::parse(" 1:a ".to_string()).unwrap_err(),
        "'1:a' is not a valid Figma node id (expected format 'number:number')"
    );
}

#[test]
fn node_id_parts_must_be_non_empty() {
    assert!(FigmaNodeId::parse(":1".to_string()).is_err());
    assert!(FigmaNodeId::parse("1:".to_string()).is_err());
    assert!(FigmaNodeId::parse(":".to_string()).is_err());
    assert!(FigmaNodeId::parse("1::2".to_string()).is_err());
}

#[test]
fn node_id_is_trimmed_and_reparses() {
    let id = FigmaNodeId::parse("  2345:2366\n".to_string()).unwrap();
    assert_eq!(id.as_ref(), "2345:2366");
    let again = FigmaNodeId::parse(id.clone().as_ref().to_string()).unwrap();
    assert_eq!(again.as_ref(), "2345:2366");
}
