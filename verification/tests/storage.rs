use ffwebapps::storage::Variables;

#[test]
fn a_variable_has_one_value() {
    let variables = Variables::new().with("A", "1").with("B", "2").with("A", "3");
    assert_eq!(variables.get("A"), Some("3"));
    assert_eq!(variables.get("B"), Some("2"));
    assert_eq!(variables.get("C"), None);
    assert_eq!(variables.entries().len(), 2);
    let copy = variables.clone().with("C", "");
    assert_eq!(copy.get("C"), Some(""));
    assert_eq!(variables.get("C"), None);
}
