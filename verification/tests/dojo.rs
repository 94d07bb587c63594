use neodojo::dojo::DojoImmutableFileDescriptor;

#[test]
fn a_descriptor_holds_its_parts() {
    let file = DojoImmutableFileDescriptor {
        description: Some("the tests".to_string()),
        path: "tests/".to_string(),
        is_directory: Some(true),
    };
    assert_eq!(file.clone(), file);
    assert_eq!(file.path, "tests/");
    assert_eq!(file.description.as_deref(), Some("the tests"));
    assert_eq!(file.is_directory, Some(true));
    let bare = DojoImmutableFileDescriptor {
        description: None,
        path: "Makefile".to_string(),
        is_directory: None,
    };
    assert_ne!(bare, file);
}
