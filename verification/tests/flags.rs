use bgit::flags::workflows;

#[test]
fn test_steps_module_access() {
    assert_eq!(
        workflows::default::is_sole_contributor::OVERRIDE_CHECK_FOR_AUTHORS,
        "overrideCheckForAuthors"
    );
}
