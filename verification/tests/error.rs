use ukv::DataStoreError;

#[test]
fn unknown_error_has_its_fixed_text() {
    let e = DataStoreError::Unknown;
    assert_eq!(e.message(), "unknown data store error");
    assert_eq!(e.detail(), "");
    assert!(!e.is_build_time());
}

#[test]
fn each_error_is_rendered_with_its_heading_and_text() {
    assert_eq!(
        DataStoreError::Build("cmake: not found".to_string()).message(),
        "native build failed: cmake: not found"
    );
    assert_eq!(
        DataStoreError::Preprocess("wrapper.h: No such file".to_string()).message(),
        "header expansion failed: wrapper.h: No such file"
    );
    assert_eq!(
        DataStoreError::BindingGeneration("unknown type".to_string()).message(),
        "binding generation failed: unknown type"
    );
    assert_eq!(
        DataStoreError::Initialization("bad config".to_string()).message(),
        "database initialization failed: bad config"
    );
}

#[test]
fn the_carried_text_comes_back_unchanged() {
    let text = "line one\nline two\t\u{e9}\n";
    assert_eq!(DataStoreError::Build(text.to_string()).detail(), text);
    assert_eq!(DataStoreError::Preprocess(text.to_string()).detail(), text);
    assert_eq!(DataStoreError::BindingGeneration(text.to_string()).detail(), text);
    assert_eq!(DataStoreError::Initialization(text.to_string()).detail(), text);
}

#[test]
fn build_time_errors_are_told_apart_from_run_time_errors() {
    assert!(DataStoreError::Build(String::new()).is_build_time());
    assert!(DataStoreError::Preprocess(String::new()).is_build_time());
    assert!(DataStoreError::BindingGeneration(String::new()).is_build_time());
    assert!(!DataStoreError::Initialization(String::new()).is_build_time());
    assert!(!DataStoreError::Unknown.is_build_time());
}

#[test]
fn a_cloned_error_equals_its_source() {
    let errors = vec![
        DataStoreError::Unknown,
        DataStoreError::Build("a".to_string()),
        DataStoreError::Preprocess("b".to_string()),
        DataStoreError::BindingGeneration("c".to_string()),
        DataStoreError::Initialization("d".to_string()),
    ];
    for e in &errors {
        assert_eq!(&e.clone(), e);
    }
    assert_ne!(DataStoreError::Build("a".to_string()), DataStoreError::Preprocess("a".to_string()));
}
