use ukv::header::{find_conditional, find_conditional_in, leftover_error, ExpandedHeaderSource};
use ukv::DataStoreError;

#[test]
fn an_empty_header_is_fully_expanded() {
    assert_eq!(find_conditional(b""), None);
    assert!(ExpandedHeaderSource::new(Vec::new()).is_ok());
}

#[test]
fn plain_declarations_are_fully_expanded() {
    let text = b"typedef void* ukv_database_t;\nvoid ukv_database_free(ukv_database_t);\n";
    assert_eq!(find_conditional(text), None);
    let header = ExpandedHeaderSource::new(text.to_vec()).expect("no directive is left");
    assert_eq!(header.text().as_slice(), &text[..]);
}

#[test]
fn line_markers_and_other_directives_are_accepted() {
    let text = b"# 1 \"wrapper.h\"\n# 1 \"<built-in>\" 1\n#pragma once\n#include <stddef.h>\n#define X 1\n#line 7\n#\n";
    assert_eq!(find_conditional(text), None);
}

#[test]
fn each_conditional_directive_is_found() {
    for word in ["if", "ifdef", "ifndef", "elif", "else", "endif"] {
        let text = format!("int a;\n#{word} X\nint b;\n");
        assert_eq!(find_conditional(text.as_bytes()), Some(7), "#{word}");
        let bare = format!("#{word}");
        assert_eq!(find_conditional(bare.as_bytes()), Some(0), "#{word} at the end");
    }
}

#[test]
fn blanks_around_the_hash_do_not_hide_a_directive() {
    assert_eq!(find_conditional(b"  #if 1\n"), Some(0));
    assert_eq!(find_conditional(b"\t#\t ifdef A\n"), Some(0));
    assert_eq!(find_conditional(b"x\n \t # \t endif"), Some(2));
    assert_eq!(find_conditional(b"#if(1)\n"), Some(0));
    assert_eq!(find_conditional(b"#else//\n"), Some(0));
}

#[test]
fn longer_words_are_not_conditionals() {
    assert_eq!(find_conditional(b"#iffy\n#ifdefined\n#elsewhere\n#endif_\n#if0\n#IF\n#Ifdef\n"), None);
    assert_eq!(find_conditional(b"#i\n#e\n#el\n#els\n#end\n#ifn\n#ifnde\n"), None);
}

#[test]
fn a_hash_in_the_middle_of_a_line_is_no_directive() {
    assert_eq!(find_conditional(b"int a; #if 1\n"), None);
    assert_eq!(find_conditional(b"char* s = \"\\n#if\";\n"), None);
    assert_eq!(find_conditional(b"a\r#if\n"), None);
}

#[test]
fn the_first_of_several_directives_is_reported() {
    let text = b"int a;\nint b;\n#ifndef G\n#define G\n#endif\n";
    assert_eq!(find_conditional(text), Some(14));
    assert_eq!(find_conditional(b"\n\n\n#endif\n#if\n"), Some(3));
}

#[test]
fn a_leftover_directive_fails_expansion_with_its_offset() {
    let text = b"int a;\n#ifdef __cplusplus\nextern \"C\" {\n#endif\n".to_vec();
    let result = ExpandedHeaderSource::new(text);
    assert_eq!(
        result,
        Err(DataStoreError::Preprocess("conditional directive left at byte 7".to_string()))
    );
    assert_eq!(
        leftover_error(0),
        DataStoreError::Preprocess("conditional directive left at byte 0".to_string())
    );
    assert_eq!(
        leftover_error(1234),
        DataStoreError::Preprocess("conditional directive left at byte 1234".to_string())
    );
}

#[test]
fn offsets_in_a_string_count_bytes() {
    assert_eq!(find_conditional_in("// \u{e9}\u{e9}\n#if 1\n"), Some(8));
    assert_eq!(find_conditional_in("int a;\n"), None);
    assert_eq!(find_conditional_in(""), None);
}
