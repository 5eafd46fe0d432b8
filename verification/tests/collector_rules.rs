use carrier::SourceFile;
use carrier::XnError;
use carrier::has_xn_extension;
use carrier::merge_files;
use carrier::select_xn_files;

#[test]
fn extension_rule_matches_only_real_xn_files() {
    assert!(has_xn_extension("main.xn"));
    assert!(has_xn_extension("src/deep/dir/mod.xn"));
    assert!(has_xn_extension("a.b.xn"));
    assert!(!has_xn_extension("main.rs"));
    assert!(!has_xn_extension("main.xnn"));
    assert!(!has_xn_extension("mainxn"));
    assert!(!has_xn_extension(".xn"));
    assert!(!has_xn_extension("src/.xn"));
    assert!(!has_xn_extension(""));
}

#[test]
fn selecting_from_an_empty_walk_yields_an_empty_set() {
    let gathered = select_xn_files(&Vec::new());
    assert!(gathered.is_empty());
}

#[test]
fn selection_keeps_matches_in_walk_order() {
    let walked = vec![
        String::from("src/b.xn"),
        String::from("src/readme.md"),
        String::from("src/a.xn"),
        String::from("src/.xn"),
        String::from("src/nested/c.xn"),
    ];
    let gathered = select_xn_files(&walked);
    assert_eq!(
        gathered,
        vec![
            String::from("src/b.xn"),
            String::from("src/a.xn"),
            String::from("src/nested/c.xn"),
        ]
    );
}

#[test]
fn merging_an_empty_set_is_refused() {
    let err = merge_files(&Vec::new()).unwrap_err();
    assert_eq!(err, XnError::EmptyInput);
}

#[test]
fn merged_output_carries_marker_then_verbatim_contents_in_order() {
    let files = vec![
        SourceFile {
            path: String::from("src/a.xn"),
            contents: String::from("fn a() -> i32 { return 1; }\n"),
        },
        SourceFile {
            path: String::from("src/b.xn"),
            contents: String::from("fn b() -> i32 { return 2; }\n"),
        },
    ];
    let merged = merge_files(&files).unwrap();
    assert_eq!(
        merged,
        "// Start of file: src/a.xn\nfn a() -> i32 { return 1; }\n\n// Start of file: src/b.xn\nfn b() -> i32 { return 2; }\n\n"
    );
}

#[test]
fn merging_one_file_keeps_its_text_verbatim() {
    let files = vec![SourceFile {
        path: String::from("only.xn"),
        contents: String::from("fn main() -> i32 { return 0; }"),
    }];
    let merged = merge_files(&files).unwrap();
    assert_eq!(
        merged,
        "// Start of file: only.xn\nfn main() -> i32 { return 0; }\n"
    );
}
