use manhuagui::names::{archive_name, sanitize};

#[test]
fn test_re_illegal_chars() {
    let input = "file/name";
    let output = sanitize(input);
    assert_eq!(output, "file_name");

    let input = "file:name";
    let output = sanitize(input);
    assert_eq!(output, "file_name");

    let input = "file*name";
    let output = sanitize(input);
    assert_eq!(output, "file_name");

    let input = "file?name";
    let output = sanitize(input);
    assert_eq!(output, "file_name");

    let input = "file\"name";
    let output = sanitize(input);
    assert_eq!(output, "file_name");

    let input = "file<name>";
    let output = sanitize(input);
    assert_eq!(output, "file_name_");

    let input = "file|name";
    let output = sanitize(input);
    assert_eq!(output, "file_name");

    let input = "file<name>test*value?";
    let output = sanitize(input);
    assert_eq!(output, "file_name_test_value_");

    let input = "valid-file_name.txt";
    let output = sanitize(input);
    assert_eq!(output, "valid-file_name.txt");
}

#[test]
fn test_path_safety_with_illegal_chars() {
    let title = "Path/To/Comic";
    let safe_title = sanitize(title);
    assert_eq!(safe_title, "Path_To_Comic");
    assert!(!safe_title.contains("/"));

    let chapter = "Chapter:1:Part:2";
    let safe_chapter = sanitize(chapter);
    assert_eq!(safe_chapter, "Chapter_1_Part_2");
    assert!(!safe_chapter.contains(":"));

    let mixed = "Comic<2024>*Special*|Version";
    let safe_mixed = sanitize(mixed);
    assert_eq!(safe_mixed, "Comic_2024__Special__Version");
    assert!(!safe_mixed.contains("<"));
    assert!(!safe_mixed.contains(">"));
    assert!(!safe_mixed.contains("*"));
    assert!(!safe_mixed.contains("|"));

    let forbidden = "file/name:test*value?data\"test<name>file|data";
    let safe_name = sanitize(forbidden);
    assert!(!safe_name.contains("/"));
    assert!(!safe_name.contains(":"));
    assert!(!safe_name.contains("*"));
    assert!(!safe_name.contains("?"));
    assert!(!safe_name.contains("\""));
    assert!(!safe_name.contains("<"));
    assert!(!safe_name.contains(">"));
    assert!(!safe_name.contains("|"));
}

#[test]
fn sanitizing_twice_is_sanitizing_once() {
    for name in ["", "plain", "a/b:c*d?e\"f<g>h|i", "////", "第一章：開始", "back\\slash", "_"] {
        let once = sanitize(name);
        assert_eq!(sanitize(&once), once);
        assert_eq!(once.chars().count(), name.chars().count());
        assert!(!once.contains(['/', ':', '*', '?', '"', '<', '>', '|']));
    }
    assert_eq!(sanitize("back\\slash"), "back\\slash");
    assert_eq!(sanitize("第一章：開始"), "第一章：開始");
}

#[test]
fn archives_are_named_after_the_chapter() {
    assert_eq!(archive_name("Chapter 1"), "Chapter 1.zip");
    assert_eq!(archive_name("Vol 2: Part 1/2"), "Vol 2_ Part 1_2.zip");
    assert_eq!(archive_name(""), ".zip");
}
