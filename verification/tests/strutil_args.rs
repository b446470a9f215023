use catbox::args::{resolve_user_hash, valid_hour};
use catbox::file::from_file;
use catbox::helper::file_name;
use catbox::litter::upload;
use catbox::strutil::{join_with_space, parse_u8_dec, segment_after_last_slash, u8_to_dec_string};

fn strings(items: &[&str]) -> Vec<String> {
    items.iter().map(|s| s.to_string()).collect()
}

#[test]
fn valid_hours_accepted() {
    assert_eq!(valid_hour("1"), Ok(1));
    assert_eq!(valid_hour("12"), Ok(12));
    assert_eq!(valid_hour("24"), Ok(24));
    assert_eq!(valid_hour("72"), Ok(72));
}

#[test]
fn invalid_hour_value_rejected() {
    assert_eq!(
        valid_hour("5"),
        Err("5 is not a valid value (Options: 1, 12, 24, 72".to_string())
    );
}

#[test]
fn unreadable_hour_rejected() {
    assert_eq!(valid_hour("abc"), Err("abc is not a valid number".to_string()));
    assert_eq!(valid_hour(""), Err(" is not a valid number".to_string()));
    assert_eq!(valid_hour("-1"), Err("-1 is not a valid number".to_string()));
    // A value beyond a byte does not read as a number at all.
    assert_eq!(valid_hour("300"), Err("300 is not a valid number".to_string()));
}

#[test]
fn hour_with_sign_and_zeroes() {
    assert_eq!(valid_hour("+12"), Ok(12));
    assert_eq!(valid_hour("012"), Ok(12));
}

#[test]
fn parse_u8_bounds() {
    assert_eq!(parse_u8_dec("0"), Some(0));
    assert_eq!(parse_u8_dec("255"), Some(255));
    assert_eq!(parse_u8_dec("256"), None);
    assert_eq!(parse_u8_dec("+7"), Some(7));
    assert_eq!(parse_u8_dec("+"), None);
    assert_eq!(parse_u8_dec("1 2"), None);
}

#[test]
fn render_u8() {
    assert_eq!(u8_to_dec_string(0), "0");
    assert_eq!(u8_to_dec_string(7), "7");
    assert_eq!(u8_to_dec_string(72), "72");
    assert_eq!(u8_to_dec_string(255), "255");
}

#[test]
fn join_space_values() {
    assert_eq!(join_with_space(&Vec::new()), "");
    assert_eq!(join_with_space(&strings(&["a"])), "a");
    assert_eq!(join_with_space(&strings(&["a", "b", "c"])), "a b c");
}

#[test]
fn last_path_segment() {
    assert_eq!(segment_after_last_slash("a/b/c.png"), "c.png");
    assert_eq!(segment_after_last_slash("noslash"), "noslash");
    assert_eq!(segment_after_last_slash("trailing/"), "");
}

#[test]
fn file_name_strips_directories() {
    assert_eq!(file_name("dir/sub/file.txt"), "file.txt");
    assert_eq!(file_name("file.txt"), "file.txt");
}

#[test]
fn file_name_ignores_path_tail() {
    // Trailing separators and `.` components do not hide the name.
    assert_eq!(file_name("some/dir/"), "dir");
    assert_eq!(file_name("a/b/."), "b");
    assert_eq!(file_name("a//b"), "b");
    assert_eq!(file_name("a/./."), "a");
    assert_eq!(file_name("a."), "a.");
}

#[test]
fn file_name_empty_when_no_component() {
    assert_eq!(file_name(""), "");
    assert_eq!(file_name("/"), "");
    assert_eq!(file_name("."), "");
    assert_eq!(file_name(".."), "");
    assert_eq!(file_name("a/b/.."), "");
}

#[test]
fn file_name_agrees_with_std() {
    // The contract promises std's reading of the final path component,
    // with the empty string where std has no name to give.
    let cases = [
        "dir/sub/file.txt",
        "file.txt",
        "some/dir/",
        "a/b/.",
        "a//b",
        "a/./.",
        "a.",
        "a..",
        "a/...",
        "",
        "/",
        ".",
        "..",
        "a/b/..",
        "./b",
        "/absolute/path.png",
        "/.",
        "/..",
        "..a",
    ];
    for p in cases {
        let expected = std::path::Path::new(p)
            .file_name()
            .map(|n| n.to_str().unwrap().to_string())
            .unwrap_or_default();
        assert_eq!(file_name(p), expected, "path {:?}", p);
    }
}

#[test]
fn resolve_user_hash_order() {
    assert_eq!(
        resolve_user_hash(Some("flag".to_string()), Some("env".to_string())),
        Some("flag".to_string())
    );
    assert_eq!(resolve_user_hash(None, Some("env".to_string())), Some("env".to_string()));
    assert_eq!(resolve_user_hash(None, None), None);
}

#[test]
fn from_file_request_parts() {
    let r = from_file("dir/x.txt".to_string(), Some("u".to_string()));
    assert_eq!(r.fields.len(), 2);
    assert_eq!(r.fields[0].name, "reqtype");
    assert_eq!(r.fields[0].value, "fileupload");
    assert_eq!(r.fields[1].name, "userhash");
    assert_eq!(r.fields[1].value, "u");
    assert_eq!(r.file_part, "fileToUpload");
    assert_eq!(r.file_path, "dir/x.txt");
    assert_eq!(r.file_name, "x.txt");
}

#[test]
fn litter_request_time_field() {
    let r = upload("f.txt".to_string(), 12);
    assert_eq!(r.fields[0].name, "reqtype");
    assert_eq!(r.fields[0].value, "fileupload");
    assert_eq!(r.fields[1].name, "time");
    assert_eq!(r.fields[1].value, "12h");
    assert_eq!(r.file_name, "f.txt");
}
