use catbox::args::{
    Album, AlbumAdd, AlbumCommand, AlbumCreate, AlbumDelete, AlbumEdit, AlbumRemove, Delete,
    Litter, Upload,
};
use catbox::commands::{
    add_to_album_request, album_request, create_album_request, delete_album_request,
    delete_request, edit_album_request, plan_litter, plan_upload, remove_from_album_request,
};
use catbox::form::FormField;

fn strings(items: &[&str]) -> Vec<String> {
    items.iter().map(|s| s.to_string()).collect()
}

fn pairs(form: &[FormField]) -> Vec<(String, String)> {
    form.iter().map(|f| (f.name.clone(), f.value.clone())).collect()
}

fn owned(entries: &[(&str, &str)]) -> Vec<(String, String)> {
    entries.iter().map(|(n, v)| (n.to_string(), v.to_string())).collect()
}

#[test]
fn upload_scenario_three_lines() {
    // One existing path, one URL, one piece of noise: three outcome
    // lines, one per item, whatever order the responses arrive in.
    let args = Upload {
        user_hash: Some("123345".to_string()),
        files: strings(&[".", "https://example.com/a.png", "not a real uri"]),
    };
    let mut plan = plan_upload(args, None);
    assert_eq!(plan.user, Some("123345".to_string()));
    assert_eq!(plan.files.items, strings(&["."]));
    assert_eq!(plan.urls.items, strings(&["https://example.com/a.png"]));
    assert_eq!(plan.invalid.items, strings(&["not a real uri"]));

    let mut lines: Vec<String> = Vec::new();
    // The stub remote client answers both uploads with fixed strings.
    let i = plan.files.try_launch().unwrap();
    lines.push(plan.files.complete(i, Some("https://catbox.moe/file.txt".to_string())));
    let i = plan.urls.try_launch().unwrap();
    lines.push(plan.urls.complete(i, Some("https://catbox.moe/file.png".to_string())));
    let i = plan.invalid.try_launch().unwrap();
    lines.push(plan.invalid.complete(i, None));
    assert!(plan.files.is_done() && plan.urls.is_done() && plan.invalid.is_done());

    let mut expected = strings(&[
        "https://catbox.moe/file.txt",
        "https://catbox.moe/file.png",
        "Ignoring not a real uri: not a file or valid URL",
    ]);
    lines.sort();
    expected.sort();
    assert_eq!(lines, expected);
}

#[test]
fn upload_failure_keeps_other_lines() {
    let args = Upload {
        user_hash: None,
        files: strings(&["https://a.example/1", "https://a.example/2", "https://a.example/3"]),
    };
    let mut plan = plan_upload(args, Some("env-hash".to_string()));
    assert_eq!(plan.user, Some("env-hash".to_string()));
    assert_eq!(plan.urls.items.len(), 3);
    let i1 = plan.urls.try_launch().unwrap();
    let i2 = plan.urls.try_launch().unwrap();
    let i3 = plan.urls.try_launch().unwrap();
    plan.urls.complete(i1, Some("one".to_string()));
    plan.urls.complete(i2, None);
    plan.urls.complete(i3, Some("three".to_string()));
    let mut lines = plan.urls.outcomes.clone();
    lines.sort();
    let mut expected = strings(&["one", "three", "Uploading https://a.example/2 failed."]);
    expected.sort();
    assert_eq!(lines, expected);
}

#[test]
fn litter_plan_reaches_the_stub() {
    // A structurally valid ephemeral upload: the one existing item is
    // launched and handed to the (stubbed) remote call.
    let args = Litter { time: Some(1), files: strings(&["."]) };
    let mut plan = plan_litter(args);
    assert_eq!(plan.time, 1);
    assert_eq!(plan.files.items, strings(&["."]));
    let i = plan.files.try_launch().expect("the item must reach the remote call");
    let line = plan.files.complete(i, Some("https://litter.catbox.moe/x.txt".to_string()));
    assert_eq!(line, "https://litter.catbox.moe/x.txt");
    assert!(plan.files.is_done());
}

#[test]
fn litter_time_defaults_to_one_hour() {
    let plan = plan_litter(Litter { time: None, files: Vec::new() });
    assert_eq!(plan.time, 1);
}

#[test]
fn litter_split_ignores_urls() {
    let args = Litter {
        time: Some(12),
        files: strings(&["https://example.com/a.png", "."]),
    };
    let mut plan = plan_litter(args);
    assert_eq!(plan.files.items, strings(&["."]));
    assert_eq!(plan.invalid.items, strings(&["https://example.com/a.png"]));
    let i = plan.invalid.try_launch().unwrap();
    let line = plan.invalid.complete(i, None);
    assert_eq!(line, "Ignoring https://example.com/a.png: not a file or valid URL");
}

#[test]
fn delete_files_request() {
    let args = Delete {
        user_hash: Some("123345".to_string()),
        files: strings(&["https://files.catbox.moe/file.png", "another.jpg"]),
    };
    let form = delete_request(args, None);
    assert_eq!(
        pairs(&form),
        owned(&[
            ("reqtype", "deletefiles"),
            ("userhash", "123345"),
            ("files", "file.png another.jpg"),
        ])
    );
}

#[test]
fn delete_request_user_falls_back_to_env_then_empty() {
    let args = Delete { user_hash: None, files: strings(&["a.png"]) };
    let form = delete_request(args, Some("from-env".to_string()));
    assert_eq!(form[1].value, "from-env");
    let args = Delete { user_hash: None, files: strings(&["a.png"]) };
    let form = delete_request(args, None);
    assert_eq!(form[1].value, "");
}

#[test]
fn album_create_request() {
    let args = AlbumCreate {
        title: "My album".to_string(),
        description: Some("A description".to_string()),
        user_hash: Some("123345".to_string()),
        files: strings(&["file.png", "another.jpg"]),
    };
    let form = create_album_request(args, None);
    assert_eq!(
        pairs(&form),
        owned(&[
            ("reqtype", "createalbum"),
            ("userhash", "123345"),
            ("title", "My album"),
            ("desc", "A description"),
            ("files", "file.png another.jpg"),
        ])
    );
}

#[test]
fn album_create_defaults() {
    let args = AlbumCreate {
        title: "t".to_string(),
        description: None,
        user_hash: None,
        files: strings(&["a"]),
    };
    let form = create_album_request(args, None);
    assert_eq!(form[1].value, "");
    assert_eq!(form[3].value, "");
}

#[test]
fn album_edit_request_replaces_contents() {
    // Edit is a full replacement: the form carries exactly the files
    // given, not a merge with what the album held before.
    let args = AlbumEdit {
        short: "asd123".to_string(),
        title: "My Album".to_string(),
        description: Some("A description".to_string()),
        user_hash: Some("123345".to_string()),
        files: strings(&["file.png", "another.jpg"]),
    };
    let form = edit_album_request(args, None);
    assert_eq!(
        pairs(&form),
        owned(&[
            ("reqtype", "editalbum"),
            ("userhash", "123345"),
            ("short", "asd123"),
            ("title", "My Album"),
            ("desc", "A description"),
            ("files", "file.png another.jpg"),
        ])
    );
}

#[test]
fn album_add_request() {
    let args = AlbumAdd {
        short: "123asd".to_string(),
        user_hash: Some("123345".to_string()),
        files: strings(&["file.png"]),
    };
    let form = add_to_album_request(args, None);
    assert_eq!(
        pairs(&form),
        owned(&[
            ("reqtype", "addtoalbum"),
            ("short", "123asd"),
            ("userhash", "123345"),
            ("files", "file.png"),
        ])
    );
}

#[test]
fn album_remove_request() {
    let args = AlbumRemove {
        short: "123asd".to_string(),
        user_hash: Some("123345".to_string()),
        files: strings(&["file.png"]),
    };
    let form = remove_from_album_request(args, None);
    assert_eq!(
        pairs(&form),
        owned(&[
            ("reqtype", "removefromalbum"),
            ("userhash", "123345"),
            ("short", "123asd"),
            ("files", "file.png"),
        ])
    );
}

#[test]
fn album_delete_request() {
    let args = AlbumDelete { user_hash: Some("123345".to_string()), short: "asd123".to_string() };
    let form = delete_album_request(args, None);
    assert_eq!(
        pairs(&form),
        owned(&[("reqtype", "deletealbum"), ("userhash", "123345"), ("short", "asd123")])
    );
}

#[test]
fn album_request_routes_subcommands() {
    let args = Album {
        album_command: AlbumCommand::Delete(AlbumDelete {
            user_hash: None,
            short: "https://catbox.moe/c/xyz987".to_string(),
        }),
    };
    let form = album_request(args, Some("env-user".to_string()));
    assert_eq!(
        pairs(&form),
        owned(&[("reqtype", "deletealbum"), ("userhash", "env-user"), ("short", "xyz987")])
    );
}
