use catbox::classify::{classify_batch, split_existing};
use catbox::extract::{album_url_to_short, catbox_url_to_image_name, extract_image_names};

fn strings(items: &[&str]) -> Vec<String> {
    items.iter().map(|s| s.to_string()) .collect()
}

#[test]
fn classify_three_way() {
    // "." always exists on disk; the URL parses; the last item is neither.
    let items = strings(&[".", "https://example.com/a.png", "not a real uri"]);
    let c = classify_batch(&items);
    assert_eq!(c.files, strings(&["."]));
    assert_eq!(c.urls, strings(&["https://example.com/a.png"]));
    assert_eq!(c.invalid, strings(&["not a real uri"]));
}

#[test]
fn partition_totality_counts() {
    let items = strings(&[
        "nope one",
        "https://a.example/x",
        "nope two",
        ".",
        "..",
        "ftp://b.example/y",
    ]);
    let c = classify_batch(&items);
    assert_eq!(c.files.len() + c.urls.len() + c.invalid.len(), items.len());
    // Order within each class follows the input order.
    assert_eq!(c.files, strings(&[".", ".."]));
    assert_eq!(c.urls, strings(&["https://a.example/x", "ftp://b.example/y"]));
    assert_eq!(c.invalid, strings(&["nope one", "nope two"]));
}

#[test]
fn classify_empty_batch() {
    let items: Vec<String> = Vec::new();
    let c = classify_batch(&items);
    assert!(c.files.is_empty() && c.urls.is_empty() && c.invalid.is_empty());
}

#[test]
fn url_without_scheme_is_invalid() {
    // `url::Url::parse` wants an absolute URL: a bare host is not enough.
    let items = strings(&["example.com/a.png"]);
    let c = classify_batch(&items);
    assert_eq!(c.invalid, strings(&["example.com/a.png"]));
}

#[test]
fn split_existing_two_way() {
    // The ephemeral path does no URL check: a URL is as invalid as noise.
    let items = strings(&[".", "https://example.com/a.png", "not a file"]);
    let (files, rest) = split_existing(&items);
    assert_eq!(files, strings(&["."]));
    assert_eq!(rest, strings(&["https://example.com/a.png", "not a file"]));
}

#[test]
fn extract_file_id_from_url() {
    assert_eq!(
        catbox_url_to_image_name("https://files.catbox.moe/abc123.png"),
        "abc123.png"
    );
}

#[test]
fn extract_file_id_passthrough() {
    assert_eq!(catbox_url_to_image_name("abc123.png"), "abc123.png");
}

#[test]
fn extract_album_id_from_url() {
    assert_eq!(album_url_to_short("https://catbox.moe/c/xyz987"), "xyz987");
}

#[test]
fn extract_album_id_passthrough() {
    assert_eq!(album_url_to_short("xyz987"), "xyz987");
}

#[test]
fn extract_without_scheme() {
    assert_eq!(catbox_url_to_image_name("files.catbox.moe/a.png"), "a.png");
    assert_eq!(album_url_to_short("http://catbox.moe/c/q"), "q");
}

#[test]
fn extract_foreign_url_unchanged() {
    assert_eq!(
        catbox_url_to_image_name("https://example.com/a.png"),
        "https://example.com/a.png"
    );
    assert_eq!(
        album_url_to_short("https://files.catbox.moe/abc123.png"),
        "https://files.catbox.moe/abc123.png"
    );
}

#[test]
fn extract_host_prefix_alone_is_not_enough() {
    // The pattern asks for at least one character after the final slash
    // of the host part.
    assert_eq!(
        catbox_url_to_image_name("https://files.catbox.moe/"),
        "https://files.catbox.moe/"
    );
}

#[test]
fn extract_batch_of_image_names() {
    let items = strings(&["https://files.catbox.moe/a.png", "b.png"]);
    assert_eq!(extract_image_names(&items), strings(&["a.png", "b.png"]));
}
