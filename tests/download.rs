use demo_up::{filename_from_path, get_filename, DemoUpError};

#[test]
fn get_filename_with_no_default() {
    let expected = "somefile.txt".to_string();
    let actual = get_filename("https://somewhere.com/somefile.txt", "").unwrap();

    assert_eq!(expected, actual);
}

#[test]
fn get_filename_with_default() {
    let expected = "otherfile.txt".to_string();
    let actual = get_filename("https://somewhere.com/somefile.txt", "otherfile.txt").unwrap();

    assert_eq!(expected, actual);
}

#[test]
fn derive_filename_from_the_last_segment() {
    assert_eq!(get_filename("https://x.test/path/to/file.txt", ""), Ok("file.txt".to_string()));
}

#[test]
fn derive_filename_prefers_the_given_name() {
    assert_eq!(
        get_filename("https://x.test/path/to/file.txt", "custom.bin"),
        Ok("custom.bin".to_string())
    );
}

#[test]
fn repository_name_drops_query_and_fragment() {
    assert_eq!(
        get_filename("https://github.com/org/repo?tab=readme#top", ""),
        Ok("repo".to_string())
    );
}

#[test]
fn trailing_slash_gives_an_empty_name() {
    assert_eq!(get_filename("https://x.test/dir/", ""), Ok("".to_string()));
}

#[test]
fn url_that_cannot_be_a_base_gives_an_empty_name() {
    assert_eq!(get_filename("mailto:someone@x.test", ""), Ok("".to_string()));
}

#[test]
fn unparsable_url_is_an_error() {
    assert_eq!(get_filename("not a url", ""), Err(DemoUpError::InvalidUrl));
    assert_eq!(get_filename("not a url", "name.txt"), Err(DemoUpError::InvalidUrl));
}

#[test]
fn filename_from_a_path() {
    assert_eq!(filename_from_path("/a/b/c.pdf", ""), "c.pdf");
    assert_eq!(filename_from_path("/c.pdf", ""), "c.pdf");
    assert_eq!(filename_from_path("/", ""), "");
    assert_eq!(filename_from_path("opaque", ""), "");
    assert_eq!(filename_from_path("/a/b/c.pdf", "given"), "given");
}
