use oxidebot::source::file::FileError;
use oxidebot::source::message::File;

#[test]
fn file_from_url_takes_last_segment_and_guesses_type() {
    let f = File::from_url_response("https://example.com/files/photo.png", Some("1234"), Some("text/plain"))
        .unwrap();
    assert_eq!(f.name, "photo.png");
    assert_eq!(f.mime.as_deref(), Some("image/png"));
    assert_eq!(f.size, Some(1234));
    assert_eq!(f.uri.as_deref(), Some("https://example.com/files/photo.png"));
    assert_eq!(f.id, None);
    assert_eq!(f.base64, None);
}

#[test]
fn file_from_url_falls_back_to_content_type() {
    let f = File::from_url_response("https://example.com/download", Some("abc"), Some("text/plain")).unwrap();
    assert_eq!(f.name, "download");
    assert_eq!(f.mime.as_deref(), Some("text/plain"));
    assert_eq!(f.size, None);
    let g = File::from_url_response("https://example.com", None, None).unwrap();
    assert_eq!(g.name, "");
    assert_eq!(g.uri.as_deref(), Some("https://example.com/"));
    assert_eq!(g.mime, None);
}

#[test]
fn file_from_url_ignores_unparseable_content_type() {
    let f = File::from_url_response("https://example.com/blob", None, Some("not a media type")).unwrap();
    assert_eq!(f.mime, None);
}

#[test]
fn file_from_url_rejects_non_urls() {
    assert_eq!(File::from_url_response("not a url", None, None).unwrap_err(), FileError::InvalidUrl);
}

#[test]
fn file_from_path() {
    let f = File::from_path_metadata("/tmp/docs/report.pdf", 10).unwrap();
    assert_eq!(f.name, "report.pdf");
    assert_eq!(f.mime.as_deref(), Some("application/pdf"));
    assert_eq!(f.size, Some(10));
    assert_eq!(f.uri.as_deref(), Some("/tmp/docs/report.pdf"));
    assert_eq!(File::from_path_metadata("/tmp/a b", 1).unwrap_err(), FileError::InvalidUri);
}
