use apod_og::parser::{
    extract_content_link, get_full_url, resolve_html, resolve_link, ContentLink, ResolveError,
};

const IMAGE_PAGE: &str = r##"<!doctype html>
<html>
<head>
<title> APOD: 2021 September 12 - Saturn's Rings </title>
</head>
<body bgcolor="#F4F4FF" text="#000000" link="#0000FF" vlink="#7F0F9F">
<center>
<h1> Astronomy Picture of the Day </h1>
<p>
<a href="archivepix.html">Discover the cosmos!</a>
<p>
2021 September 12
<br>
<a href="image/2109/saturn2004to2015_peach.jpg">
<IMG SRC="image/2109/saturn2004to2015_peach_960.jpg"
alt="Saturn's rings as the seasons change" style="max-width:100%"></a>
</center>
</body>
</html>
"##;

const VIDEO_PAGE: &str = r##"<!doctype html>
<html>
<head>
<title> APOD: 2021 September 19 - Flight Over Mars </title>
</head>
<body>
<center>
<h1> Astronomy Picture of the Day </h1>
<p>
<a href="archivepix.html">Discover the cosmos!</a>
<p>
2021 September 19
<br>
<iframe width="960" height="540"
 src="https://www.youtube.com/embed/ImVl_TfTFEY?rel=0"
 frameborder="0" allowfullscreen></iframe>
</center>
<center>
<a href="ap210918.html"><img src="nav_prev.gif" alt="previous"></a>
</center>
</body>
</html>
"##;

const NOT_FOUND_PAGE: &str = r##"<!DOCTYPE HTML PUBLIC "-//IETF//DTD HTML 2.0//EN">
<html><head>
<title>404 Not Found</title>
</head><body>
<h1>Not Found</h1>
<p>The requested URL was not found on this server.</p>
</body></html>
"##;

#[test]
fn test_get_full_url_image() {
    let url_expected =
        "https://apod.nasa.gov/apod/image/2109/saturn2004to2015_peach_960.jpg".to_owned();
    let url_actual = get_full_url(IMAGE_PAGE.as_bytes()).unwrap();

    assert_eq!(url_expected, url_actual);
}

#[test]
fn test_get_full_url_video() {
    let url_expected = "https://img.youtube.com/vi/ImVl_TfTFEY/0.jpg".to_owned();
    let url_actual = get_full_url(VIDEO_PAGE.as_bytes()).unwrap();

    assert_eq!(url_expected, url_actual);
}

#[test]
fn test_get_full_url_404() {
    let url_expected = "https://img.youtube.com/vi/7w8HlfC5Mb8/0.jpg".to_owned();
    let url_actual = get_full_url(NOT_FOUND_PAGE.as_bytes()).unwrap();

    assert_eq!(url_expected, url_actual);
}

#[test]
fn watch_link_in_frame_resolves_to_thumbnail() {
    let html = r#"<html><body><iframe src="https://www.youtube.com/watch?v=ImVl_TfTFEY"></iframe></body></html>"#;
    assert_eq!(resolve_html(html), "https://img.youtube.com/vi/ImVl_TfTFEY/0.jpg");
}

#[test]
fn video_takes_priority_over_image() {
    let html = r#"<html><body><a href="x"><img src="pic.jpg"></a><iframe src="https://youtu.be/abcdefghijk"></iframe></body></html>"#;
    assert_eq!(resolve_html(html), "https://img.youtube.com/vi/abcdefghijk/0.jpg");
}

#[test]
fn unrecognised_video_link_falls_back() {
    let html = r#"<html><body><iframe src="https://player.vimeo.com/video/12345"></iframe></body></html>"#;
    assert_eq!(resolve_html(html), "https://img.youtube.com/vi/7w8HlfC5Mb8/0.jpg");
}

#[test]
fn image_outside_link_is_not_found() {
    let html = r#"<html><body><p><img src="pic.jpg"></p></body></html>"#;
    assert!(matches!(extract_content_link(html), ContentLink::NotFound));
    assert_eq!(resolve_html(html), "https://img.youtube.com/vi/7w8HlfC5Mb8/0.jpg");
}

#[test]
fn frame_without_source_yields_to_image() {
    let html = r#"<html><body><iframe></iframe><a href="x"><img src="pic.jpg"></a></body></html>"#;
    assert_eq!(resolve_html(html), "https://apod.nasa.gov/apod/pic.jpg");
}

#[test]
fn first_image_in_document_order_wins() {
    let html = r#"<html><body><a href="x"><img src="first.jpg"></a><a href="y"><img src="second.jpg"></a></body></html>"#;
    match extract_content_link(html) {
        ContentLink::Image(src) => assert_eq!(src, "first.jpg"),
        _ => panic!("expected an image"),
    }
}

#[test]
fn resolve_link_of_each_kind() {
    assert_eq!(
        resolve_link(&ContentLink::Image("image/a.png".to_owned())),
        "https://apod.nasa.gov/apod/image/a.png"
    );
    assert_eq!(
        resolve_link(&ContentLink::Video("https://youtu.be/ImVl_TfTFEY".to_owned())),
        "https://img.youtube.com/vi/ImVl_TfTFEY/0.jpg"
    );
    assert_eq!(
        resolve_link(&ContentLink::Video("not a video".to_owned())),
        "https://img.youtube.com/vi/7w8HlfC5Mb8/0.jpg"
    );
    assert_eq!(
        resolve_link(&ContentLink::NotFound),
        "https://img.youtube.com/vi/7w8HlfC5Mb8/0.jpg"
    );
}

#[test]
fn bytes_that_are_not_text_are_refused() {
    assert_eq!(get_full_url(&[0x3c, 0xff, 0xfe, 0x3e]), Err(ResolveError::NotText));
}

#[test]
fn resolving_twice_gives_the_same_url() {
    let first = get_full_url(VIDEO_PAGE.as_bytes());
    let second = get_full_url(VIDEO_PAGE.as_bytes());
    assert_eq!(first, second);
    let first = get_full_url(IMAGE_PAGE.as_bytes());
    let second = get_full_url(IMAGE_PAGE.as_bytes());
    assert_eq!(first, second);
}
