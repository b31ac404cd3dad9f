use webapps::icons::{
    download_favicon, find_icon, find_icons, get_icon_name_from_url, icon_kind, icon_name_for,
    icon_name_from_host, image_handle, is_svg, move_icon, pick_attribute, select_icons,
    try_move_icon, IconAction, IconCandidate, IconType,
};
use webapps::outside::url_valid;

fn candidate(path: &str, content: Option<&str>) -> IconCandidate {
    IconCandidate {
        filename: path.rsplit('/').next().unwrap().to_string(),
        path: path.to_string(),
        content: content.map(|c| c.to_string()),
    }
}

fn svg(width: u32, height: u32) -> String {
    format!(
        "<svg xmlns=\"http://www.w3.org/2000/svg\" width=\"{}\" height=\"{}\">\
         <rect width=\"10\" height=\"10\"/></svg>",
        width, height
    )
}

fn png(width: u32, height: u32) -> Vec<u8> {
    let picture = image::DynamicImage::ImageRgba8(image::RgbaImage::new(width, height));
    let mut data = std::io::Cursor::new(Vec::new());
    picture.write_to(&mut data, image::ImageOutputFormat::Png).unwrap();
    data.into_inner()
}

#[test]
fn url_valid_wants_an_absolute_url() {
    assert!(url_valid("https://example.com"));
    assert!(url_valid("file:///tmp/x.svg"));
    assert!(!url_valid("example.com"));
    assert!(!url_valid("/tmp/x.svg"));
    assert!(!url_valid(""));
}

#[test]
fn is_svg_goes_by_extension_of_paths_only() {
    assert!(is_svg("/icons/app.svg"));
    assert!(is_svg("app.svg"));
    assert!(!is_svg("/icons/app.png"));
    assert!(!is_svg("/icons/app.SVG"));
    assert!(!is_svg("/icons/svg"));
    assert!(!is_svg("https://example.com/app.svg"));
}

#[test]
fn icon_name_is_the_label_before_the_last() {
    assert_eq!(get_icon_name_from_url("https://www.example.com"), "example");
    assert_eq!(get_icon_name_from_url("https://example.com"), "example");
    assert_eq!(get_icon_name_from_url("https://a.b.example.co.uk/x?y"), "co");
    assert_eq!(get_icon_name_from_url("https://127.0.0.1/index.html"), "0");
    assert_eq!(get_icon_name_from_url("ftp://rms@Example.COM"), "example");
}

#[test]
fn icon_name_is_empty_without_a_host() {
    assert_eq!(get_icon_name_from_url("not a url"), "");
    assert_eq!(get_icon_name_from_url(""), "");
    assert_eq!(get_icon_name_from_url("data:text/plain,Stuff"), "");
    assert_eq!(get_icon_name_from_url("unix:/run/foo.socket"), "");
}

#[test]
fn icon_name_for_refuses_a_host_of_one_label() {
    assert_eq!(icon_name_for("https://localhost:8080/"), None);
    assert_eq!(icon_name_for("https://www.example.com"), Some("example".to_string()));
    assert_eq!(icon_name_for("no url"), Some(String::new()));
}

#[test]
fn icon_name_from_host_handles_edge_dots() {
    assert_eq!(icon_name_from_host("www.example.com"), "example");
    assert_eq!(icon_name_from_host("example.com"), "example");
    assert_eq!(icon_name_from_host(".com"), "");
    assert_eq!(icon_name_from_host("a."), "a");
    assert_eq!(icon_name_from_host("a..b"), "");
}

#[test]
fn select_icons_filters_small_vector_images() {
    let candidates = vec![
        candidate("/icons/mail-a.svg", None),
        candidate("/icons/mail-b.svg", None),
        candidate("/icons/mail-c.svg", None),
        candidate("/icons/mail-d.svg", None),
        candidate("/icons/mail-e.png", None),
        candidate("/icons/other.svg", None),
        candidate("/icons/mail-b.svg", None),
    ];
    let sizes = vec![
        Some((63, 64)),
        Some((64, 64)),
        Some((64, 63)),
        None,
        None,
        Some((128, 128)),
        Some((64, 64)),
    ];
    assert_eq!(
        select_icons(&candidates, &sizes, "mail"),
        vec!["/icons/mail-b.svg".to_string(), "/icons/mail-e.png".to_string()]
    );
}

#[test]
fn find_icon_measures_vector_images() {
    let small = svg(63, 64);
    let exact = svg(64, 64);
    let large = svg(512, 256);
    let candidates = vec![
        candidate("/icons/web-small.svg", Some(&small)),
        candidate("/icons/web-exact.svg", Some(&exact)),
        candidate("/icons/web-large.svg", Some(&large)),
        candidate("/icons/web-broken.svg", Some("<svg")),
        candidate("/icons/web-unread.svg", None),
        candidate("/icons/web-raster.png", None),
        candidate("/icons/unrelated.svg", Some(&large)),
    ];
    assert_eq!(
        find_icon(&candidates, "web"),
        vec![
            "/icons/web-exact.svg".to_string(),
            "/icons/web-large.svg".to_string(),
            "/icons/web-raster.png".to_string()
        ]
    );
    assert!(find_icon(&candidates, "nothing").is_empty());
}

const PAGE: &str = "<!DOCTYPE html><html><head><title>t</title>\
<link rel=\"stylesheet\" href=\"/style.css\">\
<link rel=\"icon\" href=\"/favicon.ico\">\
<link href=\"/second.png\" rel=\"icon\" sizes=\"32x32\">\
<link rel=\"icon\">\
<link rel=\"shortcut icon\" href=\"/shortcut.ico\">\
<meta property=\"og:title\" content=\"Title\">\
<meta content=\"https://example.com/preview.png\" property=\"og:image\">\
</head><body><link rel=\"icon\" href=\"/in-body.ico\"><p>text</p></body></html>";

#[test]
fn download_favicon_reads_links_then_metadata() {
    assert_eq!(
        download_favicon(PAGE),
        vec![
            "/favicon.ico".to_string(),
            "/second.png".to_string(),
            "https://example.com/preview.png".to_string()
        ]
    );
}

#[test]
fn download_favicon_of_a_page_without_icons_is_empty() {
    assert!(download_favicon("").is_empty());
    assert!(download_favicon("<html><head><title>x</title></head></html>").is_empty());
    assert!(download_favicon("plain text, no markup").is_empty());
}

#[test]
fn pick_attribute_takes_the_second_where_the_first_matches() {
    let attributes = vec![
        (Some("icon".to_string()), Some("/a".to_string())),
        (Some("Icon".to_string()), Some("/b".to_string())),
        (None, Some("/c".to_string())),
        (Some("icon".to_string()), None),
        (Some("icon".to_string()), Some("/d".to_string())),
    ];
    assert_eq!(pick_attribute(&attributes, "icon"), vec!["/a".to_string(), "/d".to_string()]);
    assert!(pick_attribute(&attributes, "none").is_empty());
}

#[test]
fn find_icons_adds_the_page_only_for_a_valid_url() {
    let large = svg(128, 128);
    let candidates = vec![candidate("/icons/example.svg", Some(&large))];
    assert_eq!(
        find_icons(&candidates, "example", "https://example.com", Some(PAGE)),
        vec![
            "/icons/example.svg".to_string(),
            "/favicon.ico".to_string(),
            "/second.png".to_string(),
            "https://example.com/preview.png".to_string()
        ]
    );
    assert_eq!(
        find_icons(&candidates, "example", "example.com", Some(PAGE)),
        vec!["/icons/example.svg".to_string()]
    );
    assert_eq!(
        find_icons(&candidates, "example", "https://example.com", None),
        vec!["/icons/example.svg".to_string()]
    );
}

#[test]
fn icon_kind_takes_rasters_from_96_on() {
    assert_eq!(icon_kind(false, Some((95, 95))), None);
    assert_eq!(icon_kind(false, Some((96, 96))), Some(IconType::Raster));
    assert_eq!(icon_kind(false, Some((96, 95))), None);
    assert_eq!(icon_kind(false, Some((95, 96))), None);
    assert_eq!(icon_kind(false, Some((4000, 96))), Some(IconType::Raster));
    assert_eq!(icon_kind(false, None), None);
    assert_eq!(icon_kind(true, None), Some(IconType::Svg));
    assert_eq!(icon_kind(true, Some((1, 1))), Some(IconType::Svg));
}

#[test]
fn image_handle_decodes_rasters() {
    assert_eq!(image_handle("/tmp/a.png", &png(95, 95)), None);
    assert_eq!(image_handle("/tmp/a.png", &png(96, 96)), Some(IconType::Raster));
    assert_eq!(image_handle("/tmp/a.png", &png(96, 95)), None);
    assert_eq!(image_handle("/tmp/a.png", &png(300, 200)), Some(IconType::Raster));
    assert_eq!(image_handle("https://example.com/a.svg", &png(96, 96)), Some(IconType::Raster));
}

#[test]
fn image_handle_rejects_what_does_not_decode() {
    assert_eq!(image_handle("/tmp/a.png", &Vec::new()), None);
    assert_eq!(image_handle("/tmp/a.png", &b"not an image".to_vec()), None);
    assert_eq!(image_handle("https://example.com/a.svg", &svg(128, 128).into_bytes()), None);
}

#[test]
fn image_handle_takes_vector_images_unseen() {
    assert_eq!(image_handle("/tmp/a.svg", &Vec::new()), Some(IconType::Svg));
    assert_eq!(image_handle("/tmp/a.svg", &b"anything".to_vec()), Some(IconType::Svg));
}

#[test]
fn move_icon_copies_a_file_under_its_new_name() {
    let m = move_icon("/tmp/pic.png", "My Web App", "/home/u/.local/share/icons");
    assert_eq!(m.save_path, "/home/u/.local/share/icons/MyIcons/MyWebApp.png");
    assert_eq!(m.action, IconAction::Copy);
    let m = move_icon("/tmp/drawing.svg", "Draw", "/home/u/.local/share/icons");
    assert_eq!(m.save_path, "/home/u/.local/share/icons/MyIcons/Draw.svg");
    assert_eq!(m.action, IconAction::Copy);
}

#[test]
fn move_icon_downloads_an_address() {
    let m = move_icon("https://example.com/favicon.ico", "Example", "/i");
    assert_eq!(m.save_path, "/i/MyIcons/Example.ico");
    assert_eq!(m.action, IconAction::Download);
    let m = move_icon("https://example.com/logo.svg", "Example", "/i");
    assert_eq!(m.save_path, "/i/MyIcons/Example.svg");
    assert_eq!(m.action, IconAction::Download);
}

#[test]
fn try_move_icon_wants_an_extension() {
    assert!(try_move_icon("/tmp/pic", "Example", "/i").is_none());
    assert!(try_move_icon("/tmp/.hidden", "Example", "/i").is_none());
    assert!(try_move_icon("https://example/", "Example", "/i").is_none());
    let m = try_move_icon("https://example.com/", "Example", "/i").unwrap();
    assert_eq!(m.save_path, "/i/MyIcons/Example.com");
    assert_eq!(m.action, IconAction::Download);
    let m = try_move_icon("/tmp/pic.jpeg", "Ex ample", "/i").unwrap();
    assert_eq!(m.save_path, "/i/MyIcons/Example.jpeg");
    assert_eq!(m.action, IconAction::Copy);
}

#[test]
fn move_icon_keeps_what_is_already_there() {
    let m = move_icon("/i/MyIcons/Example.png", "Example", "/i");
    assert_eq!(m.save_path, "/i/MyIcons/Example.png");
    assert_eq!(m.action, IconAction::Keep);
    let m = move_icon("/i/MyIcons/Example.png", "Other", "/i");
    assert_eq!(m.action, IconAction::Copy);
}
