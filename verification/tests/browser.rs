use webapps::browser::{get_supported_browsers, Browser, BrowserType, Probe};

fn firefox() -> Browser {
    Browser::new(BrowserType::Firefox, "Firefox", "/usr/bin/firefox", "/usr/bin/firefox", "/home/u")
}

fn chromium() -> Browser {
    Browser::new(
        BrowserType::Chromium,
        "Chromium",
        "/usr/bin/chromium",
        "/usr/bin/chromium",
        "/home/u",
    )
}

#[test]
fn new_keeps_plain_paths() {
    let b = firefox();
    assert_eq!(b._type, BrowserType::Firefox);
    assert_eq!(b.name, "Firefox");
    assert_eq!(b.executable, "/usr/bin/firefox");
    assert_eq!(b.test, "/usr/bin/firefox");
}

#[test]
fn new_moves_data_home_paths_below_home() {
    let b = Browser::new(
        BrowserType::FirefoxFlatpak,
        "Firefox (User Flatpak)",
        ".local/share/flatpak/exports/bin/org.mozilla.firefox",
        ".local/share/flatpak/app/org.mozilla.firefox",
        "/home/u",
    );
    assert_eq!(b.executable, "/home/u/.local/share/flatpak/exports/bin/org.mozilla.firefox");
    assert_eq!(b.test, "/home/u/.local/share/flatpak/app/org.mozilla.firefox");
}

#[test]
fn new_expands_the_leading_marker_only() {
    let b = Browser::new(
        BrowserType::Chromium,
        "Odd",
        ".local/share/a/.local/share/b",
        "x/.local/share/y",
        "/home/u",
    );
    assert_eq!(b.executable, "/home/u/.local/share/a/.local/share/b");
    assert_eq!(b.test, "x/.local/share/y");
}

#[test]
fn new_without_home_resolves_relative() {
    let b = Browser::new(BrowserType::Falkon, "Falkon", ".local/share/bin/falkon", "", "");
    assert_eq!(b.executable, ".local/share/bin/falkon");
    assert_eq!(b.test, "");
}

#[test]
fn new_keeps_a_path_that_only_resembles_the_marker() {
    let make = |test: &str| Browser::new(BrowserType::Firefox, "F", test, test, "/home/u");
    for path in [".local/share", ".local/shared/x", ".local/sharex/.local/share/y", "/usr/bin/f", ""] {
        assert_eq!(make(path).test, path);
        assert_eq!(make(path).executable, path);
    }
    assert_eq!(make(".local/share/x").test, "/home/u/.local/share/x");
    assert_eq!(make(".local/share/").test, "/home/u/.local/share/");
    assert_eq!(make(".local/share//opt/x").executable, "/opt/x");
}

#[test]
fn is_installed_is_false_for_the_placeholder_only() {
    assert!(firefox().is_installed());
    assert!(chromium().is_installed());
    let none = Browser::new(BrowserType::NoBrowser, "Select browser", "", "", "/home/u");
    assert!(!none.is_installed());
}

#[test]
fn supported_browsers_start_with_the_placeholder() {
    let browsers = get_supported_browsers(&Vec::new());
    assert_eq!(browsers.len(), 1);
    assert_eq!(browsers[0]._type, BrowserType::NoBrowser);
    assert_eq!(browsers[0].name, "Select browser");
    assert_eq!(browsers[0].executable, "");
    assert_eq!(browsers[0].test, "");
}

#[test]
fn supported_browsers_keep_what_was_found_in_order() {
    let falkon = Browser::new(BrowserType::Falkon, "Falkon", "/usr/bin/falkon", "/usr/bin/falkon", "");
    let candidates = vec![
        (firefox(), Probe::Found),
        (chromium(), Probe::Missing),
        (falkon.clone(), Probe::Failed),
        (chromium(), Probe::Found),
    ];
    let browsers = get_supported_browsers(&candidates);
    let names: Vec<&str> = browsers.iter().map(|b| b.name.as_str()).collect();
    assert_eq!(names, vec!["Select browser", "Firefox", "Chromium"]);
    assert_eq!(browsers[1], firefox());
    assert_eq!(browsers[2], chromium());
}

#[test]
fn web_browser_finds_the_first_of_that_name() {
    let other = Browser::new(BrowserType::Chromium, "Firefox", "/opt/other", "/opt/other", "");
    let installed = vec![chromium(), firefox(), other];
    let found = Browser::web_browser("Firefox", &installed);
    assert_eq!(found, Some(firefox()));
    assert_eq!(Browser::web_browser("Chromium", &installed), Some(chromium()));
}

#[test]
fn web_browser_finds_nothing_for_an_unknown_name() {
    let installed = vec![chromium(), firefox()];
    assert_eq!(Browser::web_browser("Falkon", &installed), None);
    assert_eq!(Browser::web_browser("firefox", &installed), None);
    assert_eq!(Browser::web_browser("Firefox", &Vec::new()), None);
}

#[test]
fn web_browser_can_find_the_placeholder() {
    let installed = get_supported_browsers(&vec![(firefox(), Probe::Found)]);
    let found = Browser::web_browser("Select browser", &installed).unwrap();
    assert!(!found.is_installed());
}

#[test]
fn browser_is_its_name_as_text() {
    let b = firefox();
    let name: &str = b.as_ref();
    assert_eq!(name, "Firefox");
}

#[test]
fn clone_and_equality_go_by_all_fields() {
    let a = firefox();
    let b = a.clone();
    assert_eq!(a, b);
    assert_ne!(a, chromium());
    let mut c = a.clone();
    c.test = "/elsewhere".to_string();
    assert_ne!(a, c);
}
