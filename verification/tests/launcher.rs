use webapps::browser::{Browser, BrowserType};
use webapps::launcher::{
    codename_from, create_user_chrome_css, firefox_profile_path, shared_profile_path, FirefoxFork,
    WebAppLauncher,
};

fn browser(kind: BrowserType, name: &str, program: &str) -> Browser {
    Browser::new(kind, name, program, program, "/home/u")
}

fn launcher(b: Browser, custom: &str, isolated: bool, navbar: bool, private: bool) -> WebAppLauncher {
    WebAppLauncher::new(
        "My App".to_string(),
        Some("MyApp1234".to_string()),
        "https://example.com".to_string(),
        "/icons/app.png".to_string(),
        "Network".to_string(),
        b,
        custom.to_string(),
        isolated,
        navbar,
        private,
        "/home/u",
    )
}

fn firefox() -> Browser {
    browser(BrowserType::Firefox, "Firefox", "/usr/bin/firefox")
}

fn chromium() -> Browser {
    browser(BrowserType::Chromium, "Chromium", "/usr/bin/chromium")
}

fn falkon() -> Browser {
    browser(BrowserType::Falkon, "Falkon", "/usr/bin/falkon")
}

#[test]
fn new_with_codename_keeps_it() {
    let l = launcher(firefox(), "", false, false, false);
    assert_eq!(l.codename, "MyApp1234");
    assert_eq!(l.path, "/home/u/.local/share/applications/webapp-MyApp1234.desktop");
    assert_eq!(l.command, "/usr/bin/firefox");
    assert!(l.args.is_empty());
    assert_eq!(l.name, "My App");
    assert_eq!(l.icon, "/icons/app.png");
    assert_eq!(l.category, "Network");
    assert_eq!(l.url, "https://example.com");
    assert!(l.is_valid);
}

#[test]
fn new_without_codename_appends_four_digits() {
    for _ in 0..200 {
        let l = WebAppLauncher::new(
            "My Web App".to_string(),
            None,
            "https://example.com".to_string(),
            "i".to_string(),
            String::new(),
            firefox(),
            String::new(),
            false,
            false,
            false,
            "/home/u",
        );
        assert!(l.codename.starts_with("MyWebApp"));
        let digits = &l.codename["MyWebApp".len()..];
        assert_eq!(digits.len(), 4);
        let code: u16 = digits.parse().unwrap();
        assert!((1000..10000).contains(&code));
        assert_eq!(
            l.path,
            format!("/home/u/.local/share/applications/webapp-{}.desktop", l.codename)
        );
    }
}

#[test]
fn codename_from_strips_spaces_and_writes_the_number() {
    assert_eq!(codename_from("My Web App", 1000), "MyWebApp1000");
    assert_eq!(codename_from(" a  b ", 9999), "ab9999");
    assert_eq!(codename_from("", 7), "7");
    assert_eq!(codename_from("x", 0), "x0");
    assert_eq!(codename_from("x", 65535), "x65535");
    assert_eq!(codename_from("x", 1203), "x1203");
}

#[test]
fn codenames_from_different_numbers_differ() {
    assert_ne!(codename_from("Mail", 1234), codename_from("Mail", 1235));
    assert_ne!(codename_from("Mail 1", 234), codename_from("Mail", 1234 + 1));
}

#[test]
fn is_valid_needs_name_icon_url_and_browser() {
    let make = |name: &str, icon: &str, url: &str, b: Browser| {
        WebAppLauncher::new(
            name.to_string(),
            Some("c".to_string()),
            url.to_string(),
            icon.to_string(),
            String::new(),
            b,
            String::new(),
            false,
            false,
            false,
            "/home/u",
        )
    };
    let none = Browser::new(BrowserType::NoBrowser, "Select browser", "", "", "");
    assert!(make("n", "i", "https://example.com", firefox()).is_valid);
    assert!(!make("", "i", "https://example.com", firefox()).is_valid);
    assert!(!make("n", "", "https://example.com", firefox()).is_valid);
    assert!(!make("n", "i", "example.com", firefox()).is_valid);
    assert!(!make("n", "i", "", firefox()).is_valid);
    assert!(!make("n", "i", "https://example.com", none).is_valid);
}

#[test]
fn firefox_command_plain() {
    let l = launcher(firefox(), "", false, false, false);
    assert_eq!(
        l.exec_string("/home/u"),
        "/usr/bin/firefox --class WebApp-MyApp1234 --name WebApp-MyApp1234 --profile \
         /home/u/.var/app/org.mozilla.firefox/data/ice/firefox/MyApp1234 --no-remote \
         https://example.com"
    );
}

#[test]
fn firefox_command_private_with_parameters() {
    let l = launcher(firefox(), "--foo --bar", false, true, true);
    assert_eq!(
        l.exec_firefox("/home/u", FirefoxFork::Firefox),
        "/usr/bin/firefox --class WebApp-MyApp1234 --name WebApp-MyApp1234 --profile \
         /home/u/.var/app/org.mozilla.firefox/data/ice/firefox/MyApp1234 --no-remote \
         --private-window --foo --bar https://example.com"
    );
}

#[test]
fn firefox_forks_have_their_own_profile_roots() {
    let flatpak = launcher(
        browser(BrowserType::FirefoxFlatpak, "Firefox (Flatpak)", "/fp/firefox"),
        "",
        false,
        false,
        false,
    );
    assert!(flatpak
        .exec_string("/home/u")
        .contains(" --profile /home/u/.var/app/org.mozilla.firefox/data/ice/firefox/MyApp1234 "));
    let librewolf = launcher(
        browser(BrowserType::Librewolf, "Librewolf", "/fp/librewolf"),
        "",
        false,
        false,
        false,
    );
    assert!(librewolf.exec_string("/home/u").contains(
        " --profile /home/u/.var/app/io.gitlab.librewolf-community/data/ice/librewolf/MyApp1234 "
    ));
    let waterfox = launcher(
        browser(BrowserType::WaterfoxFlatpak, "Waterfox", "/fp/waterfox"),
        "",
        false,
        false,
        false,
    );
    assert!(waterfox
        .exec_string("/home/u")
        .contains(" --profile /home/u/.var/app/net.waterfox.waterfox/data/ice/waterfox/MyApp1234 "));
    assert_eq!(
        firefox_profile_path("/home/u", FirefoxFork::Waterfox, "x"),
        "/home/u/.var/app/net.waterfox.waterfox/data/ice/waterfox/x"
    );
}

#[test]
fn chromium_command_plain_has_no_session_options() {
    let l = launcher(chromium(), "", false, false, false);
    let line = l.exec_string("/home/u");
    assert_eq!(
        line,
        "/usr/bin/chromium --app=https://example.com --class=WebApp-MyApp1234 \
         --name=WebApp-MyApp1234 "
    );
    assert!(!line.contains("--user-data-dir"));
    assert!(!line.contains("--incognito"));
    assert!(!line.contains("--inprivate"));
}

#[test]
fn chromium_command_with_everything() {
    let l = launcher(chromium(), "--force-dark-mode", true, false, true);
    assert_eq!(
        l.exec_chromium("/home/u"),
        "/usr/bin/chromium --app=https://example.com --class=WebApp-MyApp1234 \
         --name=WebApp-MyApp1234 --user-data-dir=/home/u/.local/share/ice/profiles/MyApp1234 \
         --incognito --force-dark-mode "
    );
}

#[test]
fn chromium_command_for_edge_uses_inprivate() {
    let edge = browser(BrowserType::Chromium, "Microsoft Edge (Flatpak)", "/usr/bin/edge");
    let l = launcher(edge, "", false, false, true);
    assert_eq!(
        l.exec_string("/home/u"),
        "/usr/bin/edge --app=https://example.com --class=WebApp-MyApp1234 \
         --name=WebApp-MyApp1234 --inprivate "
    );
    let not_edge = browser(BrowserType::Chromium, "New Microsoft Edge", "/usr/bin/edge");
    assert!(launcher(not_edge, "", false, false, true)
        .exec_string("/home/u")
        .ends_with("--incognito "));
}

#[test]
fn falkon_command_without_isolation_has_no_program() {
    let l = launcher(falkon(), "", false, false, false);
    assert_eq!(l.exec_string("/home/u"), "--no-remote --current-tab https://example.com");
    let l = launcher(falkon(), "--x", false, false, true);
    assert_eq!(
        l.exec_falkon("/home/u"),
        "--private-browsing --x --no-remote --current-tab https://example.com"
    );
}

#[test]
fn falkon_command_with_isolation() {
    let l = launcher(falkon(), "", true, false, false);
    assert_eq!(
        l.exec_string("/home/u"),
        "/usr/bin/falkon --portable --wmclass WebApp-MyApp1234 --profile \
         /home/u/.local/share/ice/profiles/MyApp1234 --no-remote --current-tab \
         https://example.com"
    );
    assert_eq!(shared_profile_path("/home/u", "c"), "/home/u/.local/share/ice/profiles/c");
}

#[test]
fn no_browser_gives_an_empty_command() {
    let none = Browser::new(BrowserType::NoBrowser, "Select browser", "", "", "");
    let l = launcher(none, "--x", true, true, true);
    assert_eq!(l.exec_string("/home/u"), "");
}

#[test]
fn user_chrome_css_is_empty_with_navbar() {
    let bundled = b"#nav-bar { visibility: collapse; }".to_vec();
    assert_eq!(create_user_chrome_css(&bundled, true), Vec::<u8>::new());
    assert_eq!(create_user_chrome_css(&bundled, false), bundled);
    assert_eq!(create_user_chrome_css(&Vec::new(), false), Vec::<u8>::new());
}

#[test]
fn profile_files_for_firefox_only() {
    let l = launcher(firefox(), "", false, false, false);
    let files = l.profile_files("/home/u").unwrap();
    let dir = "/home/u/.var/app/org.mozilla.firefox/data/ice/firefox/MyApp1234";
    assert_eq!(files.profile_dir, dir);
    assert_eq!(files.chrome_dir, format!("{}/chrome", dir));
    assert_eq!(files.user_js, format!("{}/user.js", dir));
    assert_eq!(files.user_chrome_css, format!("{}/chrome/userChrome.css", dir));
    assert!(launcher(chromium(), "", true, false, false).profile_files("/home/u").is_none());
    assert!(launcher(falkon(), "", true, false, false).profile_files("/home/u").is_none());
}

#[test]
fn delete_without_entry_file_still_removes_the_profile() {
    let l = launcher(firefox(), "", false, false, false);
    let removal = l.delete("/home/u", false);
    assert!(!removal.entry);
    assert_eq!(
        removal.profile,
        Some("/home/u/.var/app/org.mozilla.firefox/data/ice/firefox/MyApp1234".to_string())
    );
}

#[test]
fn delete_with_entry_file_removes_it() {
    let l = launcher(
        browser(BrowserType::Librewolf, "Librewolf", "/fp/librewolf"),
        "",
        false,
        false,
        false,
    );
    let removal = l.delete("/home/u", true);
    assert!(removal.entry);
    assert_eq!(
        removal.profile,
        Some(
            "/home/u/.var/app/io.gitlab.librewolf-community/data/ice/librewolf/MyApp1234"
                .to_string()
        )
    );
}

#[test]
fn delete_leaves_other_browsers_profiles_alone() {
    let removal = launcher(chromium(), "", true, false, false).delete("/home/u", true);
    assert!(removal.entry);
    assert_eq!(removal.profile, None);
    let removal = launcher(falkon(), "", true, false, false).delete("/home/u", false);
    assert!(!removal.entry);
    assert_eq!(removal.profile, None);
}

#[test]
fn clone_keeps_every_field() {
    let l = launcher(chromium(), "--x", true, false, true);
    let c = l.clone();
    assert_eq!(c.path, l.path);
    assert_eq!(c.codename, l.codename);
    assert_eq!(c.web_browser, l.web_browser);
    assert_eq!(c.custom_parameters, l.custom_parameters);
    assert_eq!(c.isolate_profile, l.isolate_profile);
    assert_eq!(c.is_incognito, l.is_incognito);
    assert_eq!(c.exec_string("/home/u"), l.exec_string("/home/u"));
}
