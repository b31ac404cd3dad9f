//! Engine for web-app launchers: desktop entries that start an installed
//! browser in app mode against one URL.
//!
//! The library computes; it never touches the file system, the network or the
//! environment. Callers hand it what they read (the home directory, the text of
//! an entry file, the outcome of a presence probe) and carry out what it
//! returns (the text to write, the directory to remove).

pub mod browser;
pub mod entry;
pub mod icons;
pub mod launcher;
pub mod laws;
pub mod outside;
pub mod paths;
pub mod text;
pub mod text_facts;

pub use browser::{get_supported_browsers, Browser, BrowserType, Probe};
pub use entry::{get_webapps, EntryFile, LauncherError};
pub use icons::{
    download_favicon, find_icon, find_icons, get_icon_name_from_url, image_handle, is_svg,
    move_icon, IconAction, IconCandidate, IconMove, IconType,
};
pub use launcher::{FirefoxFork, ProfileFiles, Removal, WebAppLauncher};
pub use outside::url_valid;
pub use paths::{desktop_filepath, icons_location};
