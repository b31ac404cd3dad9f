//! The launcher record, the command line that starts its browser, and the
//! files and directories that belong to it.

use vstd::prelude::*;
use vstd::string::StringExecFns;
use crate::browser::{Browser, BrowserType, BrowserView};
use crate::outside::{random_in, url_parses, url_valid};
use crate::paths::{data_home_dir, desktop_filepath, desktop_path, join_path, joined, optional_text};
use crate::text::{from_chars, has_prefix, remove_all, removed, starts_with, texts, to_chars};

verus! {

/// One web app: the browser that shows it, the address it opens, and how.
#[derive(Debug)]
pub struct WebAppLauncher {
    /// Where the desktop entry is kept.
    pub path: String,
    /// The identifier that the entry's file name, profile and window class
    /// are made from.
    pub codename: String,
    pub web_browser: Browser,
    pub name: String,
    pub icon: String,
    /// Whether the record is complete enough to be used. Derived, never stored.
    pub is_valid: bool,
    /// What the command line starts with.
    pub command: String,
    /// The arguments found in a stored command line.
    pub args: Vec<String>,
    pub category: String,
    pub url: String,
    /// Extra command-line text, passed on as it is.
    pub custom_parameters: String,
    pub isolate_profile: bool,
    /// Firefox family only: keep the browser's own controls.
    pub navbar: bool,
    pub is_incognito: bool,
}

/// A launcher as contracts see it.
pub struct LauncherView {
    pub path: Seq<char>,
    pub codename: Seq<char>,
    pub browser: BrowserView,
    pub name: Seq<char>,
    pub icon: Seq<char>,
    pub is_valid: bool,
    pub command: Seq<char>,
    pub args: Seq<Seq<char>>,
    pub category: Seq<char>,
    pub url: Seq<char>,
    pub custom_parameters: Seq<char>,
    pub isolate_profile: bool,
    pub navbar: bool,
    pub is_incognito: bool,
}

impl View for WebAppLauncher {
    type V = LauncherView;

    open spec fn view(&self) -> LauncherView {
        LauncherView {
            path: self.path@,
            codename: self.codename@,
            browser: self.web_browser@,
            name: self.name@,
            icon: self.icon@,
            is_valid: self.is_valid,
            command: self.command@,
            args: texts(self.args@),
            category: self.category@,
            url: self.url@,
            custom_parameters: self.custom_parameters@,
            isolate_profile: self.isolate_profile,
            navbar: self.navbar,
            is_incognito: self.is_incognito,
        }
    }
}

impl LauncherView {
    /// A launcher that counts as valid has a name and an icon.
    pub open spec fn wf(self) -> bool {
        self.is_valid ==> self.name.len() > 0 && self.icon.len() > 0
    }
}

/// Clones of the strings of `v`.
fn clone_texts(v: &Vec<String>) -> (copy: Vec<String>)
    ensures
        texts(copy@) == texts(v@),
{
    let mut copy: Vec<String> = Vec::new();
    let mut i: usize = 0;
    while i < v.len()
        invariant
            i <= v.len(),
            texts(copy@) == texts(v@).take(i as int),
        decreases v.len() - i,
    {
        let ghost before = texts(copy@);
        copy.push(v[i].clone());
        assert(texts(copy@) =~= before.push(v@[i as int]@));
        assert(texts(v@).take(i + 1) =~= before.push(v@[i as int]@));
        i += 1;
    }
    assert(texts(v@).take(v.len() as int) =~= texts(v@));
    copy
}

impl Clone for WebAppLauncher {
    fn clone(&self) -> (copy: Self)
        ensures
            copy@ == self@,
    {
        WebAppLauncher {
            path: self.path.clone(),
            codename: self.codename.clone(),
            web_browser: self.web_browser.clone(),
            name: self.name.clone(),
            icon: self.icon.clone(),
            is_valid: self.is_valid,
            command: self.command.clone(),
            args: clone_texts(&self.args),
            category: self.category.clone(),
            url: self.url.clone(),
            custom_parameters: self.custom_parameters.clone(),
            isolate_profile: self.isolate_profile,
            navbar: self.navbar,
            is_incognito: self.is_incognito,
        }
    }
}

/// The Firefox-like browsers, each with a profile root of its own.
#[derive(Debug, Clone, Copy, PartialEq, Eq, Structural)]
pub enum FirefoxFork {
    Firefox,
    Librewolf,
    Waterfox,
}

/// The files that a Firefox-like browser needs in a launcher's profile.
#[derive(Debug)]
pub struct ProfileFiles {
    /// The profile directory, to be created with its parents.
    pub profile_dir: String,
    /// The directory of the interface stylesheet, to be created too.
    pub chrome_dir: String,
    /// Where the preferences go.
    pub user_js: String,
    /// Where the interface stylesheet goes.
    pub user_chrome_css: String,
}

/// What removing a launcher takes.
#[derive(Debug)]
pub struct Removal {
    /// Whether there is an entry file to remove.
    pub entry: bool,
    /// The profile directory to remove with all that is in it, if the
    /// launcher's browser keeps one.
    pub profile: Option<String>,
}

/// The decimal digit for `d`.
pub open spec fn digit(d: nat) -> char {
    if d == 0 {
        '0'
    } else if d == 1 {
        '1'
    } else if d == 2 {
        '2'
    } else if d == 3 {
        '3'
    } else if d == 4 {
        '4'
    } else if d == 5 {
        '5'
    } else if d == 6 {
        '6'
    } else if d == 7 {
        '7'
    } else if d == 8 {
        '8'
    } else {
        '9'
    }
}

/// `n` in decimal, without leading zeros.
pub open spec fn decimal(n: nat) -> Seq<char>
    decreases n,
{
    if n < 10 {
        seq![digit(n)]
    } else {
        decimal(n / 10).push(digit(n % 10))
    }
}

/// The codename made for a launcher called `name` from the number `code`:
/// the name without its spaces, then the number.
pub open spec fn generated_codename(name: Seq<char>, code: nat) -> Seq<char> {
    removed(name, seq![' ']) + decimal(code)
}

/// The file name of the desktop entry of `codename`.
pub open spec fn entry_file_name(codename: Seq<char>) -> Seq<char> {
    "webapp-"@ + codename + ".desktop"@
}

/// The window class of the launcher `codename`.
pub open spec fn window_class(codename: Seq<char>) -> Seq<char> {
    "WebApp-"@ + codename
}

/// Where the profiles of `fork` are kept, below the home directory.
pub open spec fn profile_root(fork: FirefoxFork) -> Seq<char> {
    match fork {
        FirefoxFork::Firefox => ".var/app/org.mozilla.firefox/data/ice/firefox"@,
        FirefoxFork::Librewolf => ".var/app/io.gitlab.librewolf-community/data/ice/librewolf"@,
        FirefoxFork::Waterfox => ".var/app/net.waterfox.waterfox/data/ice/waterfox"@,
    }
}

/// The profile directory of the launcher `codename` under a Firefox-like
/// browser.
pub open spec fn firefox_profile_dir(home: Seq<char>, fork: FirefoxFork, codename: Seq<char>) -> Seq<
    char,
> {
    joined(joined(home, profile_root(fork)), codename)
}

/// The profile directory of the launcher `codename` under any other browser.
pub open spec fn shared_profile_dir(home: Seq<char>, codename: Seq<char>) -> Seq<char> {
    joined(joined(joined(joined(home, data_home_dir()), "ice"@), "profiles"@), codename)
}

/// The fork that a browser kind belongs to, if it is Firefox-like.
pub open spec fn fork_of(kind: BrowserType) -> Option<FirefoxFork> {
    match kind {
        BrowserType::Firefox => Some(FirefoxFork::Firefox),
        BrowserType::FirefoxFlatpak => Some(FirefoxFork::Firefox),
        BrowserType::Librewolf => Some(FirefoxFork::Librewolf),
        BrowserType::WaterfoxFlatpak => Some(FirefoxFork::Waterfox),
        _ => None,
    }
}

/// `line` followed by the extra parameters and a space, where there are any.
pub open spec fn with_parameters(line: Seq<char>, parameters: Seq<char>) -> Seq<char> {
    if parameters.len() > 0 {
        line + parameters + " "@
    } else {
        line
    }
}

/// `line` followed by `flag`, where `on` holds.
pub open spec fn with_flag(line: Seq<char>, on: bool, flag: Seq<char>) -> Seq<char> {
    if on {
        line + flag
    } else {
        line
    }
}

/// The command line for a Firefox-like browser.
pub open spec fn firefox_command(l: LauncherView, home: Seq<char>, fork: FirefoxFork) -> Seq<char> {
    let head = l.command + " --class WebApp-"@ + l.codename + " --name WebApp-"@ + l.codename
        + " --profile "@ + firefox_profile_dir(home, fork, l.codename) + " --no-remote "@;
    with_parameters(with_flag(head, l.is_incognito, "--private-window "@), l.custom_parameters)
        + l.url
}

/// The flag that makes a Chromium-like browser called `name` forget the
/// session.
pub open spec fn private_flag(name: Seq<char>) -> Seq<char> {
    if starts_with(name, "Microsoft Edge"@) {
        "--inprivate "@
    } else {
        "--incognito "@
    }
}

/// The start of every Chromium command line.
pub open spec fn chromium_head(l: LauncherView) -> Seq<char> {
    l.command + " --app="@ + l.url + " --class=WebApp-"@ + l.codename + " --name=WebApp-"@
        + l.codename + " "@
}

/// `line` followed by the option that names the profile directory, where the
/// profile is isolated.
pub open spec fn with_user_data_dir(line: Seq<char>, l: LauncherView, home: Seq<char>) -> Seq<
    char,
> {
    if l.isolate_profile {
        line + "--user-data-dir="@ + shared_profile_dir(home, l.codename) + " "@
    } else {
        line
    }
}

/// The command line for a Chromium-like browser.
pub open spec fn chromium_command(l: LauncherView, home: Seq<char>) -> Seq<char> {
    with_parameters(
        with_flag(
            with_user_data_dir(chromium_head(l), l, home),
            l.is_incognito,
            private_flag(l.browser.name),
        ),
        l.custom_parameters,
    )
}

/// What a Falkon command line starts with: the program and its profile where
/// the profile is isolated, nothing otherwise.
pub open spec fn falkon_head(l: LauncherView, home: Seq<char>) -> Seq<char> {
    if l.isolate_profile {
        l.command + " --portable --wmclass WebApp-"@ + l.codename + " --profile "@
            + shared_profile_dir(home, l.codename) + " "@
    } else {
        Seq::<char>::empty()
    }
}

/// The command line for Falkon.
pub open spec fn falkon_command(l: LauncherView, home: Seq<char>) -> Seq<char> {
    with_parameters(
        with_flag(falkon_head(l, home), l.is_incognito, "--private-browsing "@),
        l.custom_parameters,
    ) + "--no-remote --current-tab "@ + l.url
}

/// The command line of a launcher: by the kind of its browser, and empty where
/// no browser is selected.
pub open spec fn command_line(l: LauncherView, home: Seq<char>) -> Seq<char> {
    match fork_of(l.browser.kind) {
        Some(fork) => firefox_command(l, home, fork),
        None => match l.browser.kind {
            BrowserType::Chromium => chromium_command(l, home),
            BrowserType::Falkon => falkon_command(l, home),
            _ => Seq::<char>::empty(),
        },
    }
}

/// The profile directory that goes when the launcher goes.
pub open spec fn profile_to_remove(l: LauncherView, home: Seq<char>) -> Option<Seq<char>> {
    match fork_of(l.browser.kind) {
        Some(fork) => Some(firefox_profile_dir(home, fork, l.codename)),
        None => None,
    }
}

/// Every number has at least one digit.
pub proof fn lemma_decimal_nonempty(n: nat)
    ensures
        decimal(n).len() >= 1,
        n >= 10 ==> decimal(n).len() >= 2,
    decreases n,
{
    if n >= 10 {
        lemma_decimal_nonempty(n / 10);
    }
}

/// Different numbers are written differently.
pub proof fn lemma_decimal_injective(a: nat, b: nat)
    requires
        decimal(a) == decimal(b),
    ensures
        a == b,
    decreases a,
{
    lemma_decimal_nonempty(a);
    lemma_decimal_nonempty(b);
    if a < 10 || b < 10 {
        assert(decimal(a).len() == 1 || decimal(b).len() == 1);
        assert(a < 10 && b < 10);
        assert(decimal(a)[0] == digit(a));
        assert(decimal(b)[0] == digit(b));
    } else {
        let x = decimal(a / 10);
        let y = decimal(b / 10);
        assert(decimal(a).drop_last() =~= x);
        assert(decimal(b).drop_last() =~= y);
        assert(decimal(a).last() == digit(a % 10));
        assert(decimal(b).last() == digit(b % 10));
        lemma_decimal_injective(a / 10, b / 10);
    }
}

/// The decimal digit for `d`.
fn digit_char(d: u16) -> (c: char)
    requires
        d < 10,
    ensures
        c == digit(d as nat),
{
    if d == 0 {
        '0'
    } else if d == 1 {
        '1'
    } else if d == 2 {
        '2'
    } else if d == 3 {
        '3'
    } else if d == 4 {
        '4'
    } else if d == 5 {
        '5'
    } else if d == 6 {
        '6'
    } else if d == 7 {
        '7'
    } else if d == 8 {
        '8'
    } else {
        '9'
    }
}

/// Puts `n` in decimal after `out`.
fn push_decimal(out: &mut Vec<char>, n: u16)
    ensures
        final(out)@ == old(out)@ + decimal(n as nat),
    decreases n,
{
    if n < 10 {
        out.push(digit_char(n));
        assert(out@ =~= old(out)@ + decimal(n as nat));
    } else {
        push_decimal(out, n / 10);
        out.push(digit_char(n % 10));
        assert(out@ =~= old(out)@ + decimal(n as nat));
    }
}

/// The codename for a launcher called `name`, made from the number `code`.
pub fn codename_from(name: &str, code: u16) -> (codename: String)
    ensures
        codename@ == generated_codename(name@, code as nat),
{
    let space: Vec<char> = vec![' '];
    assert(space@ =~= seq![' ']);
    let mut out = remove_all(&to_chars(name), &space);
    push_decimal(&mut out, code);
    from_chars(&out)
}

/// The stylesheet to write into a profile: none at all where the browser's
/// own controls stay, the bundled one otherwise.
pub fn create_user_chrome_css(bundled: &Vec<u8>, create_navbar: bool) -> (content: Vec<u8>)
    ensures
        create_navbar ==> content@ == Seq::<u8>::empty(),
        !create_navbar ==> content@ == bundled@,
{
    let mut content: Vec<u8> = Vec::new();
    if !create_navbar {
        let mut i: usize = 0;
        while i < bundled.len()
            invariant
                i <= bundled.len(),
                content@ == bundled@.take(i as int),
            decreases bundled.len() - i,
        {
            content.push(bundled[i]);
            i += 1;
        }
        assert(bundled@.take(bundled.len() as int) =~= bundled@);
    }
    content
}

/// The fork that a browser kind belongs to, if it is Firefox-like.
pub fn firefox_fork(kind: BrowserType) -> (fork: Option<FirefoxFork>)
    ensures
        fork == fork_of(kind),
{
    match kind {
        BrowserType::Firefox => Some(FirefoxFork::Firefox),
        BrowserType::FirefoxFlatpak => Some(FirefoxFork::Firefox),
        BrowserType::Librewolf => Some(FirefoxFork::Librewolf),
        BrowserType::WaterfoxFlatpak => Some(FirefoxFork::Waterfox),
        _ => None,
    }
}

/// The profile directory of the launcher `codename` under a Firefox-like
/// browser.
pub fn firefox_profile_path(home: &str, fork: FirefoxFork, codename: &str) -> (dir: String)
    ensures
        dir@ == firefox_profile_dir(home@, fork, codename@),
{
    let root = match fork {
        FirefoxFork::Firefox => join_path(home, ".var/app/org.mozilla.firefox/data/ice/firefox"),
        FirefoxFork::Librewolf => join_path(
            home,
            ".var/app/io.gitlab.librewolf-community/data/ice/librewolf",
        ),
        FirefoxFork::Waterfox => join_path(home, ".var/app/net.waterfox.waterfox/data/ice/waterfox"),
    };
    join_path(root.as_str(), codename)
}

/// The profile directory of the launcher `codename` under any other browser.
pub fn shared_profile_path(home: &str, codename: &str) -> (dir: String)
    ensures
        dir@ == shared_profile_dir(home@, codename@),
{
    let data = join_path(home, ".local/share");
    let ice = join_path(data.as_str(), "ice");
    let profiles = join_path(ice.as_str(), "profiles");
    join_path(profiles.as_str(), codename)
}

impl WebAppLauncher {
    /// A new launcher for the user at `home`. Without a `codename` one is made
    /// from the name and a random number of four digits. The launcher is valid
    /// when name and icon are not empty, the address parses as a URL and a
    /// browser is selected.
    pub fn new(
        name: String,
        codename: Option<String>,
        url: String,
        icon: String,
        category: String,
        browser: Browser,
        custom_parameters: String,
        isolated: bool,
        navbar: bool,
        privatewindow: bool,
        home: &str,
    ) -> (l: Self)
        ensures
            match codename {
                Some(given) => l@.codename == given@,
                None => exists|code: nat|
                    1000 <= code < 10000 && l@.codename == #[trigger] generated_codename(
                        name@,
                        code,
                    ),
            },
            l@.path == desktop_path(home@, entry_file_name(l@.codename)),
            l@.browser == browser@,
            l@.name == name@,
            l@.icon == icon@,
            l@.is_valid == (name@.len() > 0 && icon@.len() > 0 && url_parses(url@) && browser@.kind
                != BrowserType::NoBrowser),
            l@.command == browser@.executable,
            l@.args == Seq::<Seq<char>>::empty(),
            l@.category == category@,
            l@.url == url@,
            l@.custom_parameters == custom_parameters@,
            l@.isolate_profile == isolated,
            l@.navbar == navbar,
            l@.is_incognito == privatewindow,
            l@.wf(),
    {
        let codename = match codename {
            Some(given) => given,
            None => {
                let code = random_in(1000, 10000);
                codename_from(name.as_str(), code)
            },
        };
        let mut filename = String::from_str("webapp-");
        filename.append(codename.as_str());
        filename.append(".desktop");
        let path = desktop_filepath(home, filename.as_str());
        let command = browser.executable.clone();
        let args: Vec<String> = Vec::new();
        let is_valid = !name.as_str().is_empty() && !icon.as_str().is_empty() && url_valid(
            url.as_str(),
        ) && browser.is_installed();
        assert(texts(args@) =~= Seq::<Seq<char>>::empty());
        WebAppLauncher {
            path,
            codename,
            web_browser: browser,
            name,
            icon,
            is_valid,
            command,
            args,
            category,
            url,
            custom_parameters,
            isolate_profile: isolated,
            navbar,
            is_incognito: privatewindow,
        }
    }

    /// Puts the extra parameters and a space after `line`, where there are any.
    fn push_parameters(&self, line: &mut String)
        ensures
            final(line)@ == with_parameters(old(line)@, self@.custom_parameters),
    {
        if !self.custom_parameters.as_str().is_empty() {
            line.append(self.custom_parameters.as_str());
            line.append(" ");
        }
    }

    /// The command line for a Firefox-like browser.
    pub fn exec_firefox(&self, home: &str, fork: FirefoxFork) -> (line: String)
        ensures
            line@ == firefox_command(self@, home@, fork),
    {
        let profile = firefox_profile_path(home, fork, self.codename.as_str());
        let mut line = self.command.clone();
        line.append(" --class WebApp-");
        line.append(self.codename.as_str());
        line.append(" --name WebApp-");
        line.append(self.codename.as_str());
        line.append(" --profile ");
        line.append(profile.as_str());
        line.append(" --no-remote ");
        if self.is_incognito {
            line.append("--private-window ");
        }
        self.push_parameters(&mut line);
        line.append(self.url.as_str());
        line
    }

    /// The command line for a Chromium-like browser.
    pub fn exec_chromium(&self, home: &str) -> (line: String)
        ensures
            line@ == chromium_command(self@, home@),
    {
        let mut line = self.command.clone();
        line.append(" --app=");
        line.append(self.url.as_str());
        line.append(" --class=WebApp-");
        line.append(self.codename.as_str());
        line.append(" --name=WebApp-");
        line.append(self.codename.as_str());
        line.append(" ");
        if self.isolate_profile {
            let profile = shared_profile_path(home, self.codename.as_str());
            line.append("--user-data-dir=");
            line.append(profile.as_str());
            line.append(" ");
        }
        if self.is_incognito {
            let edge = to_chars("Microsoft Edge");
            if has_prefix(&to_chars(self.web_browser.name.as_str()), &edge) {
                line.append("--inprivate ");
            } else {
                line.append("--incognito ");
            }
        }
        self.push_parameters(&mut line);
        line
    }

    /// The command line for Falkon.
    pub fn exec_falkon(&self, home: &str) -> (line: String)
        ensures
            line@ == falkon_command(self@, home@),
    {
        let mut line = String::new();
        if self.isolate_profile {
            let profile = shared_profile_path(home, self.codename.as_str());
            line.append(self.command.as_str());
            line.append(" --portable --wmclass WebApp-");
            line.append(self.codename.as_str());
            line.append(" --profile ");
            line.append(profile.as_str());
            line.append(" ");
            assert(line@ =~= falkon_head(self@, home@));
        }
        if self.is_incognito {
            line.append("--private-browsing ");
        }
        self.push_parameters(&mut line);
        line.append("--no-remote --current-tab ");
        line.append(self.url.as_str());
        line
    }

    /// The command line that starts this launcher's browser.
    pub fn exec_string(&self, home: &str) -> (line: String)
        ensures
            line@ == command_line(self@, home@),
    {
        match firefox_fork(self.web_browser._type) {
            Some(fork) => self.exec_firefox(home, fork),
            None => match self.web_browser._type {
                BrowserType::Chromium => self.exec_chromium(home),
                BrowserType::Falkon => self.exec_falkon(home),
                _ => String::new(),
            },
        }
    }

    /// The files to put into the profile before a Firefox-like browser is
    /// started; none for any other browser.
    pub fn profile_files(&self, home: &str) -> (files: Option<ProfileFiles>)
        ensures
            match files {
                Some(f) => fork_of(self@.browser.kind) matches Some(fork) && {
                    let dir = firefox_profile_dir(home@, fork, self@.codename);
                    &&& f.profile_dir@ == dir
                    &&& f.chrome_dir@ == joined(dir, "chrome"@)
                    &&& f.user_js@ == joined(dir, "user.js"@)
                    &&& f.user_chrome_css@ == joined(joined(dir, "chrome"@), "userChrome.css"@)
                },
                None => fork_of(self@.browser.kind) is None,
            },
    {
        match firefox_fork(self.web_browser._type) {
            None => None,
            Some(fork) => {
                let profile_dir = firefox_profile_path(home, fork, self.codename.as_str());
                let chrome_dir = join_path(profile_dir.as_str(), "chrome");
                let user_js = join_path(profile_dir.as_str(), "user.js");
                let user_chrome_css = join_path(chrome_dir.as_str(), "userChrome.css");
                Some(ProfileFiles { profile_dir, chrome_dir, user_js, user_chrome_css })
            },
        }
    }

    /// What to remove when this launcher goes: the entry file if there is
    /// one, and the profile directory of a Firefox-like browser.
    pub fn delete(&self, home: &str, entry_exists: bool) -> (removal: Removal)
        ensures
            removal.entry == entry_exists,
            optional_text(removal.profile) == profile_to_remove(self@, home@),
    {
        let profile = match firefox_fork(self.web_browser._type) {
            Some(fork) => Some(firefox_profile_path(home, fork, self.codename.as_str())),
            None => None,
        };
        Removal { entry: entry_exists, profile }
    }
}

} // verus!
