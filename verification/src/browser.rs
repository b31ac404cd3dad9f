//! The browsers that a launcher can start, and which of them are installed.

use vstd::prelude::*;
use vstd::string::StringExecFns;
use crate::paths::{data_home_dir, join_chars, joined};
use crate::text::{from_chars, has_prefix, slice, starts_with, to_chars};

verus! {

/// The kinds of browser, by the way each is started.
#[derive(Debug, Clone, Copy, PartialEq, Eq, Structural)]
pub enum BrowserType {
    /// Nothing selected yet.
    NoBrowser,
    Firefox,
    FirefoxFlatpak,
    Librewolf,
    WaterfoxFlatpak,
    Chromium,
    Falkon,
}

/// What a presence probe found out about a candidate.
#[derive(Debug, Clone, Copy, PartialEq, Eq, Structural)]
pub enum Probe {
    /// The probed path exists.
    Found,
    /// The probed path does not exist.
    Missing,
    /// The probe itself failed.
    Failed,
}

/// One browser: its kind, the name shown to the user, the program to run, and
/// the path whose existence shows that it is installed.
#[derive(Debug)]
pub struct Browser {
    pub _type: BrowserType,
    pub name: String,
    pub executable: String,
    pub test: String,
}

/// A browser as contracts see it.
pub struct BrowserView {
    pub kind: BrowserType,
    pub name: Seq<char>,
    pub executable: Seq<char>,
    pub test: Seq<char>,
}

impl View for Browser {
    type V = BrowserView;

    open spec fn view(&self) -> BrowserView {
        BrowserView {
            kind: self._type,
            name: self.name@,
            executable: self.executable@,
            test: self.test@,
        }
    }
}

impl Clone for Browser {
    fn clone(&self) -> (copy: Self)
        ensures
            copy@ == self@,
    {
        Browser {
            _type: self._type,
            name: self.name.clone(),
            executable: self.executable.clone(),
            test: self.test.clone(),
        }
    }
}

impl AsRef<str> for Browser {
    fn as_ref(&self) -> (name: &str)
        ensures
            name@ == self@.name,
    {
        self.name.as_str()
    }
}

impl PartialEq for Browser {
    fn eq(&self, other: &Self) -> (same: bool) {
        self._type == other._type && self.name == other.name && self.executable == other.executable
            && self.test == other.test
    }
}

impl Eq for Browser {

}

impl vstd::std_specs::cmp::PartialEqSpecImpl for Browser {
    open spec fn obeys_eq_spec() -> bool {
        true
    }

    open spec fn eq_spec(&self, other: &Self) -> bool {
        self@ == other@
    }
}

/// The marker of a path below the per-user data directory.
pub open spec fn data_home_marker() -> Seq<char> {
    ".local/share/"@
}

/// The path of a browser's program or probe that is declared as `declared`,
/// for the user at `home`: a path that begins with the data-directory marker
/// stands for what follows the marker, below that user's data directory; any
/// other path stands for itself.
pub open spec fn resolved_path(home: Seq<char>, declared: Seq<char>) -> Seq<char> {
    if starts_with(declared, data_home_marker()) {
        joined(joined(home, data_home_dir()), declared.skip(data_home_marker().len() as int))
    } else {
        declared
    }
}

/// The entry that stands for "no browser selected".
pub open spec fn placeholder() -> BrowserView {
    BrowserView {
        kind: BrowserType::NoBrowser,
        name: "Select browser"@,
        executable: Seq::<char>::empty(),
        test: Seq::<char>::empty(),
    }
}

/// What a vector of browsers holds.
pub open spec fn browser_views(v: Seq<Browser>) -> Seq<BrowserView> {
    v.map_values(|b: Browser| b@)
}

/// The browsers of `candidates` whose probe found them, in order.
pub open spec fn found(candidates: Seq<(Browser, Probe)>) -> Seq<BrowserView> {
    candidates.filter_map(
        |c: (Browser, Probe)|
            if c.1 == Probe::Found {
                Some(c.0@)
            } else {
                None
            },
    )
}

/// The first browser of `browsers` at or after `from` that is called `name`.
pub open spec fn named_from(browsers: Seq<BrowserView>, name: Seq<char>, from: int) -> Option<
    BrowserView,
>
    decreases browsers.len() - from,
{
    if from < 0 || from >= browsers.len() {
        None
    } else if browsers[from].name == name {
        Some(browsers[from])
    } else {
        named_from(browsers, name, from + 1)
    }
}

/// The first browser of `browsers` that is called `name`.
pub open spec fn named(browsers: Seq<BrowserView>, name: Seq<char>) -> Option<BrowserView> {
    named_from(browsers, name, 0)
}

/// What an optional browser holds.
pub open spec fn optional_browser(o: Option<Browser>) -> Option<BrowserView> {
    match o {
        Some(b) => Some(b@),
        None => None,
    }
}

/// The path that `declared` stands for, below the data directory `data_home`
/// where it begins with the data-directory marker.
fn resolve(data_home: &Vec<char>, declared: &str) -> (path: Vec<char>)
    ensures
        path@ == if starts_with(declared@, data_home_marker()) {
            joined(data_home@, declared@.skip(data_home_marker().len() as int))
        } else {
            declared@
        },
{
    let marker = to_chars(".local/share/");
    let chars = to_chars(declared);
    if has_prefix(&chars, &marker) {
        let rest = slice(&chars, marker.len(), chars.len());
        assert(rest@ =~= declared@.skip(data_home_marker().len() as int));
        join_chars(data_home, &rest)
    } else {
        chars
    }
}

impl Browser {
    /// A browser of kind `_type`, called `name`, for the user at `home`. A
    /// program or probe path that is declared with the data-directory marker
    /// in front is resolved below that user's data directory.
    pub fn new(_type: BrowserType, name: &str, executable: &str, test_path: &str, home: &str) -> (b:
        Self)
        ensures
            b@.kind == _type,
            b@.name == name@,
            b@.executable == resolved_path(home@, executable@),
            b@.test == resolved_path(home@, test_path@),
    {
        let data_home = join_chars(&to_chars(home), &to_chars(".local/share"));
        Browser {
            _type,
            name: String::from_str(name),
            executable: from_chars(&resolve(&data_home, executable)),
            test: from_chars(&resolve(&data_home, test_path)),
        }
    }

    /// The first of the `installed` browsers that is called `name`.
    pub fn web_browser(name: &str, installed: &Vec<Browser>) -> (r: Option<Browser>)
        ensures
            optional_browser(r) == named(browser_views(installed@), name@),
    {
        let wanted = String::from_str(name);
        let mut i: usize = 0;
        while i < installed.len()
            invariant
                i <= installed.len(),
                wanted@ == name@,
                named_from(browser_views(installed@), name@, i as int) == named(
                    browser_views(installed@),
                    name@,
                ),
            decreases installed.len() - i,
        {
            if installed[i].name == wanted {
                return Some(installed[i].clone());
            }
            i += 1;
        }
        None
    }

    /// Tells whether this is a real browser rather than the placeholder.
    pub fn is_installed(&self) -> (b: bool)
        ensures
            b == (self@.kind != BrowserType::NoBrowser),
    {
        !matches!(self._type, BrowserType::NoBrowser)
    }
}

/// The browsers to offer: the placeholder first, then every candidate whose
/// probe found it, in the order given. A candidate whose probe failed counts
/// as not installed.
pub fn get_supported_browsers(candidates: &Vec<(Browser, Probe)>) -> (browsers: Vec<Browser>)
    ensures
        browser_views(browsers@) == seq![placeholder()] + found(candidates@),
{
    let mut browsers: Vec<Browser> = Vec::new();
    proof {
        reveal_strlit("");
        reveal_strlit(".local/share/");
    }
    let none = Browser::new(BrowserType::NoBrowser, "Select browser", "", "", "");
    proof {
        assert(none@.executable =~= Seq::<char>::empty());
        assert(none@.test =~= Seq::<char>::empty());
    }
    browsers.push(none);
    let mut i: usize = 0;
    assert(candidates@.take(0) =~= Seq::<(Browser, Probe)>::empty());
    assert(browser_views(browsers@) =~= seq![placeholder()] + found(candidates@.take(0)));
    while i < candidates.len()
        invariant
            i <= candidates.len(),
            browser_views(browsers@) == seq![placeholder()] + found(candidates@.take(i as int)),
        decreases candidates.len() - i,
    {
        let ghost before = candidates@.take(i as int);
        let ghost after = candidates@.take(i + 1);
        assert(after.drop_last() =~= before);
        assert(after.last() == candidates@[i as int]);
        match candidates[i].1 {
            Probe::Found => {
                let ghost listed = browser_views(browsers@);
                let kept = candidates[i].0.clone();
                browsers.push(kept);
                assert(found(after) == found(before) + seq![candidates@[i as int].0@]);
                assert(browser_views(browsers@) =~= listed.push(kept@));
                assert(browser_views(browsers@) =~= seq![placeholder()] + found(after));
            },
            _ => {
                assert(browser_views(browsers@) =~= seq![placeholder()] + found(after));
            },
        }
        i += 1;
    }
    assert(candidates@.take(candidates.len() as int) =~= candidates@);
    browsers
}

} // verus!
