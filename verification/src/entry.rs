//! The desktop-entry text of a launcher: how it is written, and how it is read
//! back.
//!
//! Reading is lenient on purpose. A line counts for a key when the key's text
//! stands anywhere in it, and the value is the line with that text taken out;
//! the last such line wins. Entries written by older tools are read the same
//! way, so a value that holds the text of a key is read wrongly.

use vstd::prelude::*;
use vstd::string::StringExecFns;
use crate::browser::{browser_views, named, Browser, BrowserView};
use crate::launcher::{command_line, LauncherView, WebAppLauncher};
use crate::text::{
    contains, contains_pattern, ends_with, find_match, first_match, from_chars, has_prefix,
    has_suffix, lines, newline, remove_all, removed, same_chars, slice, split_lines, starts_with,
    texts, to_chars, views,
};

verus! {

/// Why an entry gave no launcher.
#[derive(Debug, Clone, Copy, PartialEq, Eq, Structural)]
pub enum LauncherError {
    /// The entry file could not be read.
    Unreadable,
    /// No installed browser has the name that the entry gives.
    UnknownBrowser,
}

/// One file of the applications directory, as the caller found it.
#[derive(Debug)]
pub struct EntryFile {
    /// The file's name, without its directory.
    pub filename: String,
    /// The file's full path.
    pub path: String,
    /// The file's lines, without the line ends, or nothing where the file
    /// could not be opened. Lines that could not be read are left out.
    pub lines: Option<Vec<String>>,
}

/// `true` or `false`, spelled out.
pub open spec fn flag_text(b: bool) -> Seq<char> {
    if b {
        "true"@
    } else {
        "false"@
    }
}

/// The lines of the desktop entry of `l`, in the order in which they are
/// written.
pub open spec fn entry_lines(l: LauncherView, home: Seq<char>) -> Seq<Seq<char>> {
    seq![
        "[Desktop Entry]"@,
        "Version=1.0"@,
        "Name="@ + l.name,
        "Comment=Web App"@,
        "Exec="@ + command_line(l, home),
        "Terminal=false"@,
        "Type=Application"@,
        "Icon="@ + l.icon,
        "Categories=GTK;"@ + l.category + ";"@,
        "MimeType=text/html;text/xml;application/xhtml_xml;"@,
        "StartupWMClass=WebApp-"@ + l.codename,
        "StartupNotify=true"@,
        "X-MultipleArgs=false"@,
        "X-WebApp-Browser="@ + l.browser.name,
        "X-WebApp-URL="@ + l.url,
        "X-WebApp-Navbar="@ + flag_text(l.navbar),
        "X-WebApp-PrivateWindow="@ + flag_text(l.is_incognito),
        "X-WebApp-Isolated="@ + flag_text(l.isolate_profile),
        "X-WebApp-CustomParameters="@ + l.custom_parameters,
    ]
}

/// The text made of `ls`, each followed by a line feed.
pub open spec fn joined_lines(ls: Seq<Seq<char>>) -> Seq<char>
    decreases ls.len(),
{
    if ls.len() == 0 {
        Seq::<char>::empty()
    } else {
        joined_lines(ls.drop_last()) + ls.last() + newline()
    }
}

/// The text of the desktop entry of `l`.
pub open spec fn entry_text(l: LauncherView, home: Seq<char>) -> Seq<char> {
    joined_lines(entry_lines(l, home))
}

/// The value that `ls` give for `key`: the last line that holds `key`, with
/// `key` taken out; empty where no line holds it.
pub open spec fn field_value(ls: Seq<Seq<char>>, key: Seq<char>) -> Seq<char>
    decreases ls.len(),
{
    if ls.len() == 0 {
        Seq::<char>::empty()
    } else if contains(ls.last(), key) {
        removed(ls.last(), key)
    } else {
        field_value(ls.drop_last(), key)
    }
}

/// Some line of `ls` holds `marker`.
pub open spec fn has_line_with(ls: Seq<Seq<char>>, marker: Seq<char>) -> bool {
    exists|i: int| 0 <= i < ls.len() && contains(#[trigger] ls[i], marker)
}

/// The lines show an entry made by this library or by one of the tools whose
/// entries it takes over.
pub open spec fn is_web_app(ls: Seq<Seq<char>>) -> bool {
    has_line_with(ls, "StartupWMClass=WebApp"@) || has_line_with(ls, "StartupWMClass=Chromium"@)
        || has_line_with(ls, "StartupWMClass=ICE-SSB"@)
}

/// The category that `ls` give: the value of the categories line without the
/// toolkit marker and without semicolons.
pub open spec fn category_value(ls: Seq<Seq<char>>) -> Seq<char> {
    removed(removed(field_value(ls, "Categories="@), "GTK;"@), seq![';'])
}

/// The pieces of `s` from position `from` on that spaces separate, without
/// the empty ones.
pub open spec fn words_from(s: Seq<char>, from: int) -> Seq<Seq<char>>
    decreases s.len() - from,
{
    if from < 0 || from >= s.len() {
        Seq::<Seq<char>>::empty()
    } else {
        let end = first_match(s, seq![' '], from);
        if end < from || end >= s.len() {
            seq![s.subrange(from, s.len() as int)]
        } else if end == from {
            words_from(s, end + 1)
        } else {
            seq![s.subrange(from, end)] + words_from(s, end + 1)
        }
    }
}

/// The arguments of a command line: what follows its first space, cut at
/// spaces, without empty pieces.
pub open spec fn arguments(command: Seq<char>) -> Seq<Seq<char>> {
    words_from(command, first_match(command, seq![' '], 0) + 1)
}

/// The launcher that the lines `ls` describe, stored at `path` under
/// `codename`; none where no browser of `browsers` has the name they give.
pub open spec fn read_entry(
    ls: Seq<Seq<char>>,
    path: Seq<char>,
    codename: Seq<char>,
    browsers: Seq<BrowserView>,
) -> Option<LauncherView> {
    match named(browsers, field_value(ls, "X-WebApp-Browser="@)) {
        None => None,
        Some(browser) => {
            let name = field_value(ls, "Name="@);
            let icon = field_value(ls, "Icon="@);
            let command = field_value(ls, "Exec="@);
            Some(
                LauncherView {
                    path,
                    codename,
                    browser,
                    name,
                    icon,
                    is_valid: is_web_app(ls) && name.len() > 0 && icon.len() > 0,
                    command,
                    args: arguments(command),
                    category: category_value(ls),
                    url: field_value(ls, "X-WebApp-URL="@),
                    custom_parameters: field_value(ls, "X-WebApp-CustomParameters="@),
                    isolate_profile: field_value(ls, "X-WebApp-Isolated="@) == "true"@,
                    navbar: field_value(ls, "X-WebApp-Navbar="@) == "true"@,
                    is_incognito: field_value(ls, "X-WebApp-PrivateWindow="@) == "true"@,
                },
            )
        },
    }
}

/// A file of this name is a launcher's entry.
pub open spec fn is_entry_name(filename: Seq<char>) -> bool {
    starts_with(filename, "webapp-"@) && ends_with(filename, ".desktop"@)
}

/// The codename that an entry's file name stands for: the name without what
/// every entry's name starts and ends with.
pub open spec fn codename_of(filename: Seq<char>) -> Seq<char> {
    filename.subrange("webapp-"@.len() as int, filename.len() - ".desktop"@.len())
}

/// The name of an entry file has room for both of its ends: they do not
/// overlap.
pub proof fn lemma_entry_name_length(filename: Seq<char>)
    requires
        is_entry_name(filename),
    ensures
        filename.len() >= "webapp-"@.len() + ".desktop"@.len(),
{
    reveal_strlit("webapp-");
    reveal_strlit(".desktop");
    let n = filename.len() as int;
    let dot = n - 8;
    assert(filename.subrange(dot, n)[0] == filename[dot]);
    if dot < 7 {
        assert(filename.subrange(0, 7)[dot] == filename[dot]);
    }
}

/// What a read attempt gave, as contracts see it.
pub open spec fn outcome_view(r: Result<WebAppLauncher, LauncherError>) -> Result<
    LauncherView,
    LauncherError,
> {
    match r {
        Ok(l) => Ok(l@),
        Err(e) => Err(e),
    }
}

/// What a vector of read attempts holds.
pub open spec fn outcome_views(v: Seq<Result<WebAppLauncher, LauncherError>>) -> Seq<
    Result<LauncherView, LauncherError>,
> {
    v.map_values(|r: Result<WebAppLauncher, LauncherError>| outcome_view(r))
}

/// What reading the lines `ls` gives.
pub open spec fn read_outcome(
    ls: Seq<Seq<char>>,
    path: Seq<char>,
    codename: Seq<char>,
    browsers: Seq<BrowserView>,
) -> Result<LauncherView, LauncherError> {
    match read_entry(ls, path, codename, browsers) {
        Some(l) => Ok(l),
        None => Err(LauncherError::UnknownBrowser),
    }
}

/// What `file` contributes to the list of launchers: nothing unless it is
/// named like an entry, else what reading it gives.
pub open spec fn listed(file: EntryFile, browsers: Seq<BrowserView>) -> Option<
    Result<LauncherView, LauncherError>,
> {
    if !is_entry_name(file.filename@) {
        None
    } else {
        match file.lines {
            None => Some(Err(LauncherError::Unreadable)),
            Some(ls) => Some(
                read_outcome(texts(ls@), file.path@, codename_of(file.filename@), browsers),
            ),
        }
    }
}

/// The list of launchers that `files` give, one slot for each entry file, in
/// order.
pub open spec fn listing(files: Seq<EntryFile>, browsers: Seq<BrowserView>) -> Seq<
    Result<LauncherView, LauncherError>,
> {
    files.filter_map(|f: EntryFile| listed(f, browsers))
}

/// `key` followed by `value`.
fn key_value(key: &str, value: &str) -> (line: String)
    ensures
        line@ == key@ + value@,
{
    let mut line = String::from_str(key);
    line.append(value);
    line
}

/// `true` or `false`, spelled out.
fn flag_word(b: bool) -> (word: &'static str)
    ensures
        word@ == flag_text(b),
{
    if b {
        "true"
    } else {
        "false"
    }
}

/// The text made of `ls`, each followed by a line feed.
pub fn join_lines(ls: &Vec<String>) -> (text: String)
    ensures
        text@ == joined_lines(texts(ls@)),
{
    let mut text = String::new();
    let mut i: usize = 0;
    assert(texts(ls@).take(0) =~= Seq::<Seq<char>>::empty());
    while i < ls.len()
        invariant
            i <= ls.len(),
            text@ == joined_lines(texts(ls@).take(i as int)),
        decreases ls.len() - i,
    {
        assert(texts(ls@).take(i + 1).drop_last() =~= texts(ls@).take(i as int));
        text.append(ls[i].as_str());
        text.push('\n');
        i += 1;
    }
    assert(texts(ls@).take(ls.len() as int) =~= texts(ls@));
    text
}

/// The value that `ls` give for `key`.
fn last_value(ls: &Vec<Vec<char>>, key: &str) -> (value: Vec<char>)
    ensures
        value@ == field_value(views(ls@), key@),
{
    let k = to_chars(key);
    let mut value: Vec<char> = Vec::new();
    let mut i: usize = 0;
    assert(views(ls@).take(0) =~= Seq::<Seq<char>>::empty());
    while i < ls.len()
        invariant
            i <= ls.len(),
            k@ == key@,
            value@ == field_value(views(ls@).take(i as int), key@),
        decreases ls.len() - i,
    {
        assert(views(ls@).take(i + 1).drop_last() =~= views(ls@).take(i as int));
        if contains_pattern(&ls[i], &k) {
            value = remove_all(&ls[i], &k);
        }
        i += 1;
    }
    assert(views(ls@).take(ls.len() as int) =~= views(ls@));
    value
}

/// Tells whether some line of `ls` holds `marker`.
fn any_line_with(ls: &Vec<Vec<char>>, marker: &str) -> (b: bool)
    ensures
        b == has_line_with(views(ls@), marker@),
{
    let m = to_chars(marker);
    let mut i: usize = 0;
    while i < ls.len()
        invariant
            i <= ls.len(),
            m@ == marker@,
            forall|j: int| 0 <= j < i ==> !contains(#[trigger] views(ls@)[j], marker@),
        decreases ls.len() - i,
    {
        if contains_pattern(&ls[i], &m) {
            assert(contains(views(ls@)[i as int], marker@));
            return true;
        }
        i += 1;
    }
    false
}

/// Tells whether `text` is the word `true`.
fn is_true(text: &Vec<char>) -> (b: bool)
    ensures
        b == (text@ == "true"@),
{
    same_chars(text, &to_chars("true"))
}

/// The arguments of the command line `command`.
pub fn split_arguments(command: &Vec<char>) -> (args: Vec<String>)
    ensures
        texts(args@) == arguments(command@),
{
    let space: Vec<char> = vec![' '];
    assert(space@ =~= seq![' ']);
    let mut args: Vec<String> = Vec::new();
    let first = find_match(command, &space, 0);
    let mut i: usize = if first < command.len() {
        first + 1
    } else {
        command.len()
    };
    assert(texts(args@) =~= Seq::<Seq<char>>::empty());
    assert(words_from(command@, first + 1) == words_from(command@, i as int));
    while i < command.len()
        invariant
            i <= command.len(),
            space@ == seq![' '],
            texts(args@) + words_from(command@, i as int) == arguments(command@),
        decreases command.len() - i,
    {
        let end = find_match(command, &space, i);
        let ghost before = texts(args@);
        if end > i {
            let word = from_chars(&slice(command, i, end));
            args.push(word);
            assert(texts(args@) =~= before.push(command@.subrange(i as int, end as int)));
            assert(texts(args@) + words_from(command@, end + 1) =~= before + (seq![
                command@.subrange(i as int, end as int),
            ] + words_from(command@, end + 1)));
        }
        i = if end < command.len() {
            end + 1
        } else {
            command.len()
        };
        assert(words_from(command@, end + 1) == words_from(command@, i as int));
    }
    assert(texts(args@) + Seq::<Seq<char>>::empty() =~= texts(args@));
    args
}

/// The codename that the entry file `filename` stands for, where `filename`
/// is the name of an entry file.
pub fn codename_from_filename(filename: &str) -> (codename: Option<String>)
    ensures
        match codename {
            Some(c) => is_entry_name(filename@) && c@ == codename_of(filename@),
            None => !is_entry_name(filename@),
        },
{
    let name = to_chars(filename);
    let start = to_chars("webapp-");
    let end = to_chars(".desktop");
    if has_prefix(&name, &start) && has_suffix(&name, &end) {
        proof {
            lemma_entry_name_length(filename@);
        }
        Some(from_chars(&slice(&name, start.len(), name.len() - end.len())))
    } else {
        None
    }
}

impl LauncherError {
    /// The error in words.
    pub fn message(&self) -> (text: String)
        ensures
            text@ == (match *self {
                LauncherError::Unreadable => "Cannot open web app launcher."@,
                LauncherError::UnknownBrowser => "Cannot read web app launcher."@,
            }),
    {
        match self {
            LauncherError::Unreadable => String::from_str("Cannot open web app launcher."),
            LauncherError::UnknownBrowser => String::from_str("Cannot read web app launcher."),
        }
    }
}

impl WebAppLauncher {
    /// The lines of this launcher's desktop entry for the user at `home`.
    pub fn entry_lines(&self, home: &str) -> (ls: Vec<String>)
        ensures
            texts(ls@) == entry_lines(self@, home@),
    {
        let command = self.exec_string(home);
        let mut categories = key_value("Categories=GTK;", self.category.as_str());
        categories.append(";");
        let mut ls: Vec<String> = Vec::new();
        ls.push(String::from_str("[Desktop Entry]"));
        ls.push(String::from_str("Version=1.0"));
        ls.push(key_value("Name=", self.name.as_str()));
        ls.push(String::from_str("Comment=Web App"));
        ls.push(key_value("Exec=", command.as_str()));
        ls.push(String::from_str("Terminal=false"));
        ls.push(String::from_str("Type=Application"));
        ls.push(key_value("Icon=", self.icon.as_str()));
        ls.push(categories);
        ls.push(String::from_str("MimeType=text/html;text/xml;application/xhtml_xml;"));
        ls.push(key_value("StartupWMClass=WebApp-", self.codename.as_str()));
        ls.push(String::from_str("StartupNotify=true"));
        ls.push(String::from_str("X-MultipleArgs=false"));
        ls.push(key_value("X-WebApp-Browser=", self.web_browser.name.as_str()));
        ls.push(key_value("X-WebApp-URL=", self.url.as_str()));
        ls.push(key_value("X-WebApp-Navbar=", flag_word(self.navbar)));
        ls.push(key_value("X-WebApp-PrivateWindow=", flag_word(self.is_incognito)));
        ls.push(key_value("X-WebApp-Isolated=", flag_word(self.isolate_profile)));
        ls.push(key_value("X-WebApp-CustomParameters=", self.custom_parameters.as_str()));
        assert(texts(ls@) =~= entry_lines(self@, home@));
        ls
    }

    /// The text of this launcher's desktop entry for the user at `home`, to
    /// be written to the launcher's path.
    pub fn create(&self, home: &str) -> (text: String)
        ensures
            text@ == entry_text(self@, home@),
    {
        let ls = self.entry_lines(home);
        join_lines(&ls)
    }

    /// The launcher that the lines `ls` describe, given as character vectors.
    fn read_chars(path: String, codename: String, ls: &Vec<Vec<char>>, installed: &Vec<Browser>) -> (r:
        Result<WebAppLauncher, LauncherError>)
        ensures
            outcome_view(r) == read_outcome(
                views(ls@),
                path@,
                codename@,
                browser_views(installed@),
            ),
    {
        let browser_name = from_chars(&last_value(ls, "X-WebApp-Browser="));
        match Browser::web_browser(browser_name.as_str(), installed) {
            None => Err(LauncherError::UnknownBrowser),
            Some(web_browser) => {
                let name = last_value(ls, "Name=");
                let icon = last_value(ls, "Icon=");
                let command = last_value(ls, "Exec=");
                let listed = last_value(ls, "Categories=");
                let semicolon: Vec<char> = vec![';'];
                assert(semicolon@ =~= seq![';']);
                let category = remove_all(&remove_all(&listed, &to_chars("GTK;")), &semicolon);
                let is_webapp = any_line_with(ls, "StartupWMClass=WebApp") || any_line_with(
                    ls,
                    "StartupWMClass=Chromium",
                ) || any_line_with(ls, "StartupWMClass=ICE-SSB");
                let is_valid = is_webapp && name.len() > 0 && icon.len() > 0;
                let args = split_arguments(&command);
                Ok(
                    WebAppLauncher {
                        path,
                        codename,
                        web_browser,
                        name: from_chars(&name),
                        icon: from_chars(&icon),
                        is_valid,
                        command: from_chars(&command),
                        args,
                        category: from_chars(&category),
                        url: from_chars(&last_value(ls, "X-WebApp-URL=")),
                        custom_parameters: from_chars(
                            &last_value(ls, "X-WebApp-CustomParameters="),
                        ),
                        isolate_profile: is_true(&last_value(ls, "X-WebApp-Isolated=")),
                        navbar: is_true(&last_value(ls, "X-WebApp-Navbar=")),
                        is_incognito: is_true(&last_value(ls, "X-WebApp-PrivateWindow=")),
                    },
                )
            },
        }
    }

    /// The launcher that the lines `ls` of an entry file describe. `path` is
    /// where the entry is kept and `codename` what its file name gives; the
    /// browser is the first of `installed` with the name that the entry
    /// gives, and without one there is no launcher.
    pub fn read(path: String, codename: String, ls: &Vec<String>, installed: &Vec<Browser>) -> (r:
        Result<WebAppLauncher, LauncherError>)
        ensures
            outcome_view(r) == read_outcome(
                texts(ls@),
                path@,
                codename@,
                browser_views(installed@),
            ),
            r matches Ok(l) ==> l@.wf(),
    {
        let mut chars: Vec<Vec<char>> = Vec::new();
        let mut i: usize = 0;
        while i < ls.len()
            invariant
                i <= ls.len(),
                views(chars@) == texts(ls@).take(i as int),
            decreases ls.len() - i,
        {
            let ghost before = views(chars@);
            chars.push(to_chars(ls[i].as_str()));
            assert(views(chars@) =~= before.push(ls@[i as int]@));
            assert(texts(ls@).take(i + 1) =~= before.push(ls@[i as int]@));
            i += 1;
        }
        assert(texts(ls@).take(ls.len() as int) =~= texts(ls@));
        WebAppLauncher::read_chars(path, codename, &chars, installed)
    }

    /// The launcher that the entry text `content` describes: `read` on the
    /// lines of `content`.
    pub fn read_text(path: String, codename: String, content: &str, installed: &Vec<Browser>) -> (r:
        Result<WebAppLauncher, LauncherError>)
        ensures
            outcome_view(r) == read_outcome(
                lines(content@),
                path@,
                codename@,
                browser_views(installed@),
            ),
            r matches Ok(l) ==> l@.wf(),
    {
        let ls = split_lines(&to_chars(content));
        WebAppLauncher::read_chars(path, codename, &ls, installed)
    }
}

/// The launchers that the files of the applications directory give: one
/// result for each file named like an entry, in the order of `files`. A file
/// that could not be opened, or whose browser is not installed, fills its slot
/// with the reason and does not disturb the others.
pub fn get_webapps(files: &Vec<EntryFile>, installed: &Vec<Browser>) -> (webapps: Vec<
    Result<WebAppLauncher, LauncherError>,
>)
    ensures
        outcome_views(webapps@) == listing(files@, browser_views(installed@)),
{
    let mut webapps: Vec<Result<WebAppLauncher, LauncherError>> = Vec::new();
    let mut i: usize = 0;
    assert(files@.take(0) =~= Seq::<EntryFile>::empty());
    assert(outcome_views(webapps@) =~= listing(files@.take(0), browser_views(installed@)));
    while i < files.len()
        invariant
            i <= files.len(),
            outcome_views(webapps@) == listing(files@.take(i as int), browser_views(installed@)),
        decreases files.len() - i,
    {
        let ghost before = outcome_views(webapps@);
        assert(files@.take(i + 1).drop_last() =~= files@.take(i as int));
        assert(files@.take(i + 1).last() == files@[i as int]);
        let file = &files[i];
        match codename_from_filename(file.filename.as_str()) {
            None => {},
            Some(codename) => {
                let slot = match &file.lines {
                    None => Err(LauncherError::Unreadable),
                    Some(ls) => WebAppLauncher::read(file.path.clone(), codename, ls, installed),
                };
                assert(Some(outcome_view(slot)) == listed(*file, browser_views(installed@)));
                webapps.push(slot);
                assert(outcome_views(webapps@) =~= before.push(outcome_view(slot)));
            },
        }
        i += 1;
    }
    assert(files@.take(files.len() as int) =~= files@);
    webapps
}

} // verus!
