//! What holds of the library as a whole: laws that relate several of its
//! functions, stated over the same models as their contracts.

use vstd::prelude::*;
use crate::browser::{named, named_from, BrowserView};
use crate::entry::{
    codename_of, entry_lines, entry_text, field_value, flag_text, is_entry_name, joined_lines,
    read_entry,
};
use crate::launcher::{
    chromium_command, chromium_head, decimal, entry_file_name, generated_codename,
    lemma_decimal_injective, private_flag, shared_profile_dir, window_class, with_flag,
    with_user_data_dir, LauncherView,
};
use crate::text::{contains, ends_with, lines, newline, removed};
use crate::text_facts::{
    ends_only_with, free_of, lemma_contains_in_parts, lemma_contains_length,
    lemma_contains_own_prefix, lemma_contains_split, lemma_free_of_parts,
    lemma_key_not_in_other_line, lemma_lines_push, lemma_not_an_ending, lemma_removed_key,
    single_line,
};

verus! {

/// Two launchers of one name whose codenames were made from different numbers
/// have different codenames. Of the 9000 numbers that a new launcher draws
/// from, only an equal draw gives an equal codename.
pub proof fn lemma_codenames_differ(name: Seq<char>, a: nat, b: nat)
    requires
        a != b,
    ensures
        generated_codename(name, a) != generated_codename(name, b),
{
    let stem = removed(name, seq![' ']);
    if generated_codename(name, a) == generated_codename(name, b) {
        assert((stem + decimal(a)).skip(stem.len() as int) =~= decimal(a));
        assert((stem + decimal(b)).skip(stem.len() as int) =~= decimal(b));
        lemma_decimal_injective(a, b);
    }
}

/// One of the options that a Chromium command line holds only for an
/// isolated profile or a private session.
pub open spec fn is_session_option(option: Seq<char>) -> bool {
    option == "--user-data-dir"@ || option == "--incognito"@ || option == "--inprivate"@
}

/// A session option has no space and no `=` in it, and at least eleven
/// characters.
proof fn lemma_session_option_shape(option: Seq<char>)
    requires
        is_session_option(option),
    ensures
        free_of(option, ' '),
        free_of(option, '='),
        option.len() >= 11,
{
    reveal_strlit("--user-data-dir");
    reveal_strlit("--incognito");
    reveal_strlit("--inprivate");
}

/// Where `a` ends in the character `c` or `b` starts with it, a pattern
/// without `c` is found in `a` and `b` put together exactly when it is found
/// in one of them.
proof fn lemma_contains_boundary(a: Seq<char>, b: Seq<char>, p: Seq<char>, c: char)
    requires
        free_of(p, c),
        (a.len() > 0 && a.last() == c) || (b.len() > 0 && b[0] == c),
    ensures
        contains(a + b, p) <==> contains(a, p) || contains(b, p),
{
    if a.len() > 0 && a.last() == c {
        assert(a.drop_last() + seq![c] + b =~= a + b);
        assert(a.drop_last() + seq![c] =~= a);
        lemma_contains_split(a.drop_last(), c, b, p);
        lemma_contains_in_parts(a, b, p);
        lemma_contains_in_parts(a.drop_last(), seq![c], p);
    } else {
        assert(a + seq![c] + b.skip(1) =~= a + b);
        assert(seq![c] + b.skip(1) =~= b);
        lemma_contains_split(a, c, b.skip(1), p);
        lemma_contains_in_parts(a, b, p);
        lemma_contains_in_parts(seq![c], b.skip(1), p);
    }
}

/// An option that starts with a space, ends with `=` and is shorter than the
/// pattern brings the pattern into a command line only through its value.
proof fn lemma_contains_option(a: Seq<char>, flag: Seq<char>, value: Seq<char>, p: Seq<char>)
    requires
        flag.len() > 0,
        flag[0] == ' ',
        flag.last() == '=',
        flag.len() < p.len(),
        free_of(p, ' '),
        free_of(p, '='),
    ensures
        contains(a + flag + value, p) <==> contains(a, p) || contains(value, p),
{
    assert(a + flag + value =~= a + (flag + value));
    lemma_contains_boundary(a, flag + value, p, ' ');
    lemma_contains_boundary(flag, value, p, '=');
    if contains(flag, p) {
        lemma_contains_length(flag, p);
    }
}

/// With the profile not isolated and the session not private, the command
/// line of a Chromium-like browser holds none of the session options, unless
/// the launcher's own texts bring one: the program, the address, the window
/// class or the extra parameters.
pub proof fn lemma_chromium_plain(l: LauncherView, home: Seq<char>, option: Seq<char>)
    requires
        !l.isolate_profile,
        !l.is_incognito,
        is_session_option(option),
    ensures
        contains(chromium_command(l, home), option) <==> (contains(l.command, option) || contains(
            l.url,
            option,
        ) || contains(window_class(l.codename), option) || contains(l.custom_parameters, option)),
{
    lemma_session_option_shape(option);
    let class = window_class(l.codename);
    let space = seq![' '];
    let s3 = l.command + " --app="@ + l.url;
    let s5 = s3 + " --class=WebApp-"@ + l.codename;
    let s7 = s5 + " --name=WebApp-"@ + l.codename;
    let s8 = s7 + " "@;
    assert(contains(s3, option) <==> contains(l.command, option) || contains(l.url, option)) by {
        reveal_strlit(" --app=");
        lemma_contains_option(l.command, " --app="@, l.url, option);
    }
    assert(contains(s5, option) <==> contains(s3, option) || contains(class, option)) by {
        reveal_strlit(" --class=WebApp-");
        reveal_strlit("WebApp-");
        let flag = seq![' ', '-', '-', 'c', 'l', 'a', 's', 's', '='];
        assert(" --class=WebApp-"@ =~= flag + "WebApp-"@);
        assert(s5 =~= s3 + flag + class);
        lemma_contains_option(s3, flag, class, option);
    }
    assert(contains(s7, option) <==> contains(s5, option) || contains(class, option)) by {
        reveal_strlit(" --name=WebApp-");
        reveal_strlit("WebApp-");
        let flag = seq![' ', '-', '-', 'n', 'a', 'm', 'e', '='];
        assert(" --name=WebApp-"@ =~= flag + "WebApp-"@);
        assert(s7 =~= s5 + flag + class);
        lemma_contains_option(s5, flag, class, option);
    }
    assert(" "@ =~= space) by {
        reveal_strlit(" ");
    }
    if contains(space, option) {
        lemma_contains_length(space, option);
    }
    lemma_contains_boundary(s7, space, option, ' ');
    assert(s8 == chromium_head(l));
    if l.custom_parameters.len() > 0 {
        lemma_contains_boundary(s8, l.custom_parameters, option, ' ');
        lemma_contains_boundary(s8 + l.custom_parameters, space, option, ' ');
    }
}

/// With the profile isolated, the command line of a Chromium-like browser
/// names the profile directory; with the session private, it holds the
/// browser's private flag.
pub proof fn lemma_chromium_session(l: LauncherView, home: Seq<char>)
    ensures
        l.isolate_profile ==> contains(
            chromium_command(l, home),
            "--user-data-dir="@ + shared_profile_dir(home, l.codename),
        ),
        l.is_incognito ==> contains(chromium_command(l, home), private_flag(l.browser.name)),
{
    let option = "--user-data-dir="@ + shared_profile_dir(home, l.codename);
    let flag = private_flag(l.browser.name);
    let none = Seq::<char>::empty();
    let head = chromium_head(l);
    let isolated = with_user_data_dir(head, l, home);
    let private = with_flag(isolated, l.is_incognito, flag);
    let added_flag = if l.is_incognito {
        flag
    } else {
        none
    };
    let added_parameters = if l.custom_parameters.len() > 0 {
        l.custom_parameters + " "@
    } else {
        none
    };
    assert(private =~= isolated + added_flag);
    assert(chromium_command(l, home) =~= private + added_parameters);
    if l.isolate_profile {
        assert(isolated =~= head + (option + " "@));
        lemma_contains_own_prefix(option, " "@);
        lemma_contains_in_parts(head, option + " "@, option);
        lemma_contains_in_parts(isolated, added_flag, option);
        lemma_contains_in_parts(private, added_parameters, option);
    }
    if l.is_incognito {
        assert(flag + none =~= flag);
        lemma_contains_own_prefix(flag, none);
        lemma_contains_in_parts(isolated, flag, flag);
        lemma_contains_in_parts(private, added_parameters, flag);
    }
}

/// The file name of a launcher's entry is the name of an entry file and
/// gives back the launcher's codename, whatever the codename holds.
pub proof fn lemma_codename_of_entry_name(codename: Seq<char>)
    ensures
        is_entry_name(entry_file_name(codename)),
        codename_of(entry_file_name(codename)) == codename,
{
    let start = "webapp-"@;
    let end = ".desktop"@;
    let name = entry_file_name(codename);
    assert(name.subrange(0, start.len() as int) =~= start);
    assert(name.subrange(name.len() - end.len(), name.len() as int) =~= end);
    assert(name.subrange(start.len() as int, name.len() - end.len()) =~= codename);
}

/// The shape of a key of the entry format: it starts with the one `X` it
/// holds, ends with the one `=` it holds, and is a single line.
pub open spec fn is_key(k: Seq<char>) -> bool {
    &&& k.len() >= 6
    &&& k[0] == 'X'
    &&& free_of(k.skip(1), 'X')
    &&& ends_only_with(k, '=')
    &&& free_of(k, '\n')
}

/// The keys that carry what the desktop-entry format itself has no key for,
/// in the order in which they are written.
pub open spec fn own_keys() -> Seq<Seq<char>> {
    seq![
        "X-WebApp-Browser="@,
        "X-WebApp-URL="@,
        "X-WebApp-Navbar="@,
        "X-WebApp-PrivateWindow="@,
        "X-WebApp-Isolated="@,
        "X-WebApp-CustomParameters="@,
    ]
}

/// The values that a launcher gives to the keys of `own_keys`.
pub open spec fn own_values(l: LauncherView) -> Seq<Seq<char>> {
    seq![
        l.browser.name,
        l.url,
        flag_text(l.navbar),
        flag_text(l.is_incognito),
        flag_text(l.isolate_profile),
        l.custom_parameters,
    ]
}

/// The launcher's texts can be read back: browser name, address and extra
/// parameters are single lines, and none of them holds the text of its own
/// key or of a key written before it.
pub open spec fn reads_back(l: LauncherView) -> bool {
    &&& single_line(l.browser.name)
    &&& single_line(l.url)
    &&& single_line(l.custom_parameters)
    &&& !contains(l.browser.name, own_keys()[0])
    &&& forall|j: int| 0 <= j <= 1 ==> !contains(l.url, #[trigger] own_keys()[j])
    &&& forall|j: int| 0 <= j <= 5 ==> !contains(l.custom_parameters, #[trigger] own_keys()[j])
}

/// A text with one leading `X`, one closing `=` and no line feed is a key.
proof fn lemma_key_shape(k: Seq<char>)
    requires
        k.len() >= 6,
        k[0] == 'X',
        k.last() == '=',
        forall|j: int| 1 <= j < k.len() ==> k[j] != 'X',
        forall|j: int| 0 <= j < k.len() - 1 ==> k[j] != '=',
        forall|j: int| 0 <= j < k.len() ==> k[j] != '\n',
    ensures
        is_key(k),
{
    assert forall|j: int| 0 <= j < k.skip(1).len() implies k.skip(1)[j] != 'X' by {
        assert(k.skip(1)[j] == k[j + 1]);
    }
    assert forall|j: int| 0 <= j < k.drop_last().len() implies k.drop_last()[j] != '=' by {
        assert(k.drop_last()[j] == k[j]);
    }
}

/// The library's own keys are keys, each of another length.
proof fn lemma_own_keys()
    ensures
        forall|i: int| 0 <= i < 6 ==> is_key(#[trigger] own_keys()[i]),
        own_keys().len() == 6,
        own_keys()[0].len() == 17,
        own_keys()[1].len() == 13,
        own_keys()[2].len() == 16,
        own_keys()[3].len() == 23,
        own_keys()[4].len() == 18,
        own_keys()[5].len() == 26,
{
    reveal_strlit("X-WebApp-Browser=");
    reveal_strlit("X-WebApp-URL=");
    reveal_strlit("X-WebApp-Navbar=");
    reveal_strlit("X-WebApp-PrivateWindow=");
    reveal_strlit("X-WebApp-Isolated=");
    reveal_strlit("X-WebApp-CustomParameters=");
    lemma_key_shape("X-WebApp-Browser="@);
    lemma_key_shape("X-WebApp-URL="@);
    lemma_key_shape("X-WebApp-Navbar="@);
    lemma_key_shape("X-WebApp-PrivateWindow="@);
    lemma_key_shape("X-WebApp-Isolated="@);
    lemma_key_shape("X-WebApp-CustomParameters="@);
}

/// A switch is written as a short single line, and reads as set exactly when
/// it was set.
proof fn lemma_flag_text(b: bool)
    ensures
        single_line(flag_text(b)),
        flag_text(b).len() <= 5,
        (flag_text(b) == "true"@) == b,
{
    reveal_strlit("true");
    reveal_strlit("false");
}

/// A key of another length is no ending of a key.
proof fn lemma_keys_apart(head: Seq<char>, key: Seq<char>)
    requires
        is_key(head),
        is_key(key),
        head.len() != key.len(),
    ensures
        !ends_with(head, key),
{
    if key.len() < head.len() {
        let at = head.len() - key.len();
        assert(head.skip(1)[at - 1] == head[at]);
    }
    lemma_not_an_ending(head, key);
}

/// A key followed by a single line is a single line.
proof fn lemma_key_line(key: Seq<char>, v: Seq<char>)
    requires
        is_key(key),
        single_line(v),
    ensures
        single_line(key + v),
{
    lemma_free_of_parts(key, v, '\n');
}

/// Among lines that each consist of a key and a value, with keys of different
/// lengths, the value read for a key is the value written after it, provided
/// that neither this value nor one written later holds the key's text.
proof fn lemma_field_of_key_lines(
    before: Seq<Seq<char>>,
    keys: Seq<Seq<char>>,
    values: Seq<Seq<char>>,
    j: int,
)
    requires
        keys.len() == values.len(),
        0 <= j < keys.len(),
        forall|i: int| 0 <= i < keys.len() ==> is_key(#[trigger] keys[i]),
        forall|i: int, k: int|
            0 <= i < keys.len() && 0 <= k < keys.len() && i != k ==> (#[trigger] keys[i]).len() != (
            #[trigger] keys[k]).len(),
        forall|k: int| j <= k < keys.len() ==> !contains(#[trigger] values[k], keys[j]),
    ensures
        field_value(before + Seq::new(keys.len(), |i: int| keys[i] + values[i]), keys[j])
            == values[j],
    decreases keys.len() - j,
{
    let n = keys.len() as int;
    let written = Seq::new(keys.len(), |i: int| keys[i] + values[i]);
    let all = before + written;
    assert(all.last() == written[n - 1]);
    if j == n - 1 {
        lemma_contains_own_prefix(keys[j], values[j]);
        lemma_removed_key(keys[j], values[j]);
    } else {
        lemma_keys_apart(keys[n - 1], keys[j]);
        lemma_key_not_in_other_line(keys[n - 1], keys[j], values[n - 1], '=');
        let fewer_keys = keys.drop_last();
        let fewer_values = values.drop_last();
        let fewer = Seq::new(fewer_keys.len(), |i: int| fewer_keys[i] + fewer_values[i]);
        assert(all.drop_last() =~= before + fewer);
        lemma_field_of_key_lines(before, fewer_keys, fewer_values, j);
    }
}

/// Each line that is joined ends with a line feed.
proof fn lemma_joined_ends(ls: Seq<Seq<char>>)
    ensures
        joined_lines(ls).len() == 0 || joined_lines(ls).last() == '\n',
{
    if ls.len() > 0 {
        let text = joined_lines(ls.drop_last()) + ls.last() + newline();
        assert(text.last() == newline()[0]);
    }
}

/// Lines that are joined and split again come back as they were, if each is
/// a single line.
pub proof fn lemma_lines_of_joined_lines(ls: Seq<Seq<char>>)
    requires
        forall|i: int| 0 <= i < ls.len() ==> single_line(#[trigger] ls[i]),
    ensures
        lines(joined_lines(ls)) == ls,
{
    lemma_lines_of_joined(ls, 0, ls.len() as int);
    assert(ls.take(ls.len() as int) =~= ls);
    assert(ls.take(0) =~= Seq::<Seq<char>>::empty());
    assert(ls.subrange(0, ls.len() as int) =~= ls);
    assert(lines(Seq::<char>::empty()) =~= Seq::<Seq<char>>::empty());
    assert(Seq::<Seq<char>>::empty() + ls =~= ls);
}

/// Reading back joined lines: from any line on, single lines come back as
/// they were written.
proof fn lemma_lines_of_joined(ls: Seq<Seq<char>>, from: int, to: int)
    requires
        0 <= from <= to <= ls.len(),
        forall|i: int| from <= i < to ==> single_line(#[trigger] ls[i]),
    ensures
        lines(joined_lines(ls.take(to))) == lines(joined_lines(ls.take(from))) + ls.subrange(
            from,
            to,
        ),
    decreases to - from,
{
    if from == to {
        assert(ls.subrange(from, to) =~= Seq::<Seq<char>>::empty());
        assert(lines(joined_lines(ls.take(from))) + ls.subrange(from, to) =~= lines(
            joined_lines(ls.take(from)),
        ));
    } else {
        lemma_lines_of_joined(ls, from, to - 1);
        let shorter = joined_lines(ls.take(to - 1));
        assert(ls.take(to).drop_last() =~= ls.take(to - 1));
        assert(ls.take(to).last() == ls[to - 1]);
        lemma_joined_ends(ls.take(to - 1));
        lemma_lines_push(shorter, ls[to - 1]);
        assert(ls.subrange(from, to - 1).push(ls[to - 1]) =~= ls.subrange(from, to));
        assert((lines(joined_lines(ls.take(from))) + ls.subrange(from, to - 1)).push(ls[to - 1])
            =~= lines(joined_lines(ls.take(from))) + ls.subrange(from, to));
    }
}

/// The browser found under a name has that name.
proof fn lemma_named_has_name(browsers: Seq<BrowserView>, name: Seq<char>, from: int)
    requires
        0 <= from,
    ensures
        named_from(browsers, name, from) matches Some(b) ==> b.name == name,
    decreases browsers.len() - from,
{
    if from < browsers.len() && browsers[from].name != name {
        lemma_named_has_name(browsers, name, from + 1);
    }
}

/// What was written under the library's own keys, as it is read from lines
/// that end with the lines of those keys.
proof fn lemma_own_values_read(
    before: Seq<Seq<char>>,
    l: LauncherView,
    path: Seq<char>,
    codename: Seq<char>,
    browsers: Seq<BrowserView>,
)
    requires
        !contains(l.browser.name, own_keys()[0]),
        forall|j: int| 0 <= j <= 1 ==> !contains(l.url, #[trigger] own_keys()[j]),
        forall|j: int| 0 <= j <= 5 ==> !contains(l.custom_parameters, #[trigger] own_keys()[j]),
        named(browsers, l.browser.name) is Some,
    ensures
        read_entry(
            before + Seq::new(6, |i: int| own_keys()[i] + own_values(l)[i]),
            path,
            codename,
            browsers,
        ) matches Some(r) && gives_back(r, l, path, codename, browsers),
{
    let keys = own_keys();
    let values = own_values(l);
    lemma_own_keys();
    lemma_flag_text(l.navbar);
    lemma_flag_text(l.is_incognito);
    lemma_flag_text(l.isolate_profile);
    assert forall|j: int, k: int| 0 <= j < 6 && j <= k < 6 implies !contains(
        #[trigger] values[k],
        #[trigger] keys[j],
    ) by {
        if contains(values[k], keys[j]) {
            lemma_contains_length(values[k], keys[j]);
        }
    }
    lemma_field_of_key_lines(before, keys, values, 0);
    lemma_field_of_key_lines(before, keys, values, 1);
    lemma_field_of_key_lines(before, keys, values, 2);
    lemma_field_of_key_lines(before, keys, values, 3);
    lemma_field_of_key_lines(before, keys, values, 4);
    lemma_field_of_key_lines(before, keys, values, 5);
    lemma_named_has_name(browsers, l.browser.name, 0);
}

/// The launcher `r` was read under `path` and `codename`, and has the
/// address, the three switches and the extra parameters of `l` and the first
/// browser of `browsers` with the name of the browser of `l`.
pub open spec fn gives_back(
    r: LauncherView,
    l: LauncherView,
    path: Seq<char>,
    codename: Seq<char>,
    browsers: Seq<BrowserView>,
) -> bool {
    &&& r.path == path
    &&& r.codename == codename
    &&& Some(r.browser) == named(browsers, l.browser.name)
    &&& r.browser.name == l.browser.name
    &&& r.url == l.url
    &&& r.navbar == l.navbar
    &&& r.is_incognito == l.is_incognito
    &&& r.isolate_profile == l.isolate_profile
    &&& r.custom_parameters == l.custom_parameters
}

/// Reading the lines that were written for a launcher gives a launcher with
/// the same address, the same three switches, the same extra parameters and
/// a browser of the same name: the first of `browsers` that has it. This
/// holds of every launcher whose browser name, address and extra parameters
/// do not hold the text of their own key or of a key written before it, and
/// whose browser is among `browsers`.
pub proof fn lemma_round_trip_lines(
    l: LauncherView,
    home: Seq<char>,
    path: Seq<char>,
    codename: Seq<char>,
    browsers: Seq<BrowserView>,
)
    requires
        !contains(l.browser.name, own_keys()[0]),
        forall|j: int| 0 <= j <= 1 ==> !contains(l.url, #[trigger] own_keys()[j]),
        forall|j: int| 0 <= j <= 5 ==> !contains(l.custom_parameters, #[trigger] own_keys()[j]),
        named(browsers, l.browser.name) is Some,
    ensures
        read_entry(entry_lines(l, home), path, codename, browsers) matches Some(r) && gives_back(
            r,
            l,
            path,
            codename,
            browsers,
        ),
{
    let written = entry_lines(l, home);
    let tail = Seq::new(6, |i: int| own_keys()[i] + own_values(l)[i]);
    assert(written =~= written.take(13) + tail);
    lemma_own_values_read(written.take(13), l, path, codename, browsers);
}

/// Writing a launcher as text and reading the text back gives a launcher
/// with the same address, the same three switches, the same extra parameters
/// and a browser of the same name: the first of `browsers` that has it. This
/// holds of every launcher whose texts can be read back (`reads_back`) and
/// whose browser is among `browsers`; path and codename are those given to
/// the reader.
pub proof fn lemma_round_trip(
    l: LauncherView,
    home: Seq<char>,
    path: Seq<char>,
    codename: Seq<char>,
    browsers: Seq<BrowserView>,
)
    requires
        reads_back(l),
        named(browsers, l.browser.name) is Some,
    ensures
        read_entry(lines(entry_text(l, home)), path, codename, browsers) matches Some(r)
            && gives_back(r, l, path, codename, browsers),
{
    let written = entry_lines(l, home);
    let keys = own_keys();
    let values = own_values(l);
    let tail = Seq::new(6, |i: int| keys[i] + values[i]);
    lemma_own_keys();
    lemma_flag_text(l.navbar);
    lemma_flag_text(l.is_incognito);
    lemma_flag_text(l.isolate_profile);
    assert(written.subrange(13, 19) =~= tail);
    assert forall|i: int| 13 <= i < 19 implies single_line(#[trigger] written[i]) by {
        assert(written[i] == keys[i - 13] + values[i - 13]);
        lemma_key_line(keys[i - 13], values[i - 13]);
    }
    lemma_lines_of_joined(written, 13, 19);
    assert(written.take(19) =~= written);
    lemma_own_values_read(lines(joined_lines(written.take(13))), l, path, codename, browsers);
}

} // verus!
