//! Icons: which files of the icon directory suit a launcher, which images a
//! page offers, what a chosen image is, and where it is kept.

use vstd::prelude::*;
use vstd::string::StringExecFns;
use crate::outside::{
    attribute_texts, decode_size, decoded_size, host_of_url, select_attributes, select_html,
    selected_attributes, selected_html, svg_size, url_host, url_parses, url_valid,
};
use crate::paths::{
    extension_chars, join_path, joined, last_dot, path_extension, user_icons_folder,
};
use crate::text::{
    contains, contains_pattern, extend, from_chars, remove_all, removed, same_chars, slice, texts,
    to_chars,
};

verus! {

/// What kind of image an icon is.
#[derive(Debug, Clone, Copy, PartialEq, Eq, Structural)]
pub enum IconType {
    /// A vector image, taken as it is.
    Svg,
    /// A decoded raster image.
    Raster,
}

/// One file found below the icon directory.
#[derive(Debug)]
pub struct IconCandidate {
    /// The file's name, without its directory.
    pub filename: String,
    /// The file's full path.
    pub path: String,
    /// The file's text, or nothing where it is not text or could not be read.
    pub content: Option<String>,
}

/// What to do with a chosen icon so that it ends up in the user's folder.
#[derive(Debug, Clone, Copy, PartialEq, Eq, Structural)]
pub enum IconAction {
    /// Fetch it from its address and store what comes.
    Download,
    /// Copy the file.
    Copy,
    /// Nothing: it is there already.
    Keep,
}

/// Where a chosen icon is kept, and how it gets there.
#[derive(Debug)]
pub struct IconMove {
    pub save_path: String,
    pub action: IconAction,
}

/// The smallest width and height of a vector icon that is offered.
pub const SVG_MIN: u32 = 64;

/// The smallest width and height of a raster icon that is taken.
pub const RASTER_MIN: u32 = 96;

/// `path` names a vector image: it is no URL and its extension is `svg`.
pub open spec fn is_svg_path(path: Seq<char>) -> bool {
    !url_parses(path) && path_extension(path) == Some("svg"@)
}

/// The label before the last one, where dots separate the labels of `host`.
pub open spec fn icon_label(host: Seq<char>) -> Seq<char> {
    let head = host.take(last_dot(host));
    head.skip(last_dot(head) + 1)
}

/// The icon name for the host of a URL: empty without a host.
pub open spec fn icon_name(host: Option<Seq<char>>) -> Seq<char> {
    match host {
        Some(h) => icon_label(h),
        None => Seq::<char>::empty(),
    }
}

/// A size is large enough for an offered vector icon.
pub open spec fn svg_fits(size: Option<(u32, u32)>) -> bool {
    size matches Some(s) && s.0 >= SVG_MIN && s.1 >= SVG_MIN
}

/// The candidate is offered for `name`: its file name holds `name`, and if it
/// is a vector image, its size was found and is large enough.
pub open spec fn offered(c: IconCandidate, size: Option<(u32, u32)>, name: Seq<char>) -> bool {
    contains(c.filename@, name) && (is_svg_path(c.path@) ==> svg_fits(size))
}

/// The paths of the candidates that are offered for `name`, each once, in
/// the order of their first appearance.
pub open spec fn selected(
    candidates: Seq<IconCandidate>,
    sizes: Seq<Option<(u32, u32)>>,
    name: Seq<char>,
) -> Seq<Seq<char>>
    decreases candidates.len(),
{
    if candidates.len() == 0 || sizes.len() != candidates.len() {
        Seq::<Seq<char>>::empty()
    } else {
        let rest = selected(candidates.drop_last(), sizes.drop_last(), name);
        let c = candidates.last();
        if offered(c, sizes.last(), name) && !rest.contains(c.path@) {
            rest.push(c.path@)
        } else {
            rest
        }
    }
}

/// The second attribute of every element whose first attribute is `wanted`
/// and that has a second one, in order.
pub open spec fn picked(
    attributes: Seq<(Option<Seq<char>>, Option<Seq<char>>)>,
    wanted: Seq<char>,
) -> Seq<Seq<char>> {
    attributes.filter_map(
        |a: (Option<Seq<char>>, Option<Seq<char>>)|
            if a.0 == Some(wanted) {
                a.1
            } else {
                None
            },
    )
}

/// The images that one head section offers: the targets of its icon links,
/// then the images of its preview metadata.
pub open spec fn head_icons(head: Seq<char>) -> Seq<Seq<char>> {
    picked(selected_attributes(head, "link"@, "rel"@, "href"@), "icon"@) + picked(
        selected_attributes(head, "meta"@, "property"@, "content"@),
        "og:image"@,
    )
}

/// The images that the head sections `heads` offer, section by section.
pub open spec fn heads_icons(heads: Seq<Seq<char>>) -> Seq<Seq<char>>
    decreases heads.len(),
{
    if heads.len() == 0 {
        Seq::<Seq<char>>::empty()
    } else {
        heads_icons(heads.drop_last()) + head_icons(heads.last())
    }
}

/// What a chosen image is: a vector image by its name alone, a raster image
/// where it decodes to at least the smallest size, nothing otherwise.
pub open spec fn icon_kind_of(svg: bool, size: Option<(u32, u32)>) -> Option<IconType> {
    if svg {
        Some(IconType::Svg)
    } else if size matches Some(s) && s.0 >= RASTER_MIN && s.1 >= RASTER_MIN {
        Some(IconType::Raster)
    } else {
        None
    }
}

/// The file under which the icon `path` is kept as `output_name` in the icon
/// directory `icons`: in the user's folder, named without spaces, with the
/// extension of `path`.
pub open spec fn saved_icon_path(icons: Seq<char>, path: Seq<char>, output_name: Seq<char>) -> Seq<
    char,
> {
    joined(
        joined(icons, user_icons_folder()),
        removed(output_name, seq![' ']) + seq!['.'] + path_extension(path).unwrap(),
    )
}

/// How the icon `path` gets to `save_path`.
pub open spec fn icon_action(path: Seq<char>, save_path: Seq<char>) -> IconAction {
    if url_parses(path) {
        IconAction::Download
    } else if !contains(path, save_path) {
        IconAction::Copy
    } else {
        IconAction::Keep
    }
}

/// Tells whether `path` names a vector image.
pub fn is_svg(path: &str) -> (b: bool)
    ensures
        b == is_svg_path(path@),
{
    if url_valid(path) {
        return false;
    }
    let svg = to_chars("svg");
    match extension_chars(&to_chars(path)) {
        None => false,
        Some(ext) => same_chars(&ext, &svg),
    }
}

/// The position of the last `.` in the first `end` characters of `s`.
fn last_dot_before(s: &Vec<char>, end: usize) -> (r: Option<usize>)
    requires
        end <= s.len(),
    ensures
        match r {
            Some(i) => last_dot(s@.take(end as int)) == i && i < end,
            None => last_dot(s@.take(end as int)) == -1,
        },
{
    let mut i: usize = end;
    while i > 0
        invariant
            i <= end <= s.len(),
            last_dot(s@.take(i as int)) == last_dot(s@.take(end as int)),
        decreases i,
    {
        if s[i - 1] == '.' {
            return Some(i - 1);
        }
        assert(s@.take(i as int).drop_last() =~= s@.take(i - 1));
        i -= 1;
    }
    None
}

/// The icon name for `host`: the label before its last one.
pub fn icon_name_from_host(host: &str) -> (name: String)
    requires
        last_dot(host@) >= 0,
    ensures
        name@ == icon_label(host@),
{
    let h = to_chars(host);
    assert(h@.take(h.len() as int) =~= h@);
    match last_dot_before(&h, h.len()) {
        None => String::new(),
        Some(end) => {
            let start = match last_dot_before(&h, end) {
                None => 0,
                Some(dot) => dot + 1,
            };
            let label = slice(&h, start, end);
            assert(label@ =~= icon_label(host@));
            from_chars(&label)
        },
    }
}

/// The icon name for the address `url`: the label before the last one of its
/// host, empty where `url` does not parse or has no host.
pub fn get_icon_name_from_url(url: &str) -> (name: String)
    requires
        url_host(url@) matches Some(h) ==> last_dot(h) >= 0,
    ensures
        name@ == icon_name(url_host(url@)),
{
    match host_of_url(url) {
        Some(host) => icon_name_from_host(host.as_str()),
        None => String::new(),
    }
}

/// The icon name for the address `url`, for any `url`: nothing where the host
/// has a single label, so that there is no label before the last.
pub fn icon_name_for(url: &str) -> (name: Option<String>)
    ensures
        match name {
            Some(n) => n@ == icon_name(url_host(url@)) && (url_host(url@) matches Some(h)
                ==> last_dot(h) >= 0),
            None => url_host(url@) matches Some(h) && last_dot(h) < 0,
        },
{
    match host_of_url(url) {
        Some(host) => {
            let h = to_chars(host.as_str());
            assert(h@.take(h.len() as int) =~= h@);
            match last_dot_before(&h, h.len()) {
                None => None,
                Some(_) => Some(get_icon_name_from_url(url)),
            }
        },
        None => Some(get_icon_name_from_url(url)),
    }
}

/// Tells whether `v` holds the text `s`.
fn holds_text(v: &Vec<String>, s: &String) -> (b: bool)
    ensures
        b == texts(v@).contains(s@),
{
    let mut i: usize = 0;
    while i < v.len()
        invariant
            i <= v.len(),
            forall|j: int| 0 <= j < i ==> texts(v@)[j] != s@,
        decreases v.len() - i,
    {
        if v[i] == *s {
            assert(texts(v@)[i as int] == s@);
            return true;
        }
        i += 1;
    }
    false
}

/// The paths of the candidates to offer for `icon_name`, given the size found
/// for each: every candidate whose file name holds `icon_name`, except vector
/// images that are too small or whose size is unknown; each path once.
pub fn select_icons(
    candidates: &Vec<IconCandidate>,
    sizes: &Vec<Option<(u32, u32)>>,
    icon_name: &str,
) -> (icons: Vec<String>)
    requires
        sizes.len() == candidates.len(),
    ensures
        texts(icons@) == selected(candidates@, sizes@, icon_name@),
{
    let wanted = to_chars(icon_name);
    let mut icons: Vec<String> = Vec::new();
    let mut i: usize = 0;
    assert(texts(icons@) =~= Seq::<Seq<char>>::empty());
    while i < candidates.len()
        invariant
            i <= candidates.len(),
            sizes.len() == candidates.len(),
            wanted@ == icon_name@,
            texts(icons@) == selected(
                candidates@.take(i as int),
                sizes@.take(i as int),
                icon_name@,
            ),
        decreases candidates.len() - i,
    {
        assert(candidates@.take(i + 1).drop_last() =~= candidates@.take(i as int));
        assert(sizes@.take(i + 1).drop_last() =~= sizes@.take(i as int));
        let c = &candidates[i];
        let fits = match sizes[i] {
            Some(s) => s.0 >= SVG_MIN && s.1 >= SVG_MIN,
            None => false,
        };
        if contains_pattern(&to_chars(c.filename.as_str()), &wanted) && (!is_svg(c.path.as_str())
            || fits) && !holds_text(&icons, &c.path) {
            let ghost before = texts(icons@);
            icons.push(c.path.clone());
            assert(texts(icons@) =~= before.push(c.path@));
        }
        i += 1;
    }
    assert(candidates@.take(candidates.len() as int) =~= candidates@);
    assert(sizes@.take(sizes.len() as int) =~= sizes@);
    icons
}

/// The paths of the candidates to offer for `icon_name`. The size of each
/// vector image is found by parsing its text; a candidate without text has no
/// size.
pub fn find_icon(candidates: &Vec<IconCandidate>, icon_name: &str) -> (icons: Vec<String>)
    ensures
        exists|sizes: Seq<Option<(u32, u32)>>|
            sizes.len() == candidates.len() && (forall|i: int|
                0 <= i < sizes.len() && candidates[i].content is None ==> sizes[i] is None)
                && texts(icons@) == #[trigger] selected(candidates@, sizes, icon_name@),
{
    let mut sizes: Vec<Option<(u32, u32)>> = Vec::new();
    let mut i: usize = 0;
    while i < candidates.len()
        invariant
            i <= candidates.len(),
            sizes.len() == i,
            forall|j: int| 0 <= j < i && candidates[j].content is None ==> sizes[j] is None,
        decreases candidates.len() - i,
    {
        let size = match &candidates[i].content {
            Some(text) => svg_size(text.as_str()),
            None => None,
        };
        sizes.push(size);
        i += 1;
    }
    select_icons(candidates, &sizes, icon_name)
}

/// The second attribute of every element of `attributes` whose first is
/// `wanted` and that has a second one.
pub fn pick_attribute(attributes: &Vec<(Option<String>, Option<String>)>, wanted: &str) -> (values:
    Vec<String>)
    ensures
        texts(values@) == picked(attribute_texts(attributes@), wanted@),
{
    let key = String::from_str(wanted);
    let mut values: Vec<String> = Vec::new();
    let mut i: usize = 0;
    assert(attribute_texts(attributes@).take(0) =~= Seq::empty());
    assert(texts(values@) =~= Seq::<Seq<char>>::empty());
    while i < attributes.len()
        invariant
            i <= attributes.len(),
            key@ == wanted@,
            texts(values@) == picked(attribute_texts(attributes@).take(i as int), wanted@),
        decreases attributes.len() - i,
    {
        let ghost all = attribute_texts(attributes@);
        let ghost before = texts(values@);
        assert(all.take(i + 1).drop_last() =~= all.take(i as int));
        assert(all.take(i + 1).last() == all[i as int]);
        let holds = match &attributes[i].0 {
            Some(first) => *first == key,
            None => false,
        };
        if holds {
            match &attributes[i].1 {
                Some(second) => {
                    values.push(second.clone());
                    assert(texts(values@) =~= before.push(second@));
                    assert(picked(all.take(i + 1), wanted@) =~= picked(all.take(i as int), wanted@)
                        + seq![second@]);
                },
                None => {},
            }
        }
        i += 1;
    }
    assert(attribute_texts(attributes@).take(attributes.len() as int) =~= attribute_texts(
        attributes@,
    ));
    values
}

/// Puts clones of the strings of `more` after those of `out`.
fn extend_texts(out: &mut Vec<String>, more: &Vec<String>)
    ensures
        texts(final(out)@) == texts(old(out)@) + texts(more@),
{
    let mut i: usize = 0;
    assert(texts(more@).take(0) =~= Seq::<Seq<char>>::empty());
    assert(texts(out@) =~= texts(old(out)@) + texts(more@).take(0));
    while i < more.len()
        invariant
            i <= more.len(),
            texts(out@) == texts(old(out)@) + texts(more@).take(i as int),
        decreases more.len() - i,
    {
        let ghost before = texts(out@);
        out.push(more[i].clone());
        assert(texts(out@) =~= before.push(more@[i as int]@));
        assert(texts(more@).take(i + 1) =~= texts(more@).take(i as int).push(more@[i as int]@));
        i += 1;
    }
    assert(texts(more@).take(more.len() as int) =~= texts(more@));
}

/// The images that the page `content` offers as its icon: for each head
/// section, read as a document of its own, the targets of its icon links and
/// then the images of its preview metadata.
pub fn download_favicon(content: &str) -> (favicons: Vec<String>)
    ensures
        texts(favicons@) == heads_icons(selected_html(content@, "head"@)),
{
    let heads = select_html(content, "head");
    let mut favicons: Vec<String> = Vec::new();
    let mut i: usize = 0;
    assert(texts(heads@).take(0) =~= Seq::<Seq<char>>::empty());
    assert(texts(favicons@) =~= Seq::<Seq<char>>::empty());
    while i < heads.len()
        invariant
            i <= heads.len(),
            texts(favicons@) == heads_icons(texts(heads@).take(i as int)),
        decreases heads.len() - i,
    {
        assert(texts(heads@).take(i + 1).drop_last() =~= texts(heads@).take(i as int));
        let head = heads[i].as_str();
        let links = select_attributes(head, "link", "rel", "href");
        let metas = select_attributes(head, "meta", "property", "content");
        let ghost before = texts(favicons@);
        extend_texts(&mut favicons, &pick_attribute(&links, "icon"));
        extend_texts(&mut favicons, &pick_attribute(&metas, "og:image"));
        assert(texts(favicons@) =~= before + head_icons(head@));
        i += 1;
    }
    assert(texts(heads@).take(heads.len() as int) =~= texts(heads@));
    favicons
}

/// The images that the page at `url` offers, where `url` parses and the page
/// was fetched.
pub open spec fn remote_icons(url: Seq<char>, page: Option<&str>) -> Seq<Seq<char>> {
    match page {
        Some(content) if url_parses(url) => heads_icons(selected_html(content@, "head"@)),
        _ => Seq::<Seq<char>>::empty(),
    }
}

/// The icons to offer for a launcher: the candidates from the icon directory
/// that suit `icon_name`, then the images that the page at `url` offers.
/// `page` is the text of that page, to be fetched only where `url` is valid;
/// without it, or for an invalid `url`, nothing is added.
pub fn find_icons(
    candidates: &Vec<IconCandidate>,
    icon_name: &str,
    url: &str,
    page: Option<&str>,
) -> (icons: Vec<String>)
    ensures
        exists|sizes: Seq<Option<(u32, u32)>>|
            sizes.len() == candidates.len() && (forall|i: int|
                0 <= i < sizes.len() && candidates[i].content is None ==> sizes[i] is None)
                && texts(icons@) == #[trigger] selected(candidates@, sizes, icon_name@)
                + remote_icons(url@, page),
{
    let mut icons = find_icon(candidates, icon_name);
    let ghost local = texts(icons@);
    if url_valid(url) {
        match page {
            Some(content) => {
                extend_texts(&mut icons, &download_favicon(content));
            },
            None => {
                assert(local + remote_icons(url@, page) =~= local);
            },
        }
    } else {
        assert(local + remote_icons(url@, page) =~= local);
    }
    icons
}

/// What an image is, given whether its name is that of a vector image and the
/// size it decodes to as a raster image.
pub fn icon_kind(svg: bool, size: Option<(u32, u32)>) -> (kind: Option<IconType>)
    ensures
        kind == icon_kind_of(svg, size),
{
    if svg {
        Some(IconType::Svg)
    } else {
        match size {
            Some(s) => if s.0 >= RASTER_MIN && s.1 >= RASTER_MIN {
                Some(IconType::Raster)
            } else {
                None
            },
            None => None,
        }
    }
}

/// What the image `data`, found at `path`, is: a vector image where `path`
/// names one, else a raster image where `data` decodes to at least the
/// smallest size, else nothing.
pub fn image_handle(path: &str, data: &Vec<u8>) -> (kind: Option<IconType>)
    ensures
        kind == icon_kind_of(is_svg_path(path@), decoded_size(data@)),
{
    if is_svg(path) {
        icon_kind(true, None)
    } else {
        icon_kind(false, decode_size(data))
    }
}

/// Where the icon `path` is kept under the name `output_name` in the icon
/// directory `icons`, and how it gets there: an address is downloaded, a file
/// is copied unless its path already holds the target.
pub fn move_icon(path: &str, output_name: &str, icons: &str) -> (r: IconMove)
    requires
        path_extension(path@) is Some,
    ensures
        r.save_path@ == saved_icon_path(icons@, path@, output_name@),
        r.action == icon_action(path@, r.save_path@),
{
    let source = to_chars(path);
    let folder = join_path(icons, "MyIcons");
    let space: Vec<char> = vec![' '];
    assert(space@ =~= seq![' ']);
    let mut file = remove_all(&to_chars(output_name), &space);
    file.push('.');
    match extension_chars(&source) {
        Some(ext) => {
            extend(&mut file, &ext);
        },
        None => {},
    }
    let save_path = join_path(folder.as_str(), from_chars(&file).as_str());
    let action = if url_valid(path) {
        IconAction::Download
    } else if !contains_pattern(&source, &to_chars(save_path.as_str())) {
        IconAction::Copy
    } else {
        IconAction::Keep
    };
    IconMove { save_path, action }
}

/// `move_icon` for any path: nothing where `path` has no extension to keep.
pub fn try_move_icon(path: &str, output_name: &str, icons: &str) -> (r: Option<IconMove>)
    ensures
        match r {
            Some(m) => {
                &&& path_extension(path@) is Some
                &&& m.save_path@ == saved_icon_path(icons@, path@, output_name@)
                &&& m.action == icon_action(path@, m.save_path@)
            },
            None => path_extension(path@) is None,
        },
{
    match extension_chars(&to_chars(path)) {
        Some(_) => Some(move_icon(path, output_name, icons)),
        None => None,
    }
}

} // verus!
