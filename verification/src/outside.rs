//! The calls that leave this crate. Each function here makes one call into
//! another crate; its contract is believed, not proved.

use vstd::prelude::*;
use crate::paths::optional_text;
use crate::text::texts;

verus! {

/// Whether `url::Url::parse` accepts `text` as an absolute URL.
pub uninterp spec fn url_parses(text: Seq<char>) -> bool;

/// The host that `url::Url::host_str` reports for the URL parsed from `text`;
/// none where `text` does not parse or the URL has no host.
pub uninterp spec fn url_host(text: Seq<char>) -> Option<Seq<char>>;

/// The width and height of the image that the `image` crate decodes from
/// `data`, with the format guessed from the first bytes; none where it decodes
/// nothing.
pub uninterp spec fn decoded_size(data: Seq<u8>) -> Option<(u32, u32)>;

/// For each element of `document` that `selector` matches, in document order,
/// its HTML as `scraper` serialises it; nothing for a selector that does not
/// parse.
pub uninterp spec fn selected_html(document: Seq<char>, selector: Seq<char>) -> Seq<Seq<char>>;

/// For each element of `document` that `selector` matches, in document order,
/// the values of its attributes `first` and `second`; nothing for a selector
/// that does not parse.
pub uninterp spec fn selected_attributes(
    document: Seq<char>,
    selector: Seq<char>,
    first: Seq<char>,
    second: Seq<char>,
) -> Seq<(Option<Seq<char>>, Option<Seq<char>>)>;

/// What a vector of attribute pairs holds.
pub open spec fn attribute_texts(v: Seq<(Option<String>, Option<String>)>) -> Seq<
    (Option<Seq<char>>, Option<Seq<char>>),
> {
    v.map_values(|p: (Option<String>, Option<String>)| (optional_text(p.0), optional_text(p.1)))
}

/// Calls `url::Url::parse` and tells whether it succeeded. The contract only
/// names the answer: the same text always gets the same one.
#[verifier::external_body]
pub fn url_valid(url: &str) -> (b: bool)
    ensures
        b == url_parses(url@),
{
    url::Url::parse(url).is_ok()
}

/// Calls `url::Url::parse` and then `url::Url::host_str` on the result. The
/// contract only names the answer.
#[verifier::external_body]
pub(crate) fn host_of_url(url: &str) -> (host: Option<String>)
    ensures
        optional_text(host) == url_host(url@),
{
    url::Url::parse(url).ok().and_then(|u| u.host_str().map(|h| h.to_string()))
}

/// Calls `rand::Rng::gen_range` on the thread's generator with the half-open
/// range `low..high`. The crate documents that the value lies in the range and
/// that an empty range panics; which value comes is left open.
#[verifier::external_body]
pub(crate) fn random_in(low: u16, high: u16) -> (n: u16)
    requires
        low < high,
    ensures
        low <= n < high,
{
    rand::Rng::gen_range(&mut rand::thread_rng(), low..high)
}

/// Decodes `data` with `image::io::Reader` (`with_guessed_format`, then
/// `decode`) and reports the width and height of the image. The contract only
/// names the answer.
#[verifier::external_body]
pub(crate) fn decode_size(data: &Vec<u8>) -> (size: Option<(u32, u32)>)
    ensures
        size == decoded_size(data@),
{
    let reader = image::io::Reader::new(std::io::Cursor::new(data)).with_guessed_format().ok()?;
    reader.decode().ok().map(|picture| (picture.width(), picture.height()))
}

/// Parses `text` with `usvg::Tree::from_str`, default options and an empty font
/// database, and reports the whole part of the width and of the height that
/// `usvg::Tree::size` gives. Nothing is claimed of the result: the size of a
/// document that states none is worked out from what it draws, which may
/// include files that it refers to.
#[verifier::external_body]
pub(crate) fn svg_size(text: &str) -> (size: Option<(u32, u32)>)
{
    let options = usvg::Options::default();
    let tree = usvg::Tree::from_str(text, &options, &usvg::fontdb::Database::new()).ok()?;
    Some((tree.size().width() as u32, tree.size().height() as u32))
}

/// Parses `document` with `scraper::Html::parse_document`, selects with
/// `scraper::Selector::parse` and `Html::select`, and serialises each match
/// with `ElementRef::html`. The contract only names the answer; the crate is
/// built with its `deterministic` feature, so that attributes are written in
/// the order of the document.
#[verifier::external_body]
pub(crate) fn select_html(document: &str, selector: &str) -> (found: Vec<String>)
    ensures
        texts(found@) == selected_html(document@, selector@),
{
    match scraper::Selector::parse(selector) {
        Ok(parsed) => scraper::Html::parse_document(document).select(&parsed).map(
            |element| element.html(),
        ).collect(),
        Err(_) => Vec::new(),
    }
}

/// Parses `document` with `scraper::Html::parse_document`, selects with
/// `scraper::Selector::parse` and `Html::select`, and reads two attributes of
/// each match with `ElementRef::attr`. The contract only names the answer.
#[verifier::external_body]
pub(crate) fn select_attributes(document: &str, selector: &str, first: &str, second: &str) -> (found:
    Vec<(Option<String>, Option<String>)>)
    ensures
        attribute_texts(found@) == selected_attributes(document@, selector@, first@, second@),
{
    match scraper::Selector::parse(selector) {
        Ok(parsed) => scraper::Html::parse_document(document).select(&parsed).map(
            |element| (element.attr(first).map(String::from), element.attr(second).map(String::from)),
        ).collect(),
        Err(_) => Vec::new(),
    }
}

} // verus!
