//! Link previews: what a page says of itself in its `meta` elements.

use crate::text::is_blank;
use crate::text::is_blank_text;
use crate::text::optional_text;
use crate::text::trim;
use crate::text::trimmed;
use scraper::Html;
use scraper::Selector;
use url::Url;
use vstd::prelude::*;
use vstd::string::StringExecFns;
use vstd::utf8::encode_utf8;

verus! {

/// Seconds after which the fetching of a page is given up.
pub const FETCH_TIMEOUT_SECONDS: u64 = 10;

/// The user agent under which pages are fetched.
pub const USER_AGENT: &'static str =
    "Mozilla/5.0 (Linux x86_64; rv:140.0) Gecko/20100101 Firefox/140.0";

/// What a page says of itself.
#[derive(Debug)]
pub struct LinkPreview {
    pub url: String,
    pub title: Option<String>,
    pub description: Option<String>,
    pub image: Option<String>,
    pub site_name: Option<String>,
}

/// The page that a preview is asked for.
#[derive(Debug)]
pub struct LinkPreviewQuery {
    pub url: String,
}

/// `scraper::Html`, a parsed document. Nothing is known of a value of it
/// but what the names below say.
#[verifier::external_type_specification]
#[verifier::external_body]
pub struct ExHtml(Html);

/// The document that `text` parses to.
pub uninterp spec fn parsed_document(text: Seq<char>) -> Html;

/// The value of `attribute` on the first element that `document` hands out
/// for the CSS selector `selector`; `None` where the selector is not valid,
/// nothing matches, or that element has no such attribute.
pub uninterp spec fn first_attribute(
    document: Html,
    selector: Seq<char>,
    attribute: Seq<char>,
) -> Option<Seq<char>>;

/// The markup inside the first element that `document` hands out for the
/// CSS selector `selector`; `None` where the selector is not valid or
/// nothing matches.
pub uninterp spec fn first_inner_html(document: Html, selector: Seq<char>) -> Option<Seq<char>>;

/// The URL that `relative` names when it is read against `base`; `None`
/// where `base` is no absolute URL or `relative` cannot be read against it.
pub uninterp spec fn joined_url(base: Seq<char>, relative: Seq<char>) -> Option<Seq<char>>;

/// `Html::parse_document` parses a page. Parsing never fails: what cannot
/// be understood is repaired as a browser would.
#[verifier::external_body]
fn parse_document(text: &str) -> (document: Html)
    ensures
        document == parsed_document(text@),
{
    Html::parse_document(text)
}

/// `Selector::parse`, `Html::select`, the iterator's `next` and
/// `Element::attr`: the named attribute of the first match.
#[verifier::external_body]
fn select_attribute(document: &Html, selector: &str, attribute: &str) -> (value: Option<String>)
    ensures
        optional_text(value) == first_attribute(*document, selector@, attribute@),
{
    let parsed = Selector::parse(selector).ok()?;
    let element = document.select(&parsed).next()?;
    let value = element.value().attr(attribute)?;
    Some(value.to_string())
}

/// `Selector::parse`, `Html::select`, the iterator's `next` and
/// `ElementRef::inner_html`: the markup inside the first match.
#[verifier::external_body]
fn select_inner_html(document: &Html, selector: &str) -> (markup: Option<String>)
    ensures
        optional_text(markup) == first_inner_html(*document, selector@),
{
    let parsed = Selector::parse(selector).ok()?;
    let element = document.select(&parsed).next()?;
    Some(element.inner_html())
}

/// `Url::parse` and `Url::join`: `relative` read against `base`, written
/// out as text.
#[verifier::external_body]
fn join_url(base: &str, relative: &str) -> (joined: Option<String>)
    ensures
        optional_text(joined) == joined_url(base@, relative@),
{
    let base_url = Url::parse(base).ok()?;
    let resolved = base_url.join(relative).ok()?;
    Some(resolved.to_string())
}

/// Whether the bytes of `text` begin with the bytes of `prefix`.
pub open spec fn begins_with(text: Seq<char>, prefix: Seq<char>) -> bool {
    let bytes = encode_utf8(text);
    let head = encode_utf8(prefix);
    head.len() <= bytes.len() && bytes.subrange(0, head.len() as int) == head
}

/// Whether `text` begins with `prefix`.
pub fn starts_with(text: &str, prefix: &str) -> (begins: bool)
    ensures
        begins == begins_with(text@, prefix@),
{
    let bytes = text.as_bytes();
    let head = prefix.as_bytes();
    if head.len() > bytes.len() {
        return false;
    }
    let mut i: usize = 0;
    while i < head.len()
        invariant
            i <= head@.len() <= bytes@.len(),
            bytes@ == encode_utf8(text@),
            head@ == encode_utf8(prefix@),
            forall|k: int| 0 <= k < i ==> bytes@[k] == head@[k],
        decreases head@.len() - i,
    {
        if bytes[i] != head[i] {
            assert(bytes@.subrange(0, head@.len() as int)[i as int] == bytes@[i as int]);
            return false;
        }
        i = i + 1;
    }
    assert(bytes@.subrange(0, head@.len() as int) =~= head@);
    true
}

/// A link that names its own scheme, `http` or `https`.
pub open spec fn is_absolute(link: Seq<char>) -> bool {
    begins_with(link, "http://"@) || begins_with(link, "https://"@)
}

/// Where a link found on the page at `base` leads: an absolute link to
/// itself, another to what it names when read against `base`, and one that
/// cannot be read so is left as it stands.
pub open spec fn resolved_url(base: Seq<char>, relative: Seq<char>) -> Seq<char> {
    if is_absolute(relative) {
        relative
    } else {
        match joined_url(base, relative) {
            Some(joined) => joined,
            None => relative,
        }
    }
}

/// Resolves a link found on the page at `base`.
pub fn resolve_url(base: &str, relative: &str) -> (resolved: String)
    ensures
        resolved@ == resolved_url(base@, relative@),
{
    if starts_with(relative, "http://") || starts_with(relative, "https://") {
        return String::from_str(relative);
    }
    match join_url(base, relative) {
        Some(joined) => joined,
        None => String::from_str(relative),
    }
}

/// The selector for the `meta` elements whose attribute `key` is `property`.
pub open spec fn meta_selector(key: Seq<char>, property: Seq<char>) -> Seq<char> {
    "meta["@ + key + "=\""@ + property + "\"]"@
}

/// Writes the selector for the `meta` elements whose attribute `key` is
/// `property`.
pub fn write_meta_selector(key: &str, property: &str) -> (selector: String)
    ensures
        selector@ == meta_selector(key@, property@),
{
    let mut selector = String::from_str("meta[");
    selector.append(key);
    selector.append("=\"");
    selector.append(property);
    selector.append("\"]");
    selector
}

/// Content counts when it is there and more than white space.
pub open spec fn usable(content: Option<Seq<char>>) -> bool {
    content is Some && !is_blank_text(content->0)
}

/// What `document` says under one property: the content of the first
/// `meta` element with that `property`, or else of the first with that
/// `name`, as far as it is usable.
pub open spec fn property_content(document: Html, property: Seq<char>) -> Option<Seq<char>> {
    let by_property = first_attribute(document, meta_selector("property"@, property), "content"@);
    let by_name = first_attribute(document, meta_selector("name"@, property), "content"@);
    if usable(by_property) {
        by_property
    } else if usable(by_name) {
        by_name
    } else {
        None
    }
}

/// What `document` says under the first of `properties` that it says
/// anything usable under.
pub open spec fn meta_content(document: Html, properties: Seq<Seq<char>>) -> Option<Seq<char>>
    decreases properties.len(),
{
    if properties.len() == 0 {
        None
    } else {
        match property_content(document, properties[0]) {
            Some(content) => Some(content),
            None => meta_content(document, properties.drop_first()),
        }
    }
}

/// The title of `document`: the trimmed markup of its first `title`
/// element.
pub open spec fn document_title(document: Html) -> Option<Seq<char>> {
    match first_inner_html(document, "title"@) {
        Some(markup) => Some(trimmed(markup)),
        None => None,
    }
}

/// The views of a run of names.
pub open spec fn names(properties: Seq<&str>) -> Seq<Seq<char>> {
    properties.map_values(|property: &str| property@)
}

/// The usable content of the first `meta` element whose `key` is
/// `property`.
fn usable_content(document: &Html, key: &str, property: &str) -> (content: Option<String>)
    ensures
        optional_text(content) == ({
            let found = first_attribute(*document, meta_selector(key@, property@), "content"@);
            if usable(found) {
                found
            } else {
                None
            }
        }),
{
    let selector = write_meta_selector(key, property);
    match select_attribute(document, selector.as_str(), "content") {
        Some(content) => {
            if is_blank(content.as_str()) {
                None
            } else {
                Some(content)
            }
        },
        None => None,
    }
}

/// What `document` says under the first of `properties` that it says
/// anything usable under.
fn extract_meta_content(document: &Html, properties: &[&str]) -> (content: Option<String>)
    ensures
        optional_text(content) == meta_content(*document, names(properties@)),
{
    let mut i: usize = 0;
    assert(names(properties@).skip(0) =~= names(properties@));
    while i < properties.len()
        invariant
            i <= properties@.len(),
            meta_content(*document, names(properties@)) == meta_content(
                *document,
                names(properties@).skip(i as int),
            ),
        decreases properties@.len() - i,
    {
        let property = properties[i];
        let ghost rest = names(properties@).skip(i as int);
        assert(rest[0] == property@);
        assert(rest.drop_first() =~= names(properties@).skip(i + 1));
        match usable_content(document, "property", property) {
            Some(content) => {
                return Some(content);
            },
            None => {},
        }
        match usable_content(document, "name", property) {
            Some(content) => {
                return Some(content);
            },
            None => {},
        }
        i = i + 1;
    }
    None
}

/// The title of `document`.
fn extract_title(document: &Html) -> (title: Option<String>)
    ensures
        optional_text(title) == document_title(*document),
{
    match select_inner_html(document, "title") {
        Some(markup) => Some(String::from_str(trim(markup.as_str()))),
        None => None,
    }
}

/// The title of a preview: what the page says under `og:title` or
/// `twitter:title`, or else its `title` element.
pub open spec fn preview_title(document: Html) -> Option<Seq<char>> {
    match meta_content(document, seq!["og:title"@, "twitter:title"@]) {
        Some(title) => Some(title),
        None => document_title(document),
    }
}

/// The description of a preview.
pub open spec fn preview_description(document: Html) -> Option<Seq<char>> {
    meta_content(document, seq!["og:description"@, "twitter:description"@, "description"@])
}

/// The image of a preview, resolved against the page's own address.
pub open spec fn preview_image(document: Html, url: Seq<char>) -> Option<Seq<char>> {
    match meta_content(document, seq!["og:image"@, "twitter:image"@]) {
        Some(image) => Some(resolved_url(url, image)),
        None => None,
    }
}

/// The site name of a preview.
pub open spec fn preview_site_name(document: Html) -> Option<Seq<char>> {
    meta_content(document, seq!["og:site_name"@, "twitter:site"@])
}

/// Reads the preview of the page at `url` out of its markup.
pub fn build_preview(url: &str, markup: &str) -> (preview: LinkPreview)
    ensures
        preview.url@ == url@,
        optional_text(preview.title) == preview_title(parsed_document(markup@)),
        optional_text(preview.description) == preview_description(parsed_document(markup@)),
        optional_text(preview.image) == preview_image(parsed_document(markup@), url@),
        optional_text(preview.site_name) == preview_site_name(parsed_document(markup@)),
{
    let document = parse_document(markup);
    let title_properties: [&str; 2] = ["og:title", "twitter:title"];
    let description_properties: [&str; 3] = ["og:description", "twitter:description", "description"];
    let image_properties: [&str; 2] = ["og:image", "twitter:image"];
    let site_properties: [&str; 2] = ["og:site_name", "twitter:site"];
    assert(names(title_properties@) =~= seq!["og:title"@, "twitter:title"@]);
    assert(names(description_properties@) =~= seq![
        "og:description"@,
        "twitter:description"@,
        "description"@,
    ]);
    assert(names(image_properties@) =~= seq!["og:image"@, "twitter:image"@]);
    assert(names(site_properties@) =~= seq!["og:site_name"@, "twitter:site"@]);
    let title = match extract_meta_content(&document, title_properties.as_slice()) {
        Some(title) => Some(title),
        None => extract_title(&document),
    };
    let description = extract_meta_content(&document, description_properties.as_slice());
    let image = match extract_meta_content(&document, image_properties.as_slice()) {
        Some(image) => Some(resolve_url(url, image.as_str())),
        None => None,
    };
    let site_name = extract_meta_content(&document, site_properties.as_slice());
    LinkPreview { url: String::from_str(url), title, description, image, site_name }
}

} // verus!
