use vstd::prelude::*;

verus! {

/// The selector of the element whose text is a page's title.
pub const TITLE_SELECTOR: &'static str = "title";

/// The text of the first element of `html`, parsed as a whole document, that `selector`
/// matches: all its descendant text nodes in document order. `None` where no element
/// matches or the selector does not parse.
pub uninterp spec fn first_selected_text(html: Seq<char>, selector: Seq<char>) -> Option<Seq<char>>;

/// Unicode's White_Space property, which `str::trim` strips.
pub open spec fn is_white_space(c: char) -> bool {
    let u = c as u32;
    (0x09 <= u && u <= 0x0d) || u == 0x20 || u == 0x85 || u == 0xa0 || u == 0x1680
        || (0x2000 <= u && u <= 0x200a) || u == 0x2028 || u == 0x2029 || u == 0x202f
        || u == 0x205f || u == 0x3000
}

/// `s` without its leading white space.
pub open spec fn trim_start(s: Seq<char>) -> Seq<char>
    decreases s.len(),
{
    if s.len() > 0 && is_white_space(s[0]) {
        trim_start(s.drop_first())
    } else {
        s
    }
}

/// `s` without its trailing white space.
pub open spec fn trim_end(s: Seq<char>) -> Seq<char>
    decreases s.len(),
{
    if s.len() > 0 && is_white_space(s.last()) {
        trim_end(s.drop_last())
    } else {
        s
    }
}

/// `s` without leading and trailing white space.
pub open spec fn trimmed(s: Seq<char>) -> Seq<char> {
    trim_end(trim_start(s))
}

/// The title that raw element text gives: trimmed, and absent where nothing is left.
pub open spec fn title_of(raw: Option<Seq<char>>) -> Option<Seq<char>> {
    match raw {
        Some(t) => if trimmed(t).len() > 0 {
            Some(trimmed(t))
        } else {
            None
        },
        None => None,
    }
}

/// Relies on `scraper::Html::parse_document`, `Selector::parse`, `Html::select` and
/// `ElementRef::text`: the text of the first element that the selector matches. Parsing
/// is lenient and deterministic, so the result depends on the two strings alone.
#[verifier::external_body]
fn select_first_text(html: &str, selector: &str) -> (r: Option<String>)
    ensures
        r.deep_view() == first_selected_text(html@, selector@),
{
    let document = scraper::Html::parse_document(html);
    match scraper::Selector::parse(selector) {
        Ok(sel) => match document.select(&sel).next() {
            Some(element) => Some(element.text().collect::<String>()),
            None => None,
        },
        Err(_) => None,
    }
}

/// Relies on `str::trim`: removes leading and trailing White_Space characters.
#[verifier::external_body]
fn trim_str(s: &str) -> (r: &str)
    ensures
        r@ == trimmed(s@),
{
    s.trim()
}

/// The title carried by raw element text: `raw` trimmed, or `None` where it is absent
/// or only white space.
pub fn title_from_text(raw: Option<String>) -> (r: Option<String>)
    ensures
        r.deep_view() == title_of(raw.deep_view()),
{
    match raw {
        Some(text) => {
            let t = trim_str(text.as_str());
            if t.unicode_len() == 0 {
                None
            } else {
                Some(String::from_str(t))
            }
        },
        None => None,
    }
}

/// Extracts the trimmed text of a page's first `<title>` element. Markup that is not a
/// well-formed document is parsed leniently; a missing or blank title gives `None`.
pub fn extract_title(html: &str) -> (r: Option<String>)
    ensures
        r.deep_view() == title_of(first_selected_text(html@, TITLE_SELECTOR@)),
{
    title_from_text(select_first_text(html, TITLE_SELECTOR))
}

} // verus!
