use vstd::prelude::*;
use vstd::string::StringExecFns;
use scraper::{Html, Selector};
use crate::session::opt_view;

verus! {

/// The page that answers a question, without the question itself.
pub const ASK_URL: &'static str = "https://www.statmuse.com/nba/ask/";

/// The element whose `content` holds the answer's text.
pub const DESCRIPTION_SELECTOR: &'static str = "meta[name=description]";

/// The element whose `content` holds the answer's picture.
pub const IMAGE_SELECTOR: &'static str = r"meta[property=og\:image]";

/// The attribute that both elements carry their value in.
pub const CONTENT_ATTRIBUTE: &'static str = "content";

/// The answer to one question.
#[derive(Clone, Debug)]
pub struct Answer {
    pub text: String,
    pub image_url: Option<String>,
}

/// Why a question got no answer.
#[derive(Clone, Copy, Debug, PartialEq, Eq)]
pub enum LookupError {
    /// The answer page could not be fetched.
    Unreachable,
    /// The page holds no answer.
    NoAnswer,
}

/// The value of attribute `attr` on the first element of the HTML page
/// `html` that `selector` matches.
pub uninterp spec fn first_match_attr(html: Seq<char>, selector: Seq<char>, attr: Seq<char>) -> Option<Seq<char>>;

/// Relies on scraper (`Selector::parse`, `Html::parse_document`, `Html::select`,
/// `Element::attr`): the value of `attr` on the first element that `selector`
/// matches in the parsed page; none when the selector does not parse, nothing
/// matches, or the element lacks the attribute. It depends on the texts alone.
#[verifier::external_body]
fn first_match_attribute(html: &str, selector: &str, attr: &str) -> (r: Option<String>)
    ensures
        opt_view(r) == first_match_attr(html@, selector@, attr@),
{
    let selector = Selector::parse(selector).ok()?;
    let page = Html::parse_document(html);
    let element = page.select(&selector).next()?;
    element.value().attr(attr).map(|v| v.to_string())
}

/// The address of the page that answers `query`.
pub fn query_url(query: &str) -> (r: String)
    ensures
        r@ == ASK_URL@ + query@,
{
    String::from_str(ASK_URL).concat(query)
}

/// The answer that an answer page holds, as values.
pub open spec fn page_answer(html: Seq<char>) -> Result<(Seq<char>, Option<Seq<char>>), LookupError> {
    match first_match_attr(html, DESCRIPTION_SELECTOR@, CONTENT_ATTRIBUTE@) {
        None => Err(LookupError::NoAnswer),
        Some(text) => Ok((text, first_match_attr(html, IMAGE_SELECTOR@, CONTENT_ATTRIBUTE@))),
    }
}

/// Reads the answer out of an answer page: its text is the page's
/// description and its picture the page's preview image, if it has one. A
/// page without a description holds no answer.
pub fn answer_from_page(html: &str) -> (r: Result<Answer, LookupError>)
    ensures
        match page_answer(html@) {
            Ok((text, image)) => r matches Ok(a) && a.text@ == text && opt_view(a.image_url) == image,
            Err(e) => r matches Err(f) && f == e,
        },
{
    match first_match_attribute(html, DESCRIPTION_SELECTOR, CONTENT_ATTRIBUTE) {
        None => Err(LookupError::NoAnswer),
        Some(text) => {
            let image_url = first_match_attribute(html, IMAGE_SELECTOR, CONTENT_ATTRIBUTE);
            Ok(Answer { text, image_url })
        },
    }
}

} // verus!
