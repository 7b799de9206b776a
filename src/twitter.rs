use vstd::prelude::*;
use crate::Error;
use crate::session::opt_view;
use crate::statmuse::{Answer, LookupError};

verus! {

/// A handle mention, with an optional leading dot as in `.@name`.
pub const MENTION_PATTERN: &'static str = r"\.?@(\w){1,15}";

/// One post that mentions the bot.
#[derive(Clone, Debug)]
pub struct Mention {
    pub id: u64,
    pub raw_text: String,
}

/// A reply to publish: `text`, in answer to the post `in_reply_to`.
#[derive(Clone, Debug)]
pub struct Post {
    pub in_reply_to: u64,
    pub text: String,
}

/// `text` with every match of the regular expression `pattern` removed, or
/// none when `pattern` is not a valid expression.
pub uninterp spec fn without_matches(pattern: Seq<char>, text: Seq<char>) -> Option<Seq<char>>;

/// Whether `c` has Unicode's White_Space property.
pub open spec fn white_space(c: char) -> bool {
    let n = c as u32;
    (0x9 <= n && n <= 0xd) || n == 0x20 || n == 0x85 || n == 0xa0 || n == 0x1680 || (0x2000 <= n && n
        <= 0x200a) || n == 0x2028 || n == 0x2029 || n == 0x202f || n == 0x205f || n == 0x3000
}

/// `s` without its leading whitespace.
pub open spec fn trim_start(s: Seq<char>) -> Seq<char>
    decreases s.len(),
{
    if s.len() > 0 && white_space(s[0]) {
        trim_start(s.drop_first())
    } else {
        s
    }
}

/// `s` without its trailing whitespace.
pub open spec fn trim_end(s: Seq<char>) -> Seq<char>
    decreases s.len(),
{
    if s.len() > 0 && white_space(s.last()) {
        trim_end(s.drop_last())
    } else {
        s
    }
}

/// `s` without its leading and trailing whitespace.
pub open spec fn trimmed(s: Seq<char>) -> Seq<char> {
    trim_end(trim_start(s))
}

/// Relies on regex's `Regex::new` and `Regex::replace_all`: the text with each
/// match of the pattern replaced by nothing; none when the pattern does not
/// compile. It depends on the two texts alone.
#[verifier::external_body]
fn remove_matches(pattern: &str, text: &str) -> (r: Option<String>)
    ensures
        opt_view(r) == without_matches(pattern@, text@),
{
    let re = regex::Regex::new(pattern).ok()?;
    Some(re.replace_all(text, "").into_owned())
}

/// Relies on `str::trim`: the text without leading and trailing characters
/// that have the White_Space property.
#[verifier::external_body]
fn trim_whitespace(s: &str) -> (r: String)
    ensures
        r@ == trimmed(s@),
{
    s.trim().to_string()
}

/// The question that a mention asks: its text without handle mentions,
/// trimmed. Were the pattern ever refused, only the trimming applies.
pub open spec fn query_of(raw: Seq<char>) -> Seq<char> {
    match without_matches(MENTION_PATTERN@, raw) {
        Some(s) => trimmed(s),
        None => trimmed(raw),
    }
}

/// The question that a mention's text asks.
pub fn query_text(raw: &str) -> (r: String)
    ensures
        r@ == query_of(raw@),
{
    match remove_matches(MENTION_PATTERN, raw) {
        Some(s) => trim_whitespace(s.as_str()),
        None => trim_whitespace(raw),
    }
}

/// The reply owed to `mention` once its question was looked up: the answer's
/// text in reply to the mention, or, when the lookup failed, no post at all.
pub fn reply(mention: &Mention, looked_up: Result<Answer, LookupError>) -> (r: Result<Post, Error>)
    ensures
        match looked_up {
            Ok(a) => r matches Ok(p) && p.in_reply_to == mention.id && p.text@ == a.text@,
            Err(e) => r matches Err(f) && f == Error::Lookup(e),
        },
{
    match looked_up {
        Ok(a) => Ok(Post { in_reply_to: mention.id, text: a.text }),
        Err(e) => Err(Error::Lookup(e)),
    }
}

} // verus!
