//! Regular expressions.
use vstd::prelude::*;

verus! {

/// Secrets given as an assignment: the word that names it, the sign, an
/// opening quote, the secret itself, a closing quote.
pub const SECRET_ASSIGNMENT: &'static str =
    r#"(?i)(api[_-]?key|token|secret|passwd|password)(\s*[:=]\s*)(['"]?)([^\s'"]+)(['"]?)"#;

/// A bearer token with its scheme.
pub const BEARER_TOKEN: &'static str = r"(?i)\bBearer\s+[A-Za-z0-9\-_.]+";

/// Whether `pattern` matches somewhere in `text`; none when it is no regular
/// expression.
pub uninterp spec fn regex_matches(pattern: Seq<char>, text: Seq<char>) -> Option<bool>;

/// `text` with every match of `pattern` replaced, none when `pattern` is no
/// regular expression.
pub uninterp spec fn regex_replaced(
    pattern: Seq<char>,
    text: Seq<char>,
    replacement: Seq<char>,
) -> Option<Seq<char>>;

/// `regex::Regex::is_match` of the expression that `regex::Regex::new` makes
/// of `pattern`; none when that fails. What is claimed is that the answer
/// depends on the two texts alone.
#[verifier::external_body]
pub(crate) fn is_match(pattern: &str, text: &str) -> (r: Option<bool>)
    ensures
        r == regex_matches(pattern@, text@),
{
    regex::Regex::new(pattern).ok().map(|re| re.is_match(text))
}

/// `regex::Regex::replace_all` of the expression that `regex::Regex::new`
/// makes of `pattern`; none when that fails. What is claimed is that the
/// result depends on the three texts alone, that a text without a match comes
/// back unchanged, and that the two expressions named in this module are
/// valid.
#[verifier::external_body]
pub(crate) fn replace_all(pattern: &str, text: &str, replacement: &str) -> (r: Option<String>)
    ensures
        crate::text::opt_text(r) == regex_replaced(pattern@, text@, replacement@),
        regex_matches(pattern@, text@) == Some(false) ==> crate::text::opt_text(r) == Some(text@),
        pattern@ == SECRET_ASSIGNMENT@ || pattern@ == BEARER_TOKEN@ ==> r is Some,
{
    regex::Regex::new(pattern).ok().map(|re| re.replace_all(text, replacement).into_owned())
}

} // verus!
