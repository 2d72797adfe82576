use vstd::prelude::*;

verus! {

/// The characters of `s` with every character outside the regex classes
/// `\w` (word), `\s` (whitespace) and the literal `-` replaced by `_`.
pub uninterp spec fn word_masked(s: Seq<char>) -> Seq<char>;

/// The characters of `s` mapped to lower case.
pub uninterp spec fn lower_of(s: Seq<char>) -> Seq<char>;

/// Relies on regex::Regex::new and regex::Regex::replace_all: the pattern
/// `[^\w\s-]` is a fixed, valid expression, so `new` always succeeds, and
/// `replace_all` replaces each character that is not a word character,
/// whitespace or a hyphen with one `_`. The result depends on the input
/// characters alone.
#[verifier::external_body]
fn mask_non_word(s: &str) -> (r: String)
    ensures
        r@ == word_masked(s@),
        s@.len() == 0 ==> r@.len() == 0,
{
    let re = regex::Regex::new(r"[^\w\s-]").unwrap();
    re.replace_all(s, "_").into_owned()
}

/// Relies on str::to_lowercase: the result depends on the input characters
/// alone.
#[verifier::external_body]
fn lowercase(s: &str) -> (r: String)
    ensures
        r@ == lower_of(s@),
        s@.len() == 0 ==> r@.len() == 0,
{
    s.to_lowercase()
}

/// Maps an arbitrary episode title to a filesystem-safe token: every
/// character that is not a word character, whitespace or a hyphen becomes
/// `_`, and the result is lowercased. Total: no title is rejected.
pub fn sanitize(title: &str) -> (r: String)
    ensures
        r@ == lower_of(word_masked(title@)),
{
    let masked = mask_non_word(title);
    lowercase(masked.as_str())
}

} // verus!
