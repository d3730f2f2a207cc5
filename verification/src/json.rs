//! Lists of texts as JSON arrays, the form in which tags are stored.

use vstd::prelude::*;

verus! {

/// The JSON text that `serde_json` writes for a list of texts.
pub uninterp spec fn json_of_strings(items: Seq<Seq<char>>) -> Seq<char>;

/// The list of texts that `serde_json` reads from a JSON text; `None` where
/// the text is not a JSON array of strings.
pub uninterp spec fn strings_of_json(text: Seq<char>) -> Option<Seq<Seq<char>>>;

/// Writes a list of texts with `serde_json::to_string`. The text is a
/// function of the list alone and goes by the name [`json_of_strings`].
/// Writing fails only where a value refuses to be written or a map has keys
/// that are no strings; a list of texts does neither.
#[verifier::external_body]
fn strings_to_json(items: &Vec<String>) -> (r: String)
    ensures
        r@ == json_of_strings(items.deep_view()),
{
    serde_json::to_string(items).unwrap_or_default()
}

/// Reads a list of texts with `serde_json::from_str`. What is read depends
/// on the text alone and goes by the name [`strings_of_json`].
#[verifier::external_body]
fn strings_from_json(text: &str) -> (r: Option<Vec<String>>)
    ensures
        r matches Some(items) ==> strings_of_json(text@) == Some(items.deep_view()),
        r is None ==> strings_of_json(text@) is None,
{
    serde_json::from_str::<Vec<String>>(text).ok()
}

/// The JSON array under which `tags` are stored.
pub fn encode_tags(tags: &Vec<String>) -> (text: String)
    ensures
        text@ == json_of_strings(tags.deep_view()),
{
    strings_to_json(tags)
}

/// Reads stored tags; `None` where the text is not a JSON array of strings.
pub fn decode_tags(text: &str) -> (r: Option<Vec<String>>)
    ensures
        match r {
            Some(tags) => strings_of_json(text@) == Some(tags.deep_view()),
            None => strings_of_json(text@) is None,
        },
{
    strings_from_json(text)
}

/// Reads stored tags and takes a text that is no JSON array of strings for
/// no tags at all.
pub fn decode_tags_or_none(text: &str) -> (tags: Vec<String>)
    ensures
        tags.deep_view() == match strings_of_json(text@) {
            Some(items) => items,
            None => Seq::empty(),
        },
{
    match strings_from_json(text) {
        Some(tags) => tags,
        None => {
            let tags: Vec<String> = Vec::new();
            assert(tags.deep_view() =~= Seq::<Seq<char>>::empty());
            tags
        },
    }
}

} // verus!
