use vstd::prelude::*;

verus! {

#[verifier::external_type_specification]
#[verifier::external_body]
pub struct ExRegex(regex::Regex);

/// Whether a regular expression source compiles.
pub uninterp spec fn regex_compiles(source: Seq<char>) -> bool;

/// Whether a compiled regular expression matches anywhere in a text.
pub uninterp spec fn regex_is_match(source: Seq<char>, text: Seq<char>) -> bool;

/// The groups of the first match of a regular expression in a text: the
/// whole match first, then each group by its opening parenthesis, `None` for
/// a group that took no part in the match.
pub uninterp spec fn regex_captures(source: Seq<char>, text: Seq<char>) -> Option<Seq<Option<Seq<char>>>>;

/// The texts of a list of optional strings.
pub open spec fn group_texts(groups: Seq<Option<String>>) -> Seq<Option<Seq<char>>> {
    groups.map_values(|g: Option<String>| match g {
        Some(s) => Some(s@),
        None => None,
    })
}

/// A compiled regular expression together with the source it was compiled
/// from. Only `compile` makes one, so `re` always stands for `source`.
pub struct Pattern {
    source: String,
    re: regex::Regex,
}

impl View for Pattern {
    type V = Seq<char>;

    closed spec fn view(&self) -> Seq<char> {
        self.source@
    }
}

/// Relies on regex::Regex::new: whether the source compiles depends on the
/// source alone.
#[verifier::external_body]
pub(crate) fn compile(source: &String) -> (r: Option<Pattern>)
    ensures
        r is Some == regex_compiles(source@),
        r matches Some(p) ==> p@ == source@,
{
    regex::Regex::new(source.as_str()).ok().map(|re| Pattern { source: source.clone(), re })
}

/// Relies on regex::Regex::is_match: true if and only if there is a match
/// anywhere in the text.
#[verifier::external_body]
pub(crate) fn is_match(p: &Pattern, text: &String) -> (r: bool)
    ensures
        r == regex_is_match(p@, text@),
{
    p.re.is_match(text.as_str())
}

/// Relies on regex::Regex::captures and Captures::iter: the groups of the
/// first match, `None` where there is no match; the whole match comes first
/// and is always present.
#[verifier::external_body]
pub(crate) fn captures(p: &Pattern, text: &String) -> (r: Option<Vec<Option<String>>>)
    ensures
        r is Some == regex_is_match(p@, text@),
        r matches Some(g) ==> regex_captures(p@, text@) == Some(group_texts(g@)),
        r matches Some(g) ==> g@.len() >= 1 && g@[0] is Some,
{
    p.re.captures(text.as_str()).map(
        |c| c.iter().map(|m| m.map(|m| m.as_str().to_string())).collect(),
    )
}

} // verus!
