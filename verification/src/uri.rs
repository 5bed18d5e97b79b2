//! Normalized resource identifiers.
//!
//! One platform spells a drive letter three ways across its editors;
//! a normalized identifier lower-cases the whole URI after restoring
//! the encoded drive colon, then reparses it so equal documents compare
//! equal. The parser of the identifier syntax is the editor protocol
//! library's; the library holds the parsed identifier in its serialized
//! form.

use vstd::prelude::*;
use crate::deep::str_eq;

verus! {

/// Replacement of every leftmost, non-overlapping occurrence of a
/// non-empty needle.
pub open spec fn spec_replace(s: Seq<char>, from: Seq<char>, to: Seq<char>) -> Seq<char>
    decreases s.len(),
{
    if from.len() == 0 || s.len() < from.len() {
        s
    } else if s.subrange(0, from.len() as int) == from {
        to + spec_replace(s.subrange(from.len() as int, s.len() as int), from, to)
    } else {
        seq![s[0]] + spec_replace(s.drop_first(), from, to)
    }
}

/// Relies on str::replace: every leftmost, non-overlapping occurrence
/// of the needle is replaced.
#[verifier::external_body]
fn replace_text(s: &str, from: &str, to: &str) -> (r: String)
    requires
        from@.len() > 0,
    ensures
        r@ == spec_replace(s@, from@, to@),
{
    s.replace(from, to)
}

/// What lower-casing a text yields; the result depends on the
/// characters alone.
pub uninterp spec fn lower_of(s: Seq<char>) -> Seq<char>;

/// Relies on str::to_lowercase: the result depends on the characters
/// alone.
#[verifier::external_body]
fn lowercase(s: &str) -> (r: String)
    ensures
        r@ == lower_of(s@),
{
    s.to_lowercase()
}

/// What parsing a text as a resource identifier yields, in serialized
/// form: nothing for ill-formed text; the result depends on the text
/// alone.
pub uninterp spec fn url_parse_of(s: Seq<char>) -> Option<Seq<char>>;

/// Relies on lsp_types::Url::parse (and its serialization through
/// as_str): the parsed identifier of well-formed text, in serialized
/// form, a function of the text alone.
#[verifier::external_body]
fn url_parse_norm(s: &str) -> (r: Option<String>)
    ensures
        match r {
            Some(u) => url_parse_of(s@) == Some(u@),
            None => url_parse_of(s@) is None,
        },
{
    match lsp_types::Url::parse(s) {
        Ok(u) => Some(u.as_str().to_string()),
        Err(_) => None,
    }
}

/// The normalized spelling of a URI: the encoded drive colon restored,
/// then everything lower-cased.
pub open spec fn normalized_text(s: Seq<char>) -> Seq<char> {
    lower_of(spec_replace(s, "c%3A"@, "C:"@))
}

/// A document identifier in its normalized, parsed, serialized form.
#[derive(Debug)]
pub struct NormalizedUrl {
    url: String,
}

impl NormalizedUrl {
    /// The serialized form this identifier holds.
    pub closed spec fn text(&self) -> Seq<char> {
        self.url@
    }

    /// Normalizes and parses an already serialized identifier. The text
    /// must normalize to a well-formed identifier; `parse` checks that
    /// first.
    pub fn new(url: String) -> (r: NormalizedUrl)
        requires
            url_parse_of(normalized_text(url@)) is Some,
        ensures
            Some(r.text()) == url_parse_of(normalized_text(url@)),
    {
        proof {
            reveal_strlit("c%3A");
        }
        let restored = replace_text(url.as_str(), "c%3A", "C:");
        let lowered = lowercase(restored.as_str());
        match url_parse_norm(lowered.as_str()) {
            Some(u) => NormalizedUrl { url: u },
            None => {
                proof {
                    assert(false);
                }
                NormalizedUrl { url: String::new() }
            },
        }
    }

    /// Normalizes and parses a URI; ill-formed text yields nothing.
    pub fn parse(uri: &str) -> (r: Option<NormalizedUrl>)
        ensures
            match r {
                Some(n) => url_parse_of(normalized_text(uri@)) == Some(n.text()),
                None => url_parse_of(normalized_text(uri@)) is None,
            },
    {
        proof {
            reveal_strlit("c%3A");
        }
        let restored = replace_text(uri, "c%3A", "C:");
        let lowered = lowercase(restored.as_str());
        match url_parse_norm(lowered.as_str()) {
            Some(_) => Some(NormalizedUrl::new(uri.to_owned())),
            None => None,
        }
    }

    /// Hands the serialized identifier back.
    pub fn raw(self) -> (r: String)
        ensures
            r@ == self.text(),
    {
        self.url
    }

    /// Reads the serialized identifier.
    pub fn as_text(&self) -> (r: &str)
        ensures
            r@ == self.text(),
    {
        self.url.as_str()
    }

    /// Whether two identifiers name one document.
    pub fn same_as(&self, other: &NormalizedUrl) -> (r: bool)
        ensures
            r == (self.text() == other.text()),
    {
        str_eq(self.url.as_str(), other.url.as_str())
    }
}

/// The reverse spelling fix: a bare drive colon becomes the encoded
/// file-scheme form, so foreign tools reparse the URI.
pub fn denormalize(url_text: &str) -> (r: String)
    ensures
        r@ == spec_replace(url_text@, "c:"@, "file:///c%3A"@),
{
    proof {
        reveal_strlit("c:");
    }
    replace_text(url_text, "c:", "file:///c%3A")
}

} // verus!
