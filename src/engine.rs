use vstd::prelude::*;

verus! {

#[verifier::external_type_specification]
#[verifier::external_body]
pub struct ExRegex(regex::Regex);

#[verifier::external_type_specification]
#[verifier::external_body]
pub struct ExRegexError(regex::Error);

/// Whether the regex engine compiles a pattern.
pub uninterp spec fn regex_accepts(pattern: Seq<char>) -> bool;

/// Whether a pattern matches anywhere in a text.
pub uninterp spec fn regex_finds(pattern: Seq<char>, text: Seq<char>) -> bool;

/// What the named group of a pattern captured in the first match in a text;
/// `None` where the group took no part in that match.
pub uninterp spec fn regex_group(pattern: Seq<char>, text: Seq<char>, name: Seq<char>) -> Option<
    Seq<char>,
>;

/// A compiled pattern, together with the text that it was compiled from.
///
/// Values are only made by [`Compiled::new`], so `regex` is always the
/// compilation of `source`.
pub struct Compiled {
    source: String,
    regex: regex::Regex,
}

impl Compiled {
    pub closed spec fn source(&self) -> Seq<char> {
        self.source@
    }

    /// Relies on `regex::Regex::new`: whether a pattern compiles depends on
    /// the pattern alone.
    #[verifier::external_body]
    pub(crate) fn new(pattern: &str) -> (r: Result<Compiled, regex::Error>)
        ensures
            r.is_ok() == regex_accepts(pattern@),
            r matches Ok(c) ==> c.source() == pattern@,
    {
        match regex::Regex::new(pattern) {
            Ok(regex) => Ok(Compiled { source: pattern.to_string(), regex }),
            Err(e) => Err(e),
        }
    }

    pub(crate) fn source_str(&self) -> (r: &str)
        ensures
            r@ == self.source(),
    {
        self.source.as_str()
    }

    /// Relies on `regex::Regex::is_match`: true if and only if the pattern
    /// matches somewhere in the text.
    #[verifier::external_body]
    pub(crate) fn finds(&self, text: &str) -> (r: bool)
        ensures
            r == regex_finds(self.source(), text@),
    {
        self.regex.is_match(text)
    }

    /// Relies on `regex::Regex::captures` and `regex::Captures::name`: the
    /// outer `None` when there is no match (exactly when `is_match` is false),
    /// else the text of the named group in the first match, if it took part.
    #[verifier::external_body]
    pub(crate) fn group(&self, text: &str, name: &str) -> (r: Option<Option<String>>)
        ensures
            r.is_some() == regex_finds(self.source(), text@),
            r matches Some(g) ==> regex_group(self.source(), text@, name@) == (match g {
                Some(s) => Some(s@),
                None => None::<Seq<char>>,
            }),
    {
        match self.regex.captures(text) {
            None => None,
            Some(caps) => match caps.name(name) {
                None => Some(None),
                Some(m) => Some(Some(m.as_str().to_string())),
            },
        }
    }
}

} // verus!
