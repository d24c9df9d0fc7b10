use vstd::prelude::*;

verus! {

#[verifier::external_type_specification]
#[verifier::external_body]
pub struct ExRegex(regex::Regex);

/// Whether the regular expression written `pattern` matches somewhere in
/// `text`. Names the result of `regex::Regex::is_match`, which is a function
/// of the pattern text and the haystack alone.
pub uninterp spec fn regex_accepts(pattern: Seq<char>, text: Seq<char>) -> bool;

/// An opaque compiled matcher over record targets, kept beside the pattern
/// text it was compiled from.
pub struct TargetPattern {
    regex: regex::Regex,
    pattern: String,
}

impl TargetPattern {
    /// The pattern text this matcher was compiled from.
    pub closed spec fn pattern(&self) -> Seq<char> {
        self.pattern@
    }

    /// Relies on `regex::Regex::new`: compiles the pattern text, returning
    /// `Err` exactly when the text is not valid regular-expression syntax.
    /// This is the only constructor, so every `TargetPattern`'s matcher was
    /// compiled from its own pattern text.
    #[verifier::external_body]
    pub fn new(pattern: &str) -> (r: Option<TargetPattern>)
        ensures
            r matches Some(p) ==> p.pattern() == pattern@,
    {
        match regex::Regex::new(pattern) {
            Ok(regex) => Some(TargetPattern { regex, pattern: pattern.to_owned() }),
            Err(_) => None,
        }
    }

    /// Relies on `regex::Regex::is_match`: whether `text` matches the compiled
    /// pattern; the result depends only on the pattern text and `text`.
    #[verifier::external_body]
    pub fn matches(&self, text: &str) -> (r: bool)
        ensures
            r == regex_accepts(self.pattern(), text@),
    {
        self.regex.is_match(text)
    }
}

} // verus!
