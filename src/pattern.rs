//! Compiled regular expressions, held together with the text they were
//! compiled from.

use vstd::prelude::*;

verus! {

#[verifier::external_type_specification]
#[verifier::external_body]
pub struct ExRegex(regex::Regex);

#[verifier::external_type_specification]
#[verifier::external_body]
pub struct ExRegexError(regex::Error);

/// `source` is accepted by the regular-expression compiler.
pub uninterp spec fn regex_accepts(source: Seq<char>) -> bool;

/// The regular expression written `source` matches somewhere in `line`.
pub uninterp spec fn regex_finds(source: Seq<char>, line: Seq<char>) -> bool;

/// A regular expression together with the exact text it was compiled from.
///
/// Its fields are private to this module, and `compile` is the only place
/// that builds one: `source` is therefore always the text that `regex` was
/// compiled from, which is what `find` states its result over.
pub struct CompiledRegex {
    regex: regex::Regex,
    source: Ghost<Seq<char>>,
}

impl View for CompiledRegex {
    type V = Seq<char>;

    closed spec fn view(&self) -> Seq<char> {
        self.source@
    }
}

impl CompiledRegex {
    /// Relies on `regex::Regex::new`: whether compilation succeeds depends on
    /// the pattern text alone.
    #[verifier::external_body]
    pub(crate) fn compile(source: &str) -> (r: Result<CompiledRegex, regex::Error>)
        ensures
            r is Ok <==> regex_accepts(source@),
            r matches Ok(c) ==> c@ == source@,
    {
        match regex::Regex::new(source) {
            Ok(regex) => Ok(CompiledRegex { regex, source: Ghost(source@) }),
            Err(e) => Err(e),
        }
    }

    /// Relies on `regex::Regex::is_match`: an unanchored search whose answer
    /// depends on the compiled pattern text and the line alone.
    #[verifier::external_body]
    pub(crate) fn find(&self, line: &str) -> (r: bool)
        ensures
            r == regex_finds(self@, line@),
    {
        self.regex.is_match(line)
    }
}

} // verus!
