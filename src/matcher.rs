//! The matching rule applied to each line: a literal substring, optionally
//! ignoring case, or a regular expression.

use vstd::prelude::*;
use crate::error::SearchError;
use crate::pattern::{regex_accepts, regex_finds, CompiledRegex};
use crate::text::{lower_of, occurs_in, str_contains, to_lower};

verus! {

/// The text handed to the regular-expression compiler: the pattern, behind an
/// inline case-insensitive flag when case is ignored.
pub open spec fn regex_source(pattern: Seq<char>, ignore_case: bool) -> Seq<char> {
    if ignore_case {
        seq!['(', '?', 'i', ')'] + pattern
    } else {
        pattern
    }
}

/// Building a matcher from these inputs fails: only a regular expression that
/// the compiler refuses does.
pub open spec fn construction_fails(pattern: Seq<char>, ignore_case: bool, use_regex: bool) -> bool {
    use_regex && !regex_accepts(regex_source(pattern, ignore_case))
}

/// Whether a matcher built from `pattern`, `ignore_case` and `use_regex`
/// accepts `line`.
pub open spec fn answers(pattern: Seq<char>, ignore_case: bool, use_regex: bool, line: Seq<char>) -> bool {
    if use_regex {
        regex_finds(regex_source(pattern, ignore_case), line)
    } else if ignore_case {
        occurs_in(lower_of(pattern), lower_of(line))
    } else {
        occurs_in(pattern, line)
    }
}

/// How lines are tested: built once, then used read-only for every line.
pub enum Matcher {
    /// Substring search; when `ignore_case` holds, `pattern` is already in
    /// lowercase and each line is lowercased before the search.
    Literal { pattern: String, ignore_case: bool },
    /// Unanchored regular-expression search; ignoring case is part of the
    /// compiled pattern.
    Regex { regex: CompiledRegex },
}

impl Matcher {
    /// Whether this matcher accepts `line`.
    pub open spec fn spec_is_match(&self, line: Seq<char>) -> bool {
        match self {
            Matcher::Literal { pattern, ignore_case } => {
                if *ignore_case {
                    occurs_in(pattern@, lower_of(line))
                } else {
                    occurs_in(pattern@, line)
                }
            },
            Matcher::Regex { regex } => regex_finds(regex@, line),
        }
    }

    /// This is the matcher that `new` builds from these inputs.
    pub open spec fn built_from(&self, pattern: Seq<char>, ignore_case: bool, use_regex: bool) -> bool {
        if use_regex {
            &&& self matches Matcher::Regex { regex }
            &&& regex@ == regex_source(pattern, ignore_case)
        } else {
            &&& self matches Matcher::Literal { pattern: stored, ignore_case: folded }
            &&& folded == ignore_case
            &&& stored@ == if ignore_case { lower_of(pattern) } else { pattern }
        }
    }

    /// Builds the matcher for `pattern`: a regular expression when
    /// `use_regex` holds, a literal substring otherwise; `ignore_case` makes
    /// either one case-insensitive.
    pub fn new(pattern: &str, ignore_case: bool, use_regex: bool) -> (r: Result<Matcher, SearchError>)
        ensures
            r is Err <==> construction_fails(pattern@, ignore_case, use_regex),
            r matches Err(e) ==> e is InvalidPattern,
            r matches Ok(m) ==> m.built_from(pattern@, ignore_case, use_regex),
            r matches Ok(m) ==> forall|line: Seq<char>| #[trigger]
                m.spec_is_match(line) == answers(pattern@, ignore_case, use_regex, line),
    {
        if use_regex {
            let compiled = if ignore_case {
                let mut source = String::from_str("(?i)");
                proof {
                    reveal_strlit("(?i)");
                }
                source.append(pattern);
                assert(source@ =~= regex_source(pattern@, ignore_case));
                CompiledRegex::compile(source.as_str())
            } else {
                CompiledRegex::compile(pattern)
            };
            match compiled {
                Ok(regex) => Ok(Matcher::Regex { regex }),
                Err(e) => Err(SearchError::InvalidPattern(e)),
            }
        } else {
            let stored = if ignore_case {
                to_lower(pattern)
            } else {
                pattern.to_owned()
            };
            Ok(Matcher::Literal { pattern: stored, ignore_case })
        }
    }

    /// Whether `line` matches: holds the pattern as a substring (of the
    /// lowercased line when case is ignored), or contains a match of the
    /// regular expression anywhere.
    pub fn is_match(&self, line: &str) -> (r: bool)
        ensures
            r == self.spec_is_match(line@),
    {
        match self {
            Matcher::Literal { pattern, ignore_case } => {
                if *ignore_case {
                    let lowered = to_lower(line);
                    str_contains(lowered.as_str(), pattern.as_str())
                } else {
                    str_contains(line, pattern.as_str())
                }
            },
            Matcher::Regex { regex } => regex.find(line),
        }
    }
}

/// A literal matcher that keeps case accepts exactly the lines holding the
/// pattern as written; one that ignores case gives the same answer for any
/// two lines that differ only in case.
pub proof fn lemma_literal_case_sensitivity(pattern: Seq<char>, line: Seq<char>, recased: Seq<char>)
    ensures
        answers(pattern, false, false, line) == occurs_in(pattern, line),
        lower_of(line) == lower_of(recased) ==> answers(pattern, true, false, line) == answers(
            pattern,
            true,
            false,
            recased,
        ),
{
}

/// Ignoring case, a literal pattern answers as any re-cased form of it does.
pub proof fn lemma_recased_pattern(pattern: Seq<char>, recased: Seq<char>, line: Seq<char>)
    requires
        lower_of(pattern) == lower_of(recased),
    ensures
        answers(pattern, true, false, line) == answers(recased, true, false, line),
{
}

/// Whether building a matcher fails is decided by its inputs alone: a
/// literal matcher is always built, and a regular expression fails exactly
/// when the compiler refuses its text. Matching itself never fails.
pub proof fn lemma_construction_outcome(pattern: Seq<char>, ignore_case: bool)
    ensures
        !construction_fails(pattern, ignore_case, false),
        construction_fails(pattern, ignore_case, true) == !regex_accepts(
            regex_source(pattern, ignore_case),
        ),
{
}

} // verus!
