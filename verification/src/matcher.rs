//! Matchers: a glob or a regular expression over a relative path.
//!
//! A matcher holds its pattern as text. The `regex` and `globset` crates
//! say whether a pattern is well formed and whether it matches; a pattern
//! that they refuse never becomes a matcher. A glob is matched by the
//! regular expression that `globset` writes for it, which the `regex` crate
//! compiles and runs.

use vstd::prelude::*;
use vstd::string::StrSliceExecFns;
use vstd::string::StringExecFns;
use vstd::utf8::decode_utf8;
use vstd::utf8::encode_utf8;
use vstd::utf8::valid_utf8;
use crate::text::utf8_text;

verus! {

#[verifier::external_type_specification]
#[verifier::external_body]
pub struct ExRegexError(regex::Error);

#[verifier::external_type_specification]
#[verifier::external_body]
pub struct ExGlobError(globset::Error);

/// Whether `regex::Regex::new` compiles a pattern, under the limits on size
/// and nesting that the crate sets itself.
pub uninterp spec fn regex_accepted(pattern: Seq<char>) -> bool;

/// Whether the regular expression `pattern` finds a match anywhere in
/// `text`: what `regex::Regex::is_match` returns.
pub uninterp spec fn regex_found(pattern: Seq<char>, text: Seq<char>) -> bool;

/// The regular expression that `globset` writes for a glob in which `*` and
/// `?` stop at `/` and a backslash escapes the character after it: what
/// `Glob::regex` gives once `GlobBuilder::build` has accepted the glob, on a
/// system whose only path separator is `/`; nothing where the glob is
/// refused.
pub uninterp spec fn glob_regex(pattern: Seq<char>) -> Option<Seq<char>>;

/// Whether the `regex` crate compiles an expression for matching bytes,
/// with a dot that matches a line break too: whether
/// `regex::bytes::RegexBuilder::build` returns a regular expression.
pub uninterp spec fn bytes_regex_accepted(expression: Seq<char>) -> bool;

/// Whether an expression, compiled as for `bytes_regex_accepted`, finds a
/// match in the bytes of a text: what `regex::bytes::Regex::is_match`
/// returns.
pub uninterp spec fn bytes_regex_found(expression: Seq<char>, text: Seq<u8>) -> bool;

/// The number of opening braces that a glob may hold, escaped ones
/// counted too. Each brace that opens a group may open it within the one
/// before, the expression of a glob is written group within group, and the
/// `regex` crate lets groups nest no deeper than this.
pub const MAX_GLOB_GROUPS: usize = 250;

/// How often `c` stands in `s`.
pub open spec fn count_of(s: Seq<char>, c: char) -> nat
    decreases s.len(),
{
    if s.len() == 0 {
        0
    } else if s.last() == c {
        count_of(s.drop_last(), c) + 1
    } else {
        count_of(s.drop_last(), c)
    }
}

/// Whether a glob is one that becomes a matcher: it holds no more opening
/// braces than groups may nest, `globset` writes a regular expression for
/// it, and the `regex` crate compiles that expression. A glob that fails at
/// any of the three is refused, however long or deep it is.
pub open spec fn glob_accepted(pattern: Seq<char>) -> bool {
    count_of(pattern, '{') <= MAX_GLOB_GROUPS && (match glob_regex(pattern) {
        Some(expression) => bytes_regex_accepted(expression),
        None => false,
    })
}

/// Whether the glob `pattern` matches the whole of a path given as bytes:
/// whether the expression that is written for it finds a match.
pub open spec fn glob_matched(pattern: Seq<char>, path: Seq<u8>) -> bool {
    match glob_regex(pattern) {
        Some(expression) => bytes_regex_found(expression, path),
        None => false,
    }
}

/// Calls `regex::Regex::new` and drops the compiled expression.
#[verifier::external_body]
fn regex_check(pattern: &str) -> (r: Result<(), regex::Error>)
    ensures
        r is Ok <==> regex_accepted(pattern@),
{
    match regex::Regex::new(pattern) {
        Ok(_) => Ok(()),
        Err(error) => Err(error),
    }
}

/// Compiles the pattern with `regex::Regex::new` and calls `is_match`.
#[verifier::external_body]
fn regex_is_match(pattern: &str, text: &str) -> (r: bool)
    requires
        regex_accepted(pattern@),
    ensures
        r == regex_found(pattern@, text@),
{
    regex::Regex::new(pattern).unwrap().is_match(text)
}

/// The text of a `regex::Error`, by its `Display`.
#[verifier::external_body]
fn regex_error_text(error: &regex::Error) -> String {
    error.to_string()
}

/// Builds the glob with `globset::GlobBuilder`, separators literal and
/// backslash escapes on, and takes the regular expression that `globset`
/// has written for it. `globset` writes a group in braces by calling itself,
/// so the number of groups is bounded.
#[verifier::external_body]
fn glob_to_regex(pattern: &str) -> (r: Result<String, globset::Error>)
    requires
        count_of(pattern@, '{') <= MAX_GLOB_GROUPS,
    ensures
        match r {
            Ok(expression) => glob_regex(pattern@) == Some(expression@),
            Err(_) => glob_regex(pattern@) is None,
        },
{
    match globset::GlobBuilder::new(pattern).literal_separator(true).backslash_escape(true).build() {
        Ok(glob) => Ok(glob.regex().to_owned()),
        Err(error) => Err(error),
    }
}

/// Compiles an expression with `regex::bytes::RegexBuilder`, the dot
/// matching line breaks as in `globset`'s own matcher, and drops the
/// compiled expression. An expression that is too large or nests too deep
/// is an error here, as any other.
#[verifier::external_body]
fn bytes_regex_check(expression: &str) -> (r: Result<(), regex::Error>)
    ensures
        r is Ok <==> bytes_regex_accepted(expression@),
{
    match regex::bytes::RegexBuilder::new(expression).dot_matches_new_line(true).build() {
        Ok(_) => Ok(()),
        Err(error) => Err(error),
    }
}

/// Compiles an expression as `bytes_regex_check` does and calls `is_match`
/// on the bytes.
#[verifier::external_body]
fn bytes_regex_is_match(expression: &str, text: &[u8]) -> (r: bool)
    requires
        bytes_regex_accepted(expression@),
    ensures
        r == bytes_regex_found(expression@, text@),
{
    regex::bytes::RegexBuilder::new(expression).dot_matches_new_line(true).build().unwrap()
        .is_match(text)
}

/// The text of a `globset::Error`, by its `Display`.
#[verifier::external_body]
fn glob_error_text(error: &globset::Error) -> String {
    error.to_string()
}

/// Why a pattern is no matcher: the message of the crate that refused it.
#[derive(Debug)]
pub enum PatternError {
    /// The regular expression after `~` does not compile.
    Regex(String),
    /// The glob opens too many groups, is refused by `globset`, or has an
    /// expression that does not compile.
    Glob(String),
}

impl PatternError {
    /// What the crate that refused the pattern says of it.
    pub fn message(&self) -> (r: String)
        ensures
            r@ == match self {
                PatternError::Regex(text) => text@,
                PatternError::Glob(text) => text@,
            },
    {
        match self {
            PatternError::Regex(text) => text.clone(),
            PatternError::Glob(text) => text.clone(),
        }
    }
}

/// A glob that is accepted and that does not begin with `~`, with the
/// regular expression that is written for it.
#[derive(Debug, PartialEq, Eq)]
pub struct GlobPattern {
    text: String,
    expression: String,
}

/// A regular expression that `regex` accepts.
#[derive(Debug, PartialEq, Eq)]
pub struct RegexPattern {
    text: String,
}

/// The number of `c` in `v`.
fn count(v: &Vec<char>, c: char) -> (r: usize)
    ensures
        r == count_of(v@, c),
{
    let mut found: usize = 0;
    let mut i: usize = 0;
    while i < v.len()
        invariant
            i <= v.len(),
            found <= i,
            found == count_of(v@.take(i as int), c),
        decreases v.len() - i,
    {
        assert(v@.take(i + 1).drop_last() =~= v@.take(i as int));
        if v[i] == c {
            found += 1;
        }
        i += 1;
    }
    assert(v@.take(v.len() as int) =~= v@);
    found
}

impl GlobPattern {
    #[verifier::type_invariant]
    spec fn accepted(self) -> bool {
        &&& count_of(self.text@, '{') <= MAX_GLOB_GROUPS
        &&& glob_regex(self.text@) == Some(self.expression@)
        &&& bytes_regex_accepted(self.expression@)
        &&& !(self.text@.len() > 0 && self.text@[0] == '~')
    }

    /// The pattern as it was written.
    pub closed spec fn text(&self) -> Seq<char> {
        self.text@
    }

    /// The pattern as it was written.
    pub fn as_str(&self) -> (r: &str)
        ensures
            r@ == self.text(),
            glob_accepted(r@),
            !(r@.len() > 0 && r@[0] == '~'),
    {
        proof {
            use_type_invariant(self);
        }
        self.text.as_str()
    }

    /// The regular expression that is written for the pattern.
    pub fn expression(&self) -> (r: &str)
        ensures
            glob_regex(self.text()) == Some(r@),
            bytes_regex_accepted(r@),
    {
        proof {
            use_type_invariant(self);
        }
        self.expression.as_str()
    }

    /// Compiles a glob that does not begin with `~`.
    fn new(pattern: &str) -> (r: Result<GlobPattern, PatternError>)
        requires
            !(pattern@.len() > 0 && pattern@[0] == '~'),
        ensures
            r is Ok <==> glob_accepted(pattern@),
            r matches Ok(p) ==> p.text() == pattern@,
            r matches Err(e) ==> e is Glob,
    {
        let chars = crate::text::to_chars(pattern);
        if count(&chars, '{') > MAX_GLOB_GROUPS {
            return Err(
                PatternError::Glob(String::from_str("The glob opens more than 250 groups in braces")),
            );
        }
        match glob_to_regex(pattern) {
            Ok(expression) => match bytes_regex_check(expression.as_str()) {
                Ok(_) => Ok(GlobPattern { text: String::from_str(pattern), expression }),
                Err(error) => Err(PatternError::Glob(regex_error_text(&error))),
            },
            Err(error) => Err(PatternError::Glob(glob_error_text(&error))),
        }
    }

    /// A copy of this pattern.
    pub fn duplicate(&self) -> (r: GlobPattern)
        ensures
            r.text() == self.text(),
    {
        proof {
            use_type_invariant(self);
        }
        GlobPattern { text: self.text.clone(), expression: self.expression.clone() }
    }
}

impl RegexPattern {
    #[verifier::type_invariant]
    spec fn accepted(self) -> bool {
        regex_accepted(self.text@)
    }

    /// The expression as it was written, without the `~` that marks it.
    pub closed spec fn text(&self) -> Seq<char> {
        self.text@
    }

    /// The expression as it was written, without the `~` that marks it.
    pub fn as_str(&self) -> (r: &str)
        ensures
            r@ == self.text(),
            regex_accepted(r@),
    {
        proof {
            use_type_invariant(self);
        }
        self.text.as_str()
    }

    /// Compiles a regular expression.
    pub fn new(pattern: &str) -> (r: Result<RegexPattern, PatternError>)
        ensures
            r is Ok <==> regex_accepted(pattern@),
            r matches Ok(p) ==> p.text() == pattern@,
            r matches Err(e) ==> e is Regex,
    {
        match regex_check(pattern) {
            Ok(_) => Ok(RegexPattern { text: String::from_str(pattern) }),
            Err(error) => Err(PatternError::Regex(regex_error_text(&error))),
        }
    }
}

/// What a matcher is: its kind and its pattern.
pub enum MatcherView {
    Glob(Seq<char>),
    Regex(Seq<char>),
}

/// A predicate over relative paths.
#[derive(Debug, PartialEq, Eq)]
pub enum Matcher {
    Glob(GlobPattern),
    Regex(RegexPattern),
}

impl View for Matcher {
    type V = MatcherView;

    open spec fn view(&self) -> MatcherView {
        match self {
            Matcher::Glob(p) => MatcherView::Glob(p.text()),
            Matcher::Regex(p) => MatcherView::Regex(p.text()),
        }
    }
}

/// Whether a matcher's pattern is one that its crate accepts, and written
/// so that its text says which kind it is.
pub open spec fn well_formed(m: MatcherView) -> bool {
    match m {
        MatcherView::Glob(p) => glob_accepted(p) && !(p.len() > 0 && p[0] == '~'),
        MatcherView::Regex(p) => regex_accepted(p),
    }
}

/// The matcher that a pattern text stands for: after a leading `~` a
/// regular expression, else a glob; none where the pattern is refused.
pub open spec fn compiled(pattern: Seq<char>) -> Option<MatcherView> {
    if pattern.len() > 0 && pattern[0] == '~' {
        if regex_accepted(pattern.skip(1)) {
            Some(MatcherView::Regex(pattern.skip(1)))
        } else {
            None
        }
    } else {
        if glob_accepted(pattern) {
            Some(MatcherView::Glob(pattern))
        } else {
            None
        }
    }
}

/// The pattern text of a matcher: a regular expression gets its `~` back.
pub open spec fn matcher_text(m: MatcherView) -> Seq<char> {
    match m {
        MatcherView::Glob(p) => p,
        MatcherView::Regex(p) => "~"@ + p,
    }
}

/// Whether a matcher matches a path given as bytes. A regular expression
/// matches the path read as UTF-8, and never one that is not UTF-8; a glob
/// matches the bytes.
pub open spec fn matched_bytes(m: MatcherView, path: Seq<u8>) -> bool {
    match m {
        MatcherView::Glob(p) => glob_matched(p, path),
        MatcherView::Regex(p) => valid_utf8(path) && regex_found(p, decode_utf8(path)),
    }
}

/// Whether a matcher matches a path given as text.
pub open spec fn matched(m: MatcherView, path: Seq<char>) -> bool {
    match m {
        MatcherView::Glob(p) => glob_matched(p, encode_utf8(path)),
        MatcherView::Regex(p) => regex_found(p, path),
    }
}

impl Matcher {
    /// Compiles a pattern: a regular expression if it begins with `~`,
    /// which is not part of the expression, else a glob. A pattern with a
    /// syntax error is refused here, and never found out when matching.
    pub fn new(pattern: &str) -> (r: Result<Matcher, PatternError>)
        ensures
            match r {
                Ok(m) => compiled(pattern@) == Some(m@) && well_formed(m@),
                Err(e) => compiled(pattern@) is None && (e is Regex <==> pattern@.len() > 0
                    && pattern@[0] == '~'),
            },
    {
        let n: usize = pattern.unicode_len();
        if n > 0 && pattern.get_char(0) == '~' {
            let rest = pattern.substring_char(1, n);
            assert(rest@ =~= pattern@.skip(1));
            match RegexPattern::new(rest) {
                Ok(p) => Ok(Matcher::Regex(p)),
                Err(e) => Err(e),
            }
        } else {
            match GlobPattern::new(pattern) {
                Ok(p) => Ok(Matcher::Glob(p)),
                Err(e) => Err(e),
            }
        }
    }

    /// Whether the matcher matches `path`.
    pub fn matches(&self, path: &str) -> (r: bool)
        ensures
            r == matched(self@, path@),
    {
        match self {
            Matcher::Glob(p) => bytes_regex_is_match(p.expression(), path.as_bytes()),
            Matcher::Regex(p) => regex_is_match(p.as_str(), path),
        }
    }

    /// Whether the matcher matches a path that is given as bytes and need
    /// not be UTF-8.
    pub fn matches_bytes(&self, path: &[u8]) -> (r: bool)
        ensures
            r == matched_bytes(self@, path@),
    {
        match self {
            Matcher::Glob(p) => bytes_regex_is_match(p.expression(), path),
            Matcher::Regex(p) => match utf8_text(path) {
                Some(text) => regex_is_match(p.as_str(), text),
                None => false,
            },
        }
    }

    /// Whether two matchers are of the same kind and have the same pattern.
    pub fn same(&self, other: &Matcher) -> (r: bool)
        ensures
            r == (self@ == other@),
    {
        match (self, other) {
            (Matcher::Glob(a), Matcher::Glob(b)) => crate::text::str_eq(a.as_str(), b.as_str()),
            (Matcher::Regex(a), Matcher::Regex(b)) => crate::text::str_eq(a.as_str(), b.as_str()),
            _ => false,
        }
    }

    /// The pattern that the matcher was compiled from. Compiling it again
    /// gives this matcher.
    pub fn to_string(&self) -> (r: String)
        ensures
            r@ == matcher_text(self@),
            compiled(r@) == Some(self@),
            well_formed(self@),
    {
        match self {
            Matcher::Glob(p) => String::from_str(p.as_str()),
            Matcher::Regex(p) => {
                let r = String::from_str("~").concat(p.as_str());
                proof {
                    reveal_strlit("~");
                    assert(r@.skip(1) =~= p.text());
                }
                r
            },
        }
    }
}

impl Clone for Matcher {
    fn clone(&self) -> (r: Matcher)
        ensures
            r@ == self@,
    {
        match self {
            Matcher::Glob(p) => Matcher::Glob(p.duplicate()),
            Matcher::Regex(p) => Matcher::Regex(
                RegexPattern { text: String::from_str(p.as_str()) },
            ),
        }
    }
}

/// A matcher's text compiles to the matcher: pattern text and matcher
/// determine each other, for globs and for regular expressions alike, so
/// the matcher read back from its text matches exactly the same paths.
pub proof fn lemma_round_trip(m: MatcherView)
    ensures
        well_formed(m) ==> compiled(matcher_text(m)) == Some(m),
        well_formed(m) ==> forall|path: Seq<char>|
            matched(compiled(matcher_text(m))->0, path) == matched(m, path),
        well_formed(m) ==> forall|path: Seq<u8>|
            matched_bytes(compiled(matcher_text(m))->0, path) == matched_bytes(m, path),
{
    reveal_strlit("~");
    match m {
        MatcherView::Glob(p) => {},
        MatcherView::Regex(p) => {
            assert(("~"@ + p).skip(1) =~= p);
        },
    }
}

/// Matching a text is matching its UTF-8 bytes.
pub proof fn lemma_matched_bytes(m: MatcherView, path: Seq<char>)
    ensures
        matched_bytes(m, encode_utf8(path)) == matched(m, path),
{
    vstd::utf8::encode_utf8_valid_utf8(path);
    vstd::utf8::encode_utf8_decode_utf8(path);
}

} // verus!
