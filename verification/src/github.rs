//! The release source: which of a project's releases is the latest one for
//! a tool, and how the errors of the client are worded.

use vstd::prelude::*;
use vstd::string::StringExecFns;
use crate::text::ends_with;
use crate::text::from_chars;
use crate::text::has_suffix;
use crate::text::to_chars;
use crate::util::texts;

verus! {

/// How the release source is reached.
#[derive(Debug, PartialEq, Eq)]
pub struct GithubConfig {
    token: Option<String>,
}

impl Default for GithubConfig {
    fn default() -> (r: GithubConfig)
        ensures
            r.token_text() is None,
    {
        GithubConfig { token: None }
    }
}

impl Clone for GithubConfig {
    fn clone(&self) -> (r: GithubConfig)
        ensures
            r.token_text() == self.token_text(),
    {
        GithubConfig {
            token: match &self.token {
                Some(token) => Some(token.clone()),
                None => None,
            },
        }
    }
}

impl GithubConfig {
    /// The access token, as text.
    pub closed spec fn token_text(&self) -> Option<Seq<char>> {
        match self.token {
            Some(token) => Some(token@),
            None => None,
        }
    }

    /// A configuration with this access token, or with none.
    pub fn new(token: Option<String>) -> (r: GithubConfig)
        ensures
            r.token_text() == match token {
                Some(t) => Some(t@),
                None => None,
            },
    {
        GithubConfig { token }
    }

    /// The access token, if one is configured.
    pub fn token(&self) -> (r: Option<&str>)
        ensures
            match r {
                Some(t) => self.token_text() == Some(t@),
                None => self.token_text() is None,
            },
    {
        match &self.token {
            Some(token) => Some(token.as_str()),
            None => None,
        }
    }
}

/// A question to the release source.
#[derive(Clone, Copy, Debug, PartialEq, Eq, Structural)]
pub enum Query {
    /// The release that the source marks as the latest: it is no draft and
    /// no prerelease.
    LatestFinal,
    /// The newest release that is no draft, prerelease or not.
    LatestAny,
}

/// What was learnt of a project's releases so far.
#[derive(Clone, Copy, Debug, PartialEq, Eq, Structural)]
pub enum Known {
    /// Nothing yet.
    Nothing,
    /// The project has no final release.
    NoFinalRelease,
}

/// The next question to ask for a tool's latest release, if one is left.
/// With prereleases allowed, the newest release is asked for at once; else
/// the latest final one, and the newest only if there is no final one.
pub fn next_query(allow_prerelease: bool, known: Known) -> (r: Query)
    ensures
        r == if allow_prerelease || known == Known::NoFinalRelease {
            Query::LatestAny
        } else {
            Query::LatestFinal
        },
{
    if allow_prerelease {
        Query::LatestAny
    } else {
        match known {
            Known::Nothing => Query::LatestFinal,
            Known::NoFinalRelease => Query::LatestAny,
        }
    }
}

/// The position of the first release that is no draft.
pub open spec fn first_published_at(drafts: Seq<bool>, from: int) -> int
    decreases drafts.len() - from,
{
    if from >= drafts.len() {
        drafts.len() as int
    } else if from >= 0 && !drafts[from] {
        from
    } else {
        first_published_at(drafts, from + 1)
    }
}

/// The newest release that is no draft, among releases listed newest
/// first and known by whether each is a draft.
pub fn first_published(drafts: &Vec<bool>) -> (r: Option<usize>)
    ensures
        match r {
            Some(i) => i < drafts.len() && i == first_published_at(drafts@, 0),
            None => first_published_at(drafts@, 0) == drafts.len(),
        },
{
    let mut i: usize = 0;
    while i < drafts.len()
        invariant
            i <= drafts.len(),
            first_published_at(drafts@, 0) == first_published_at(drafts@, i as int),
        decreases drafts.len() - i,
    {
        if !drafts[i] {
            return Some(i);
        }
        i += 1;
    }
    None
}

/// The messages of a chain of causes put together: each cause is added
/// after a colon, up to the first one that the message already ends with.
pub open spec fn chained(message: Seq<char>, causes: Seq<Seq<char>>) -> Seq<char>
    decreases causes.len(),
{
    if causes.len() == 0 {
        message
    } else if message.len() == 0 {
        chained(causes[0], causes.skip(1))
    } else if has_suffix(message, causes[0]) {
        message
    } else {
        chained(message + ": "@ + causes[0], causes.skip(1))
    }
}

/// The message of an error of the client: that of its causes, or its own
/// where it has none that says anything.
pub open spec fn humanized(own: Seq<char>, causes: Seq<Seq<char>>) -> Seq<char> {
    if chained(Seq::empty(), causes).len() == 0 {
        own
    } else {
        chained(Seq::empty(), causes)
    }
}

/// Words an error of the client for the user, from the error's own message
/// and the messages of its chain of causes, outermost first. The client's
/// own messages say little; those of the causes say what went wrong.
pub fn humanize_error(own: &str, causes: &Vec<String>) -> (r: String)
    ensures
        r@ == humanized(own@, texts(causes@)),
{
    let ghost all = texts(causes@);
    let mut message: Vec<char> = Vec::new();
    let mut i: usize = 0;
    let mut complete: bool = false;
    assert(all.skip(0) =~= all);
    while i < causes.len() && !complete
        invariant
            i <= causes.len(),
            all == texts(causes@),
            chained(Seq::empty(), all) == if complete {
                message@
            } else {
                chained(message@, all.skip(i as int))
            },
        decreases causes.len() - i,
    {
        let cause = to_chars(causes[i].as_str());
        proof {
            assert(all.skip(i as int)[0] == cause@);
            assert(all.skip(i as int).skip(1) =~= all.skip(i + 1));
        }
        if message.len() == 0 {
            message = cause;
        } else if ends_with(&message, &cause) {
            complete = true;
        } else {
            let ghost before = message@;
            message.push(':');
            message.push(' ');
            let mut k: usize = 0;
            while k < cause.len()
                invariant
                    k <= cause.len(),
                    message@ == before + seq![':', ' '] + cause@.take(k as int),
                decreases cause.len() - k,
            {
                message.push(cause[k]);
                assert(message@ =~= before + seq![':', ' '] + cause@.take(k + 1));
                k += 1;
            }
            proof {
                reveal_strlit(": ");
                assert(cause@.take(cause.len() as int) =~= cause@);
                assert(": "@ =~= seq![':', ' ']);
            }
        }
        i += 1;
    }
    if message.len() == 0 {
        String::from_str(own)
    } else {
        let r = from_chars(&message, 0, message.len());
        assert(r@ =~= message@);
        r
    }
}

/// Why the release source gave no release.
#[derive(Debug, PartialEq, Eq)]
pub enum SourceError {
    /// There is no such project.
    NoProject,
    /// Anything else, in the words of `humanize_error`.
    Other(String),
}

impl SourceError {
    /// The error as a message for the user.
    pub fn message(&self) -> (r: String)
        ensures
            r@ == match *self {
                SourceError::NoProject => "The project doesn't exist"@,
                SourceError::Other(text) => text@,
            },
    {
        match self {
            SourceError::NoProject => String::from_str("The project doesn't exist"),
            SourceError::Other(text) => text.clone(),
        }
    }
}

/// The error of a question about a project: that the project does not
/// exist where the source says "not found", else the error in words.
pub fn map_project_error(not_found: bool, own: &str, causes: &Vec<String>) -> (r: SourceError)
    ensures
        not_found ==> r == SourceError::NoProject,
        !not_found ==> (r matches SourceError::Other(text) && text@ == humanized(
            own@,
            texts(causes@),
        )),
{
    if not_found {
        SourceError::NoProject
    } else {
        SourceError::Other(humanize_error(own, causes))
    }
}

} // verus!
