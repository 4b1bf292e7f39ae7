//! A pull request, named by its URL.

use crate::text::{
    chars_of, contains, contains_seq, count_char, count_of, lemma_pieces_len,
    lemma_replaced_count, parse_u64, parsed_u64, pieces, replace_all, replaced, slice_of,
    split_bounds,
};
use vstd::prelude::*;

verus! {

/// A resource needs at least this many parts: owner, repository, `pull`, number.
pub const EXPECTED_PARTS_OF_RESOURCE: usize = 4;

/// A queued pull request. Two pull requests are the same when their URLs are.
#[derive(Debug, PartialEq)]
pub struct PullRequest {
    pub url: Option<String>,
    pub owner: String,
    pub repo: String,
    pub request: u64,
}

/// Why a resource is no pull request.
#[derive(Debug, PartialEq, Eq, Clone, Copy)]
pub enum PullRequestError {
    /// The resource does not have the shape of a pull request's URL.
    InvalidUrl,
    /// The last part of the resource is no number that fits in 64 bits.
    InvalidNumber,
}

/// A resource without its host: `https://github.com/` is taken out, then
/// every `//` becomes `/`, then `github.com/` is taken out.
pub open spec fn normalized(s: Seq<char>) -> Seq<char> {
    replaced(
        replaced(replaced(s, "https://github.com/"@, Seq::<char>::empty()), "//"@, "/"@),
        "github.com/"@,
        Seq::<char>::empty(),
    )
}

/// A resource is valid when, without its host, it holds `pull` and at least
/// three slashes.
pub open spec fn valid_resource(s: Seq<char>) -> bool {
    &&& contains_seq(normalized(s), "pull"@)
    &&& count_of(normalized(s), '/') >= EXPECTED_PARTS_OF_RESOURCE - 1
}

/// A valid resource has at least four parts between its slashes.
pub proof fn lemma_valid_has_parts(s: Seq<char>)
    requires
        valid_resource(s),
    ensures
        pieces(s, '/').len() >= EXPECTED_PARTS_OF_RESOURCE,
{
    let none = Seq::<char>::empty();
    let a = replaced(s, "https://github.com/"@, none);
    let b = replaced(a, "//"@, "/"@);
    reveal_strlit("//");
    reveal_strlit("/");
    assert(count_of(none, '/') == 0);
    assert(count_of("/"@, '/') <= count_of("//"@, '/')) by {
        assert("//"@.drop_last() =~= "/"@);
    }
    lemma_replaced_count(s, "https://github.com/"@, none, '/');
    lemma_replaced_count(a, "//"@, "/"@, '/');
    lemma_replaced_count(b, "github.com/"@, none, '/');
    lemma_pieces_len(s, '/');
}

fn valid_chars(chars: &Vec<char>) -> (b: bool)
    ensures
        b == valid_resource(chars@),
{
    let none: Vec<char> = Vec::new();
    let scheme_and_host = chars_of("https://github.com/");
    let host = chars_of("github.com/");
    let two_slashes = chars_of("//");
    let one_slash = chars_of("/");
    let pull = chars_of("pull");
    proof {
        reveal_strlit("https://github.com/");
        reveal_strlit("github.com/");
        reveal_strlit("//");
    }
    let without_scheme = replace_all(chars, &scheme_and_host, &none);
    let single_slashes = replace_all(&without_scheme, &two_slashes, &one_slash);
    let normalized_resource = replace_all(&single_slashes, &host, &none);
    assert(none@ =~= Seq::<char>::empty());
    if !contains(&normalized_resource, &pull) {
        return false;
    }
    if count_char(&normalized_resource, '/') < EXPECTED_PARTS_OF_RESOURCE - 1 {
        return false;
    }
    true
}

impl PullRequest {
    /// The URL as a sequence of characters: what a pull request is known by.
    pub open spec fn key(&self) -> Option<Seq<char>> {
        match self.url {
            Some(u) => Some(u@),
            None => None,
        }
    }

    /// The part of `resource` that is `back` parts from its end.
    pub open spec fn part_from_end(resource: Seq<char>, back: int) -> Seq<char> {
        pieces(resource, '/')[pieces(resource, '/').len() - back]
    }

    /// `resource` names a pull request: it is valid and its last part is a number.
    pub open spec fn is_named_by(resource: Seq<char>) -> bool {
        &&& valid_resource(resource)
        &&& parsed_u64(Self::part_from_end(resource, 1)) is Some
    }

    /// This is the pull request that `resource` names: its URL is the
    /// resource, its owner and repository are the fourth and third parts from
    /// the end, its number is the last part.
    pub open spec fn names(&self, resource: Seq<char>) -> bool {
        &&& self.key() == Some(resource)
        &&& self.owner@ == Self::part_from_end(resource, 4)
        &&& self.repo@ == Self::part_from_end(resource, 3)
        &&& parsed_u64(Self::part_from_end(resource, 1)) == Some(self.request)
    }

    /// The pull request that `resource` names. Fails with `InvalidUrl`
    /// exactly on an invalid resource, and with `InvalidNumber` exactly on a
    /// valid one whose last part is no `u64`.
    pub fn new(resource: String) -> (r: Result<Self, PullRequestError>)
        ensures
            r is Ok <==> Self::is_named_by(resource@),
            match r {
                Ok(p) => p.url == Some(resource) && p.names(resource@),
                Err(PullRequestError::InvalidUrl) => !valid_resource(resource@),
                Err(PullRequestError::InvalidNumber) => {
                    &&& valid_resource(resource@)
                    &&& parsed_u64(Self::part_from_end(resource@, 1)) is None
                },
            },
    {
        let chars = chars_of(resource.as_str());
        if !valid_chars(&chars) {
            return Err(PullRequestError::InvalidUrl);
        }
        let bounds = split_bounds(&chars, '/');
        proof {
            lemma_valid_has_parts(resource@);
        }
        let length: usize = bounds.len();
        let (owner_from, owner_to) = bounds[length - 4];
        let (repo_from, repo_to) = bounds[length - 3];
        let (number_from, number_to) = bounds[length - 1];
        let number = parse_u64(&slice_of(&chars, number_from, number_to));
        match number {
            None => Err(PullRequestError::InvalidNumber),
            Some(request) => {
                let owner = resource.as_str().substring_char(owner_from, owner_to).to_owned();
                let repo = resource.as_str().substring_char(repo_from, repo_to).to_owned();
                Ok(PullRequest { url: Some(resource), owner, repo, request })
            },
        }
    }

    /// Whether `resource` has the shape of a pull request's URL.
    pub fn valid(resource: &str) -> (b: bool)
        ensures
            b == valid_resource(resource@),
    {
        let chars = chars_of(resource);
        valid_chars(&chars)
    }

    /// Whether both pull requests have the same URL, or both have none.
    pub fn same(&self, other: &PullRequest) -> (equal: bool)
        ensures
            equal == (self.key() == other.key()),
    {
        match &self.url {
            Some(mine) => match &other.url {
                Some(theirs) => *mine == *theirs,
                None => false,
            },
            None => other.url.is_none(),
        }
    }
}

impl Clone for PullRequest {
    fn clone(&self) -> (out: Self)
        ensures
            out == *self,
    {
        let url = match &self.url {
            Some(u) => Some(u.clone()),
            None => None,
        };
        PullRequest { url, owner: self.owner.clone(), repo: self.repo.clone(), request: self.request }
    }
}

impl Default for PullRequest {
    fn default() -> (out: Self)
        ensures
            out.url is None,
            out.owner@.len() == 0,
            out.repo@.len() == 0,
            out.request == 0,
    {
        PullRequest { url: None, owner: String::new(), repo: String::new(), request: 0 }
    }
}

} // verus!
