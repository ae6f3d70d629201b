//! Reading the newest release's tag out of the release service's reply, and
//! comparing it with the running version.

use vstd::prelude::*;
use vstd::string::StringExecFns;

use crate::app::{UpdateStatus, UpdateStatusView};
use crate::text::{chars_of, chars_eq, find_chars, first_occurrence, occurs_at, string_from_chars};

verus! {

/// The quoted key whose value is the release tag.
pub open spec fn tag_key() -> Seq<char> {
    "\"tag_name\""@
}

/// The text between the first two `"` of `s`, if it has two.
pub open spec fn first_quoted(s: Seq<char>) -> Option<Seq<char>> {
    match first_occurrence(s, seq!['"']) {
        Some(a) => {
            let rest = s.skip(a + 1);
            match first_occurrence(rest, seq!['"']) {
                Some(b) => Some(rest.take(b)),
                None => None,
            }
        },
        None => None,
    }
}

/// The release tag in a reply: the first quoted text after the first
/// occurrence of the key.
pub open spec fn tag_in(body: Seq<char>) -> Option<Seq<char>> {
    match first_occurrence(body, tag_key()) {
        Some(i) => first_quoted(body.skip(i + tag_key().len())),
        None => None,
    }
}

/// The message for a reply without a tag.
pub open spec fn no_tag_message() -> Seq<char> {
    "Could not parse tag_name from GitHub API response"@
}

proof fn lemma_first_unique(s: Seq<char>, p: Seq<char>, i: int)
    requires
        occurs_at(s, p, i),
        forall|j: int| 0 <= j < i ==> !occurs_at(s, p, j),
    ensures
        first_occurrence(s, p) == Some(i),
{
    assert(s.subrange(i, i + p.len()) == p);
    let c = choose|k: int| occurs_at(s, p, k) && forall|j: int| 0 <= j < k ==> !occurs_at(s, p, j);
    assert(occurs_at(s, p, c) && forall|j: int| 0 <= j < c ==> !occurs_at(s, p, j));
    if c < i {
        assert(!occurs_at(s, p, c));
    }
    if c > i {
        assert(!occurs_at(s, p, i));
    }
}

/// Finds the first occurrence of `p` in `s`, stated with `first_occurrence`.
fn find_first(s: &[char], p: &[char]) -> (r: Option<usize>)
    ensures
        match r {
            Some(i) => first_occurrence(s@, p@) == Some(i as int) && i + p@.len() <= s@.len(),
            None => first_occurrence(s@, p@) is None,
        },
{
    let r = find_chars(s, p);
    proof {
        if let Some(i) = r {
            lemma_first_unique(s@, p@, i as int);
        }
    }
    r
}

/// Reads the release tag out of the release service's reply.
pub fn parse_tag_name(body: &str) -> (r: Result<String, String>)
    ensures
        match tag_in(body@) {
            Some(t) => r matches Ok(tag) && tag@ == t,
            None => r matches Err(e) && e@ == no_tag_message(),
        },
{
    let v = chars_of(body);
    let key = chars_of("\"tag_name\"");
    let quote: Vec<char> = vec!['"'];
    assert(quote@ =~= seq!['"']);
    let vs = v.as_slice();
    let ks = key.as_slice();
    if let Some(i) = find_first(vs, ks) {
        assert(i + ks@.len() <= vs@.len());
        assert(ks@.len() == ks.len());
        assert(vs@.len() == vs.len());
        let after = &vs[i + ks.len()..vs.len()];
        assert(after@ =~= body@.skip(i + tag_key().len()));
        if let Some(a) = find_first(after, quote.as_slice()) {
            let rest = &after[a + 1..after.len()];
            assert(rest@ =~= after@.skip(a + 1));
            if let Some(b) = find_first(rest, quote.as_slice()) {
                let tag = string_from_chars(&rest[0..b]);
                assert(tag@ =~= rest@.take(b as int));
                return Ok(tag);
            }
        }
    }
    Err(String::from_str("Could not parse tag_name from GitHub API response"))
}

/// `s` without its leading `v`s.
pub open spec fn without_v(s: Seq<char>) -> Seq<char>
    decreases s.len(),
{
    if s.len() > 0 && s[0] == 'v' {
        without_v(s.drop_first())
    } else {
        s
    }
}

fn leading_vs(v: &Vec<char>) -> (i: usize)
    ensures
        i <= v@.len(),
        v@.skip(i as int) == without_v(v@),
{
    let mut i: usize = 0;
    assert(v@.skip(0) =~= v@);
    while i < v.len() && v[i] == 'v'
        invariant
            i <= v.len(),
            without_v(v@.skip(i as int)) == without_v(v@),
        decreases v.len() - i,
    {
        assert(v@.skip(i as int).drop_first() =~= v@.skip(i + 1));
        i += 1;
    }
    i
}

/// What a release check found, given the reply's tag or the failure, and
/// the running version: a tag that differs from the version, both without
/// leading `v`s, is a newer version.
pub open spec fn status_for(result: Result<Seq<char>, Seq<char>>, current: Seq<char>) -> UpdateStatusView {
    match result {
        Ok(tag) => if without_v(tag) != without_v(current) {
            UpdateStatusView::NewVersion(tag)
        } else {
            UpdateStatusView::Latest
        },
        Err(_) => UpdateStatusView::Error,
    }
}

/// Decides what a release check found.
pub fn release_status(result: Result<String, String>, current_version: &str) -> (r: UpdateStatus)
    ensures
        r@ == status_for(
            match result {
                Ok(t) => Ok(t@),
                Err(e) => Err(e@),
            },
            current_version@,
        ),
{
    match result {
        Ok(tag) => {
            let a = chars_of(tag.as_str());
            let b = chars_of(current_version);
            let i = leading_vs(&a);
            let j = leading_vs(&b);
            let sa = &a.as_slice()[i..a.len()];
            let sb = &b.as_slice()[j..b.len()];
            assert(sa@ =~= a@.skip(i as int));
            assert(sb@ =~= b@.skip(j as int));
            if !chars_eq(sa, sb) {
                UpdateStatus::NewVersion(tag)
            } else {
                UpdateStatus::Latest
            }
        },
        Err(_) => UpdateStatus::Error,
    }
}

} // verus!
