use crate::text::{chars_of, ends_with, has_prefix, has_suffix, starts_with};
use vstd::prelude::*;

verus! {

/// `s` with `suffix` removed from its end as many times as it ends with it
/// (the behaviour of `str::trim_end_matches` for a non-empty string pattern).
pub open spec fn trim_end_all(s: Seq<char>, suffix: Seq<char>) -> Seq<char>
    decreases s.len(),
{
    if suffix.len() > 0 && has_suffix(s, suffix) {
        trim_end_all(s.subrange(0, s.len() - suffix.len()), suffix)
    } else {
        s
    }
}

/// The index of the first `c` in `s`, if any.
pub open spec fn first_index_of(s: Seq<char>, c: char) -> Option<int> {
    if exists|i: int| 0 <= i < s.len() && s[i] == c {
        Some(choose|i: int| 0 <= i < s.len() && s[i] == c && forall|j: int| 0 <= j < i ==> s[j] != c)
    } else {
        None
    }
}

/// The web address at which a repository is opened in a browser. An SSH
/// address `git@HOST:PATH` becomes `https://HOST/PATH`, where `HOST` and
/// `PATH` are split at the first colon (both empty where there is none) and
/// every trailing `.git` is taken off `PATH`. Any other address is kept.
pub open spec fn browser_address(repo: Seq<char>) -> Seq<char> {
    let ssh = seq!['g', 'i', 't', '@'];
    if has_prefix(repo, ssh) {
        let rest = repo.subrange(4, repo.len() as int);
        let (host, path) = match first_index_of(rest, ':') {
            Some(k) => (rest.subrange(0, k), rest.subrange(k + 1, rest.len() as int)),
            None => (Seq::<char>::empty(), Seq::<char>::empty()),
        };
        seq!['h', 't', 't', 'p', 's', ':', '/', '/'] + host + seq!['/'] + trim_end_all(
            path,
            seq!['.', 'g', 'i', 't'],
        )
    } else {
        repo
    }
}

/// Trimming leaves text that does not end with the suffix as it is, and a
/// suffix added at the end is trimmed away again.
proof fn lemma_trim_end(s: Seq<char>, suffix: Seq<char>)
    requires
        suffix.len() > 0,
    ensures
        !has_suffix(s, suffix) ==> trim_end_all(s, suffix) == s,
        trim_end_all(s + suffix, suffix) == trim_end_all(s, suffix),
{
    let t = s + suffix;
    assert(t.subrange(t.len() - suffix.len(), t.len() as int) =~= suffix);
    assert(t.subrange(0, t.len() - suffix.len()) =~= s);
}

/// The first `:` of `host + ":" + path` is the one after `host`, where
/// `host` holds none.
proof fn lemma_first_colon(host: Seq<char>, path: Seq<char>)
    requires
        forall|i: int| 0 <= i < host.len() ==> host[i] != ':',
    ensures
        first_index_of(host + seq![':'] + path, ':') == Some(host.len() as int),
{
    let rest = host + seq![':'] + path;
    let k = host.len() as int;
    assert(rest[k] == ':');
    assert(exists|i: int| 0 <= i < rest.len() && rest[i] == ':' && forall|j: int| 0 <= j < i ==> rest[j] != ':') by {
        assert forall|j: int| 0 <= j < k implies rest[j] != ':' by {
            assert(rest[j] == host[j]);
        }
    }
    let c = choose|i: int| 0 <= i < rest.len() && rest[i] == ':' && forall|j: int| 0 <= j < i ==> rest[j] != ':';
    if c < k {
        assert(rest[c] == host[c]);
    }
}

/// The web address of `git@HOST:PATH`, for a host without a colon, is
/// `https://HOST/` followed by `PATH` trimmed of its trailing `.git`s.
#[verifier::rlimit(60)]
proof fn lemma_ssh_address(host: Seq<char>, path: Seq<char>)
    requires
        forall|i: int| 0 <= i < host.len() ==> host[i] != ':',
    ensures
        browser_address(seq!['g', 'i', 't', '@'] + host + seq![':'] + path) == seq![
            'h',
            't',
            't',
            'p',
            's',
            ':',
            '/',
            '/',
        ] + host + seq!['/'] + trim_end_all(path, seq!['.', 'g', 'i', 't']),
{
    let ssh = seq!['g', 'i', 't', '@'];
    let a = ssh + host + seq![':'] + path;
    assert(a.subrange(0, 4) =~= ssh);
    assert(has_prefix(a, ssh));
    let ra = a.subrange(4, a.len() as int);
    assert(ra =~= host + seq![':'] + path);
    lemma_first_colon(host, path);
    let k = host.len() as int;
    assert(first_index_of(ra, ':') == Some(k));
    assert(ra.subrange(0, k) =~= host);
    assert(ra.subrange(k + 1, ra.len() as int) =~= path);
    let git = seq!['.', 'g', 'i', 't'];
    let https = seq!['h', 't', 't', 'p', 's', ':', '/', '/'];
    assert(browser_address(a) == https + ra.subrange(0, k) + seq!['/'] + trim_end_all(
        ra.subrange(k + 1, ra.len() as int),
        git,
    ));
}

/// The web address of the SSH address `git@HOST:PATH`, for a host without a
/// colon: `https://HOST/` followed by the whole of `PATH` where it does not
/// end in `.git`, every other character (dots included) kept; a `.git`
/// added at the end of `PATH` changes nothing. Any address that does not
/// start with `git@` is opened as it is.
pub proof fn lemma_browser_address_of_ssh(host: Seq<char>, path: Seq<char>, other: Seq<char>)
    requires
        forall|i: int| 0 <= i < host.len() ==> host[i] != ':',
    ensures
        !has_suffix(path, seq!['.', 'g', 'i', 't']) ==> browser_address(
            seq!['g', 'i', 't', '@'] + host + seq![':'] + path,
        ) == seq!['h', 't', 't', 'p', 's', ':', '/', '/'] + host + seq!['/'] + path,
        browser_address(seq!['g', 'i', 't', '@'] + host + seq![':'] + (path + seq!['.', 'g', 'i', 't']))
            == browser_address(seq!['g', 'i', 't', '@'] + host + seq![':'] + path),
        !has_prefix(other, seq!['g', 'i', 't', '@']) ==> browser_address(other) == other,
{
    let git = seq!['.', 'g', 'i', 't'];
    lemma_ssh_address(host, path);
    lemma_ssh_address(host, path + git);
    lemma_trim_end(path, git);
}

/// `s` with every trailing `suffix` removed (see `trim_end_all`).
fn trim_end_matches(s: &str, suffix: &str) -> (r: String)
    requires
        suffix@.len() > 0,
    ensures
        r@ == trim_end_all(s@, suffix@),
{
    let n = s.unicode_len();
    let m = suffix.unicode_len();
    let mut end: usize = n;
    let mut cur = String::from_str(s);
    while m <= end && ends_with(cur.as_str(), suffix)
        invariant
            end <= n,
            n == s@.len(),
            m == suffix@.len(),
            m > 0,
            cur@ == s@.subrange(0, end as int),
            trim_end_all(cur@, suffix@) == trim_end_all(s@, suffix@),
        decreases end,
    {
        end = end - m;
        cur = String::from_str(s.substring_char(0, end));
        assert(cur@ =~= s@.subrange(0, end + m).subrange(0, end as int));
    }
    proof {
        if m > end {
            assert(!has_suffix(cur@, suffix@));
        }
    }
    cur
}

/// The web address to open for a repository (see `browser_address`).
pub fn browser_url(repo: &str) -> (r: String)
    ensures
        r@ == browser_address(repo@),
{
    proof {
        reveal_strlit("git@");
        reveal_strlit("https://");
        reveal_strlit("/");
        reveal_strlit(".git");
        assert("git@"@ =~= seq!['g', 'i', 't', '@']);
        assert("https://"@ =~= seq!['h', 't', 't', 'p', 's', ':', '/', '/']);
        assert("/"@ =~= seq!['/']);
        assert(".git"@ =~= seq!['.', 'g', 'i', 't']);
    }
    if !starts_with(repo, "git@") {
        return String::from_str(repo);
    }
    let n = repo.unicode_len();
    let rest = repo.substring_char(4, n);
    let cs = chars_of(rest);
    let mut k: usize = 0;
    while k < cs.len() && cs[k] != ':'
        invariant
            k <= cs@.len(),
            cs@ == rest@,
            forall|j: int| 0 <= j < k ==> cs@[j] != ':',
        decreases cs.len() - k,
    {
        k = k + 1;
    }
    let mut r = String::from_str("https://");
    if k < cs.len() {
        proof {
            assert(exists|i: int| 0 <= i < rest@.len() && rest@[i] == ':' && forall|j: int| 0 <= j < i ==> rest@[j] != ':') by {
                assert(rest@[k as int] == ':');
            }
            let c = first_index_of(rest@, ':');
            assert(c == Some(k as int)) by {
                let i = c->0;
                assert(rest@[i] == ':');
                if i < k {
                    assert(cs@[i] != ':');
                }
                if k < i {
                    assert(rest@[k as int] == ':');
                }
            }
        }
        let host = rest.substring_char(0, k);
        let path = rest.substring_char(k + 1, rest.unicode_len());
        r.append(host);
        r.append("/");
        let trimmed = trim_end_matches(path, ".git");
        r.append(trimmed.as_str());
    } else {
        proof {
            assert(first_index_of(rest@, ':') is None);
            assert(trim_end_all(Seq::<char>::empty(), seq!['.', 'g', 'i', 't']) =~= Seq::<char>::empty());
        }
        r.append("/");
    }
    r
}

} // verus!
