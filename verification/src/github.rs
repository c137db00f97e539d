//! GitHub repository references: the `owner/name` format, and how the
//! repository's metadata is read from the API's answer.
use crate::text::{
    chars_of, find_from, has_ws, has_ws_exec, is_ws, lemma_find_from, matches_at, split, split_from,
    split_str, string_of, trim, trim_chars, trim_end, trim_start,
};
use vstd::prelude::*;

verus! {

/// The base of the repository endpoint of the GitHub API.
pub const GITHUB_REPOSITORY_API_BASE: &'static str = "https://api.github.com/repos";

/// The user agent sent with API requests.
pub const USER_AGENT: &'static str = "overlay-forge-milestone-4";

#[derive(Clone, Debug)]
pub struct GitHubRepositoryMetadata {
    pub repository_full_name: String,
    pub repository_url: String,
    pub default_branch: String,
    pub visibility: String,
}

/// ASCII letters and digits, `.`, `_` and `-`.
pub open spec fn safe_repository_char(c: char) -> bool {
    ('a' <= c <= 'z') || ('A' <= c <= 'Z') || ('0' <= c <= '9') || c == '.' || c == '_' || c == '-'
}

pub open spec fn safe_repository_part(part: Seq<char>) -> bool {
    forall|i: int| 0 <= i < part.len() ==> safe_repository_char(#[trigger] part[i])
}

/// Whether a trimmed reference has the `owner/name` shape: exactly one
/// slash, two non-blank parts of safe characters, and no whitespace.
pub open spec fn repository_name_ok(clean: Seq<char>) -> bool {
    let parts = split(clean, seq!['/']);
    &&& parts.len() == 2
    &&& trim(parts[0]).len() > 0
    &&& trim(parts[1]).len() > 0
    &&& safe_repository_part(parts[0])
    &&& safe_repository_part(parts[1])
    &&& !has_ws(clean)
}

pub fn is_safe_repository_part(value: &Vec<char>) -> (r: bool)
    ensures
        r == safe_repository_part(value@),
{
    let mut i: usize = 0;
    while i < value.len()
        invariant
            i <= value.len(),
            forall|j: int| 0 <= j < i ==> safe_repository_char(#[trigger] value@[j]),
        decreases value.len() - i,
    {
        let c = value[i];
        if !(('a' <= c && c <= 'z') || ('A' <= c && c <= 'Z') || ('0' <= c && c <= '9') || c == '.'
            || c == '_' || c == '-') {
            assert(!safe_repository_char(value@[i as int]));
            return false;
        }
        i = i + 1;
    }
    true
}

/// Checks a repository reference and returns it trimmed.
pub fn normalize_repository_full_name(repository_full_name: &str) -> (r: Result<String, String>)
    ensures
        match r {
            Ok(name) => repository_name_ok(trim(repository_full_name@)) && name@ == trim(
                repository_full_name@,
            ),
            Err(e) => !repository_name_ok(trim(repository_full_name@)) && e@
                == "GitHub repository must use the owner/repository-name format."@,
        },
        r is Ok <==> owner_slash_name(trim(repository_full_name@)),
        r is Ok <==> two_safe_parts(trim(repository_full_name@)),
{
    proof {
        repository_name_ok_is_owner_slash_name(trim(repository_full_name@));
        repository_name_ok_is_two_safe_parts(trim(repository_full_name@));
    }
    let v = chars_of(repository_full_name);
    let clean = trim_chars(&v);
    proof {
        reveal_strlit("/");
        assert("/"@ =~= seq!['/']);
    }
    let parts = split_str(&clean, "/");
    let ok = parts.len() == 2 && trim_chars(&parts[0]).len() > 0 && trim_chars(&parts[1]).len() > 0
        && is_safe_repository_part(&parts[0]) && is_safe_repository_part(&parts[1]) && !has_ws_exec(
        &clean,
    );
    proof {
        if parts.len() == 2 {
            assert(crate::text::views(parts@)[0] == parts@[0]@);
            assert(crate::text::views(parts@)[1] == parts@[1]@);
        }
    }
    if ok {
        Ok(string_of(&clean))
    } else {
        Err(String::from_str("GitHub repository must use the owner/repository-name format."))
    }
}

/// `t` is an owner and a name joined by one slash: both non-empty and
/// made only of ASCII letters, digits, `.`, `_` and `-`.
pub open spec fn owner_slash_name(t: Seq<char>) -> bool {
    exists|k: int|
        0 < k && k + 1 < t.len() && #[trigger] t[k] == '/' && safe_repository_part(t.take(k))
            && safe_repository_part(t.skip(k + 1))
}

proof fn lemma_safe_part_is_trimmed(p: Seq<char>)
    requires
        safe_repository_part(p),
    ensures
        trim(p) == p,
        !has_ws(p),
{
    if p.len() > 0 {
        assert(safe_repository_char(p[0]));
        assert(safe_repository_char(p.last()));
        assert(!is_ws(p[0]));
        assert(!is_ws(p.last()));
        assert(trim_start(p) == p);
        assert(trim_end(p) == p);
    }
    assert forall|i: int| 0 <= i < p.len() implies !is_ws(#[trigger] p[i]) by {
        assert(safe_repository_char(p[i]));
    }
}

proof fn lemma_slash_matches(t: Seq<char>, j: int)
    requires
        0 <= j < t.len(),
    ensures
        matches_at(t, seq!['/'], j) <==> t[j] == '/',
{
    if t[j] == '/' {
        assert(t.subrange(j, j + 1) =~= seq!['/']);
    }
    if matches_at(t, seq!['/'], j) {
        assert(t.subrange(j, j + 1)[0] == t[j]);
    }
}

/// A part made of safe characters holds no slash.
proof fn lemma_safe_part_has_no_slash(p: Seq<char>, i: int)
    requires
        safe_repository_part(p),
        0 <= i < p.len(),
    ensures
        p[i] != '/',
{
    assert(safe_repository_char(p[i]));
}

/// A trimmed reference passes the check exactly when it is an owner and a
/// name joined by one slash, both non-empty and of safe characters: the
/// check's split into two parts is that shape.
pub proof fn repository_name_ok_is_owner_slash_name(t: Seq<char>)
    ensures
        repository_name_ok(t) <==> owner_slash_name(t),
{
    let sep = seq!['/'];
    lemma_find_from(t, sep, 0);
    match find_from(t, sep, 0) {
        None => {
            assert(split(t, sep).len() == 1);
            if owner_slash_name(t) {
                let k = choose|k: int|
                    0 < k && k + 1 < t.len() && #[trigger] t[k] == '/' && safe_repository_part(
                        t.take(k),
                    ) && safe_repository_part(t.skip(k + 1));
                lemma_slash_matches(t, k);
            }
        },
        Some(k) => {
            lemma_slash_matches(t, k);
            lemma_find_from(t, sep, k + 1);
            assert(split(t, sep) == seq![t.subrange(0, k)] + split_from(t, sep, k + 1));
            match find_from(t, sep, k + 1) {
                Some(k2) => {
                    lemma_slash_matches(t, k2);
                    assert(split_from(t, sep, k + 1) == seq![t.subrange(k + 1, k2)] + split_from(
                        t,
                        sep,
                        k2 + 1,
                    ));
                    assert(split_from(t, sep, k2 + 1).len() >= 1);
                    assert(split(t, sep).len() >= 3);
                    if owner_slash_name(t) {
                        let k3 = choose|k3: int|
                            0 < k3 && k3 + 1 < t.len() && #[trigger] t[k3] == '/' && safe_repository_part(
                                t.take(k3),
                            ) && safe_repository_part(t.skip(k3 + 1));
                        lemma_slash_matches(t, k3);
                        if k3 == k {
                            lemma_safe_part_has_no_slash(t.skip(k + 1), k2 - k - 1);
                        } else {
                            assert(k < k3);
                            lemma_safe_part_has_no_slash(t.take(k3), k);
                        }
                    }
                },
                None => {
                    assert(split_from(t, sep, k + 1) == seq![t.skip(k + 1)]);
                    let parts = split(t, sep);
                    assert(parts =~= seq![t.subrange(0, k), t.skip(k + 1)]);
                    assert(t.take(k) =~= t.subrange(0, k));
                    if repository_name_ok(t) {
                        if t.take(k).len() == 0 {
                            assert(trim(t.take(k)) =~= Seq::<char>::empty());
                        }
                        if t.skip(k + 1).len() == 0 {
                            assert(trim(t.skip(k + 1)) =~= Seq::<char>::empty());
                        }
                        assert(owner_slash_name(t)) by {
                            assert(t[k] == '/');
                        }
                    }
                    if owner_slash_name(t) {
                        let k3 = choose|k3: int|
                            0 < k3 && k3 + 1 < t.len() && #[trigger] t[k3] == '/' && safe_repository_part(
                                t.take(k3),
                            ) && safe_repository_part(t.skip(k3 + 1));
                        lemma_slash_matches(t, k3);
                        if k3 != k {
                            assert(k < k3);
                            lemma_safe_part_has_no_slash(t.take(k3), k);
                        }
                        lemma_safe_part_is_trimmed(t.take(k));
                        lemma_safe_part_is_trimmed(t.skip(k + 1));
                        assert forall|i: int| 0 <= i < t.len() implies !is_ws(#[trigger] t[i]) by {
                            if i < k {
                                assert(t[i] == t.take(k)[i]);
                            } else if i > k {
                                assert(t[i] == t.skip(k + 1)[i - k - 1]);
                            }
                        }
                    }
                }
            }
        },
    }
}

/// The visibility the API reports, or the one implied by the private flag.
pub fn repository_visibility(visibility: Option<String>, private: bool) -> (r: String)
    ensures
        r@ == match visibility {
            Some(v) => v@,
            None => if private {
                "private"@
            } else {
                "public"@
            },
        },
{
    match visibility {
        Some(v) => v,
        None => if private {
            String::from_str("private")
        } else {
            String::from_str("public")
        },
    }
}

/// The message for a failed request: the API's own message when its error
/// body carries one, else the status line.
pub fn repository_error_message(message: Option<String>, status: &str) -> (r: String)
    ensures
        r@ == match message {
            Some(m) => "GitHub request failed: "@ + m@,
            None => "GitHub request failed with status "@ + status@,
        },
{
    let mut out = match message {
        Some(m) => {
            let mut out = chars_of("GitHub request failed: ");
            crate::text::extend_str(&mut out, m.as_str());
            out
        },
        None => {
            let mut out = chars_of("GitHub request failed with status ");
            crate::text::extend_str(&mut out, status);
            out
        },
    };
    string_of(&out)
}

/// A reference split at its slashes into exactly two parts, each non-empty
/// and made of safe characters.
pub open spec fn two_safe_parts(t: Seq<char>) -> bool {
    let parts = split(t, seq!['/']);
    &&& parts.len() == 2
    &&& parts[0].len() > 0 && safe_repository_part(parts[0])
    &&& parts[1].len() > 0 && safe_repository_part(parts[1])
}

/// A trimmed reference passes the check exactly when splitting it at its
/// slashes gives two parts, each non-empty and of ASCII letters, digits,
/// `.`, `_` and `-`.
pub proof fn repository_name_ok_is_two_safe_parts(t: Seq<char>)
    ensures
        repository_name_ok(t) <==> two_safe_parts(t),
{
    repository_name_ok_is_owner_slash_name(t);
    let sep = seq!['/'];
    let parts = split(t, sep);
    if repository_name_ok(t) {
        if parts[0].len() == 0 {
            assert(trim(parts[0]) =~= Seq::<char>::empty());
        }
        if parts[1].len() == 0 {
            assert(trim(parts[1]) =~= Seq::<char>::empty());
        }
    }
    if two_safe_parts(t) {
        lemma_find_from(t, sep, 0);
        match find_from(t, sep, 0) {
            None => {
                assert(split(t, sep).len() == 1);
            },
            Some(k) => {
                lemma_slash_matches(t, k);
                lemma_find_from(t, sep, k + 1);
                assert(split(t, sep) == seq![t.subrange(0, k)] + split_from(t, sep, k + 1));
                match find_from(t, sep, k + 1) {
                    Some(k2) => {
                        assert(split_from(t, sep, k + 1) == seq![t.subrange(k + 1, k2)] + split_from(
                            t,
                            sep,
                            k2 + 1,
                        ));
                        assert(split_from(t, sep, k2 + 1).len() >= 1);
                        assert(split(t, sep).len() >= 3);
                    },
                    None => {
                        assert(split_from(t, sep, k + 1) == seq![t.skip(k + 1)]);
                        assert(parts =~= seq![t.subrange(0, k), t.skip(k + 1)]);
                        assert(t.take(k) =~= t.subrange(0, k));
                        assert(owner_slash_name(t)) by {
                            assert(t[k] == '/');
                        }
                    },
                }
            },
        }
    }
}

} // verus!
