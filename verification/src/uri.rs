use vstd::prelude::*;
use vstd::string::{StrSliceExecFns, StringExecFns};
use crate::text::push_char;

verus! {

/// `pat` occurs in `s` starting at position `i`.
pub open spec fn has_sub_at(s: Seq<char>, pat: Seq<char>, i: int) -> bool {
    0 <= i && i + pat.len() <= s.len() && s.subrange(i, i + pat.len()) == pat
}

/// `pat` occurs somewhere in `s`.
pub open spec fn contains_sub(s: Seq<char>, pat: Seq<char>) -> bool {
    exists|i: int| has_sub_at(s, pat, i)
}

/// The text after the last ':' of `s`; all of `s` when it has no ':'.
pub open spec fn spec_last_segment(s: Seq<char>) -> Seq<char>
    decreases s.len(),
{
    if s.len() == 0 {
        s
    } else if s.last() == ':' {
        Seq::empty()
    } else {
        spec_last_segment(s.drop_last()).push(s.last())
    }
}

/// Whether `pat` occurs in `s`.
pub fn str_contains_sub(s: &str, pat: &str) -> (r: bool)
    ensures
        r == contains_sub(s@, pat@),
{
    let n = s.unicode_len();
    let m = pat.unicode_len();
    if m > n {
        proof {
            assert forall|i: int| !has_sub_at(s@, pat@, i) by {}
        }
        return false;
    }
    if m == 0 {
        proof {
            assert(s@.subrange(0, 0) =~= pat@);
            assert(has_sub_at(s@, pat@, 0));
        }
        return true;
    }
    let mut i: usize = 0;
    while i <= n - m
        invariant
            1 <= m <= n,
            n == s@.len(),
            m == pat@.len(),
            i <= n - m + 1,
            forall|k: int| 0 <= k < i ==> !has_sub_at(s@, pat@, k),
        decreases n - i,
    {
        let mut j: usize = 0;
        let mut matches_here = true;
        while j < m && matches_here
            invariant
                m <= n,
                n == s@.len(),
                m == pat@.len(),
                i <= n - m,
                j <= m,
                matches_here ==> forall|l: int| 0 <= l < j ==> s@[i + l] == pat@[l],
                !matches_here ==> !has_sub_at(s@, pat@, i as int),
            decreases m - j,
        {
            if s.get_char(i + j) != pat.get_char(j) {
                proof {
                    if has_sub_at(s@, pat@, i as int) {
                        assert(s@.subrange(i as int, i + pat@.len())[j as int] == s@[i + j]);
                        assert(false);
                    }
                }
                matches_here = false;
                j = m;
            } else {
                j = j + 1;
            }
        }
        if matches_here {
            proof {
                assert(s@.subrange(i as int, i + pat@.len()) =~= pat@);
                assert(has_sub_at(s@, pat@, i as int));
            }
            return true;
        }
        i = i + 1;
    }
    proof {
        assert forall|k: int| !has_sub_at(s@, pat@, k) by {
            if 0 <= k <= s@.len() - pat@.len() {
                assert(k < i);
            }
        }
    }
    false
}

/// Returns the text after the last ':' of `s`; all of `s` when it has none.
pub fn last_segment(s: &str) -> (r: String)
    ensures
        r@ == spec_last_segment(s@),
{
    let n = s.unicode_len();
    let mut r = String::new();
    let mut i: usize = 0;
    while i < n
        invariant
            n == s@.len(),
            i <= n,
            r@ == spec_last_segment(s@.take(i as int)),
        decreases n - i,
    {
        proof {
            assert(s@.take(i as int + 1).drop_last() =~= s@.take(i as int));
            assert(s@.take(i as int + 1).last() == s@[i as int]);
        }
        let c = s.get_char(i);
        if c == ':' {
            r = String::new();
        } else {
            push_char(&mut r, c);
        }
        i = i + 1;
    }
    proof {
        assert(s@.take(s@.len() as int) =~= s@);
    }
    r
}

/// The kind of playback context a context URI names.
#[derive(Clone, Copy, Debug, PartialEq, Eq, Structural)]
pub enum ContextKind {
    Playlist,
    Album,
    Artist,
}

/// Reads a playback-context URI: its kind, decided by which marker the text
/// carries, and the identifier after the last ':'. A URI with none of the
/// three markers is rejected with a message naming it.
pub fn parse_play_context(uri: &str) -> (r: Result<(ContextKind, String), String>)
    ensures
        if contains_sub(uri@, ":playlist:"@) {
            r matches Ok((k, id)) && k == ContextKind::Playlist && id@ == spec_last_segment(uri@)
        } else if contains_sub(uri@, ":album:"@) {
            r matches Ok((k, id)) && k == ContextKind::Album && id@ == spec_last_segment(uri@)
        } else if contains_sub(uri@, ":artist:"@) {
            r matches Ok((k, id)) && k == ContextKind::Artist && id@ == spec_last_segment(uri@)
        } else {
            r matches Err(m) && m@ == "Unsupported context URI: "@ + uri@
        },
{
    if str_contains_sub(uri, ":playlist:") {
        Ok((ContextKind::Playlist, last_segment(uri)))
    } else if str_contains_sub(uri, ":album:") {
        Ok((ContextKind::Album, last_segment(uri)))
    } else if str_contains_sub(uri, ":artist:") {
        Ok((ContextKind::Artist, last_segment(uri)))
    } else {
        Err(String::from_str("Unsupported context URI: ").concat(uri))
    }
}

} // verus!
