//! Text substitution in build scripts.
use vstd::prelude::*;

verus! {

/// The placeholder in a build script that stands for the directory holding
/// the unpacked source code.
pub const SOURCE_PLACEHOLDER: &'static str = "{{SOURCE_CODE}}";

/// The build script that `declare` writes for a new package. `sync` runs it
/// with every `{{SOURCE_CODE}}` replaced by the directory that holds the
/// unpacked source of the latest release.
pub const BUILD_SCRIPT_TEMPLATE: &'static str = "#!/usr/bin/env bash\n# Build and install the package from its source in {{SOURCE_CODE}}.\nset -euo pipefail\ncd \"{{SOURCE_CODE}}\"\n";

/// `s` with every occurrence of `pat` replaced by `rep`, scanning from left
/// to right so that occurrences do not overlap (as `str::replace` does for a
/// non-empty pattern).
pub open spec fn spec_replace_all(s: Seq<char>, pat: Seq<char>, rep: Seq<char>) -> Seq<char>
    recommends
        pat.len() > 0,
    decreases s.len(),
{
    if pat.len() == 0 || s.len() < pat.len() {
        s
    } else if s.take(pat.len() as int) == pat {
        rep + spec_replace_all(s.skip(pat.len() as int), pat, rep)
    } else {
        seq![s[0]] + spec_replace_all(s.skip(1), pat, rep)
    }
}

/// Whether `pat` occurs in `s` starting at position `i`.
pub open spec fn spec_occurs_at(s: Seq<char>, pat: Seq<char>, i: int) -> bool {
    0 <= i && i + pat.len() <= s.len() && s.subrange(i, i + pat.len()) == pat
}

/// The characters of `s`, in order.
fn chars_of(s: &str) -> (res: Vec<char>)
    ensures
        res@ == s@,
{
    let mut res: Vec<char> = Vec::new();
    for c in it: s.chars()
        invariant
            res@ == it.seq().take(it.index() as int),
    {
        res.push(c);
    }
    res
}


/// Whether `pat` occurs in `s` at position `i`.
fn occurs_at(s: &Vec<char>, pat: &Vec<char>, i: usize) -> (res: bool)
    requires
        i <= s.len(),
    ensures
        res == spec_occurs_at(s@, pat@, i as int),
{
    if pat.len() > s.len() - i {
        return false;
    }
    let mut j: usize = 0;
    while j < pat.len()
        invariant
            i + pat.len() <= s.len(),
            j <= pat.len(),
            forall|k: int| 0 <= k < j ==> s@[i + k] == pat@[k],
        decreases pat.len() - j,
    {
        if s[i + j] != pat[j] {
            assert(s@.subrange(i as int, i + pat.len())[j as int] != pat@[j as int]);
            return false;
        }
        j = j + 1;
    }
    assert(s@.subrange(i as int, i + pat.len()) =~= pat@);
    true
}

/// Unfolds the replacement at position `i` of `s`, where the pattern occurs.
proof fn lemma_replace_step_match(s: Seq<char>, pat: Seq<char>, rep: Seq<char>, i: int)
    requires
        pat.len() > 0,
        spec_occurs_at(s, pat, i),
    ensures
        spec_replace_all(s.skip(i), pat, rep) == rep + spec_replace_all(
            s.skip(i + pat.len()),
            pat,
            rep,
        ),
{
    assert(s.skip(i).take(pat.len() as int) =~= s.subrange(i, i + pat.len()));
    assert(s.skip(i).skip(pat.len() as int) =~= s.skip(i + pat.len()));
}

/// Unfolds the replacement at position `i` of `s`, where the pattern does
/// not occur.
proof fn lemma_replace_step_skip(s: Seq<char>, pat: Seq<char>, rep: Seq<char>, i: int)
    requires
        pat.len() > 0,
        0 <= i < s.len(),
        !spec_occurs_at(s, pat, i),
    ensures
        spec_replace_all(s.skip(i), pat, rep) == seq![s[i]] + spec_replace_all(
            s.skip(i + 1),
            pat,
            rep,
        ),
{
    if s.skip(i).len() >= pat.len() {
        assert(s.skip(i).take(pat.len() as int) =~= s.subrange(i, i + pat.len()));
    } else {
        // Fewer characters are left than the pattern has: nothing changes.
        assert(spec_replace_all(s.skip(i + 1), pat, rep) == s.skip(i + 1));
    }
    assert(s.skip(i).skip(1) =~= s.skip(i + 1));
}

/// Replaces every occurrence of a non-empty `pat` in `s` by `rep`.
fn replace_all(s: &str, pat: &str, rep: &str) -> (res: String)
    requires
        pat@.len() > 0,
    ensures
        res@ == spec_replace_all(s@, pat@, rep@),
{
    let sv = chars_of(s);
    let pv = chars_of(pat);
    let n = sv.len();
    let m = pv.len();
    let mut res = String::new();
    let mut i: usize = 0;
    let mut last: usize = 0;
    assert(s@.skip(0) =~= s@);
    while i < n
        invariant
            sv@ == s@,
            pv@ == pat@,
            n == s@.len(),
            m == pat@.len(),
            m > 0,
            last <= i <= n,
            res@ + s@.subrange(last as int, i as int) + spec_replace_all(s@.skip(i as int), pat@, rep@)
                == spec_replace_all(s@, pat@, rep@),
        decreases n - i,
    {
        if occurs_at(&sv, &pv, i) {
            proof {
                lemma_replace_step_match(s@, pat@, rep@, i as int);
            }
            let part = s.substring_char(last, i);
            res.append(part);
            res.append(rep);
            assert(s@.subrange(i + m, i + m) =~= Seq::<char>::empty());
            i = i + m;
            last = i;
        } else {
            proof {
                lemma_replace_step_skip(s@, pat@, rep@, i as int);
                assert(s@.subrange(last as int, i as int) + seq![s@[i as int]] =~= s@.subrange(
                    last as int,
                    i + 1,
                ));
            }
            i = i + 1;
        }
    }
    assert(s@.skip(n as int).len() == 0);
    let part = s.substring_char(last, n);
    res.append(part);
    res
}

/// A build script with the source directory filled in: every occurrence of
/// `{{SOURCE_CODE}}` is replaced by `source_dir`.
pub fn fill_source_dir(script: &str, source_dir: &str) -> (res: String)
    ensures
        res@ == spec_replace_all(script@, SOURCE_PLACEHOLDER@, source_dir@),
        res@ == spec_replace_all(script@, "{{SOURCE_CODE}}"@, source_dir@),
{
    proof {
        reveal_strlit("{{SOURCE_CODE}}");
    }
    replace_all(script, SOURCE_PLACEHOLDER, source_dir)
}


/// A text in which the pattern does not occur is left unchanged.
pub proof fn lemma_replace_absent(s: Seq<char>, pat: Seq<char>, rep: Seq<char>)
    requires
        pat.len() > 0,
        forall|i: int| !spec_occurs_at(s, pat, i),
    ensures
        spec_replace_all(s, pat, rep) == s,
    decreases s.len(),
{
    if s.len() >= pat.len() {
        assert(s.take(pat.len() as int) =~= s.subrange(0, pat.len() as int));
        assert(!spec_occurs_at(s, pat, 0));
        let t = s.skip(1);
        assert forall|i: int| !spec_occurs_at(t, pat, i) by {
            if spec_occurs_at(t, pat, i) {
                assert(t.subrange(i, i + pat.len()) =~= s.subrange(i + 1, i + 1 + pat.len()));
                assert(spec_occurs_at(s, pat, i + 1));
            }
        }
        lemma_replace_absent(t, pat, rep);
        assert(seq![s[0]] + t =~= s);
    }
}

/// Replacing a pattern by itself leaves every text unchanged.
pub proof fn lemma_replace_by_itself(s: Seq<char>, pat: Seq<char>)
    requires
        pat.len() > 0,
    ensures
        spec_replace_all(s, pat, pat) == s,
    decreases s.len(),
{
    if s.len() >= pat.len() {
        if s.take(pat.len() as int) == pat {
            lemma_replace_by_itself(s.skip(pat.len() as int), pat);
            assert(s.take(pat.len() as int) + s.skip(pat.len() as int) =~= s);
        } else {
            lemma_replace_by_itself(s.skip(1), pat);
            assert(seq![s[0]] + s.skip(1) =~= s);
        }
    }
}


/// An occurrence of the pattern at the start of a text is replaced, and
/// replacing goes on after it.
pub proof fn lemma_replace_leading_occurrence(t: Seq<char>, pat: Seq<char>, rep: Seq<char>)
    requires
        pat.len() > 0,
    ensures
        spec_replace_all(pat + t, pat, rep) == rep + spec_replace_all(t, pat, rep),
{
    let s = pat + t;
    assert(s.take(pat.len() as int) =~= pat);
    assert(s.skip(pat.len() as int) =~= t);
}

/// Text in front of which no occurrence of the pattern starts is kept as it
/// is, and replacing goes on after it.
pub proof fn lemma_replace_keeps_prefix(s: Seq<char>, t: Seq<char>, pat: Seq<char>, rep: Seq<char>)
    requires
        pat.len() > 0,
        forall|i: int|
            0 <= i < s.len() && i + pat.len() <= s.len() + t.len() ==> #[trigger] (s + t).subrange(
                i,
                i + pat.len(),
            ) != pat,
    ensures
        spec_replace_all(s + t, pat, rep) == s + spec_replace_all(t, pat, rep),
    decreases s.len(),
{
    let u = s + t;
    if s.len() == 0 {
        assert(u =~= t);
        assert(s + spec_replace_all(t, pat, rep) =~= spec_replace_all(t, pat, rep));
    } else if u.len() < pat.len() {
        assert(spec_replace_all(t, pat, rep) == t);
    } else {
        assert(u.take(pat.len() as int) =~= u.subrange(0, pat.len() as int));
        assert(u.len() == s.len() + t.len());
        let zero: int = 0;
        assert((s + t).subrange(zero, zero + pat.len()) != pat);
        assert(spec_replace_all(u, pat, rep) == seq![u[0]] + spec_replace_all(u.skip(1), pat, rep));
        let s1 = s.skip(1);
        assert(u.skip(1) =~= s1 + t);
        assert forall|i: int|
            0 <= i < s1.len() && i + pat.len() <= s1.len() + t.len() implies #[trigger] (s1 + t).subrange(
            i,
            i + pat.len(),
        ) != pat by {
            assert((s1 + t).subrange(i, i + pat.len()) =~= u.subrange(i + 1, i + 1 + pat.len()));
        }
        lemma_replace_keeps_prefix(s1, t, pat, rep);
        assert(seq![u[0]] + (s1 + spec_replace_all(t, pat, rep)) =~= s + spec_replace_all(
            t,
            pat,
            rep,
        ));
    }
}

} // verus!
