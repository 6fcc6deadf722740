//! Template substitution: multi-pattern exact-string replacement over a
//! content template, in one left-to-right pass.

use vstd::prelude::*;

verus! {

/// Pattern `j` is non-empty and occurs at the front of `t`.
pub open spec fn match_at(t: Seq<char>, pats: Seq<Seq<char>>, j: int) -> bool {
    &&& 0 <= j < pats.len()
    &&& pats[j].len() > 0
    &&& pats[j].len() <= t.len()
    &&& t.subrange(0, pats[j].len() as int) == pats[j]
}

/// The first pattern, at `j` or later in the configured order, that
/// occurs at the front of `t`.
pub open spec fn first_match_from(t: Seq<char>, pats: Seq<Seq<char>>, j: int) -> Option<int>
    decreases pats.len() - j,
{
    if j < 0 || j >= pats.len() {
        None
    } else if match_at(t, pats, j) {
        Some(j)
    } else {
        first_match_from(t, pats, j + 1)
    }
}

/// `t` with every non-overlapping occurrence of each pattern replaced by
/// the matching replacement, scanning left to right in a single pass; at
/// each position the first matching pattern in the configured order
/// wins, and replacement text is never rescanned.
pub open spec fn spec_substitute(t: Seq<char>, pats: Seq<Seq<char>>, reps: Seq<Seq<char>>) -> Seq<
    char,
>
    decreases t.len(),
{
    if t.len() == 0 {
        Seq::<char>::empty()
    } else {
        let m = first_match_from(t, pats, 0);
        if m is Some && match_at(t, pats, m->0) {
            reps[m->0] + spec_substitute(t.skip(pats[m->0].len() as int), pats, reps)
        } else {
            seq![t[0]] + spec_substitute(t.skip(1), pats, reps)
        }
    }
}

/// A found first match really is a match.
proof fn lemma_first_match_is_match(t: Seq<char>, pats: Seq<Seq<char>>, j: int)
    requires
        first_match_from(t, pats, j) is Some,
    ensures
        match_at(t, pats, first_match_from(t, pats, j)->0),
        j <= first_match_from(t, pats, j)->0,
    decreases pats.len() - j,
{
    if !(j < 0 || j >= pats.len()) && !match_at(t, pats, j) {
        lemma_first_match_is_match(t, pats, j + 1);
    }
}

/// True iff `p` occurs in `t` at position `i`.
fn is_prefix_at(t: &Vec<char>, i: usize, p: &Vec<char>) -> (r: bool)
    requires
        i <= t@.len(),
    ensures
        r == (p@.len() <= t@.len() - i && t@.subrange(i as int, i + p@.len()) == p@),
{
    let tlen = t.len();
    let plen = p.len();
    if plen > tlen - i {
        return false;
    }
    let mut k: usize = 0;
    while k < plen
        invariant
            k <= plen,
            plen == p@.len(),
            tlen == t@.len(),
            i + plen <= tlen,
            forall|m: int| 0 <= m < k ==> t@[i + m] == p@[m],
        decreases p@.len() - k,
    {
        if t[i + k] != p[k] {
            assert(t@.subrange(i as int, i + p@.len())[k as int] != p@[k as int]);
            return false;
        }
        k = k + 1;
    }
    assert(t@.subrange(i as int, i + p@.len()) =~= p@);
    true
}

/// The views of a list of strings.
pub open spec fn views_of_strs(v: Seq<&str>) -> Seq<Seq<char>> {
    Seq::new(v.len(), |m: int| v[m]@)
}

/// The views of a list of character vectors.
pub open spec fn views_of_char_vecs(v: Seq<Vec<char>>) -> Seq<Seq<char>> {
    Seq::new(v.len(), |m: int| v[m]@)
}

/// The first pattern matching at position `i` of `t`, in pattern order.
fn first_match_exec(t: &Vec<char>, i: usize, pats: &Vec<Vec<char>>) -> (r: Option<usize>)
    requires
        i <= t@.len(),
    ensures
        match r {
            Some(j) => first_match_from(t@.skip(i as int), views_of_char_vecs(pats@), 0) == Some(
                j as int,
            ),
            None => first_match_from(t@.skip(i as int), views_of_char_vecs(pats@), 0) is None,
        },
{
    let ghost rest = t@.skip(i as int);
    let ghost pv = views_of_char_vecs(pats@);
    let mut j: usize = 0;
    while j < pats.len()
        invariant
            j <= pats@.len(),
            i <= t@.len(),
            rest == t@.skip(i as int),
            pv == views_of_char_vecs(pats@),
            pv.len() == pats@.len(),
            first_match_from(rest, pv, 0) == first_match_from(rest, pv, j as int),
        decreases pats@.len() - j,
    {
        proof {
            assert(pv[j as int] == pats@[j as int]@);
        }
        let hit = if pats[j].len() > 0 {
            is_prefix_at(t, i, &pats[j])
        } else {
            false
        };
        proof {
            if pats@[j as int]@.len() > 0 && pats@[j as int]@.len() <= t@.len() - i {
                assert(t@.subrange(i as int, i + pats@[j as int]@.len()) =~= rest.subrange(
                    0,
                    pats@[j as int]@.len() as int,
                ));
            }
        }
        if hit {
            assert(match_at(rest, pv, j as int));
            return Some(j);
        }
        assert(!match_at(rest, pv, j as int));
        j = j + 1;
    }
    None
}

/// Replaces every non-overlapping occurrence of each placeholder with
/// the replacement of the same rank, in one left-to-right pass; at each
/// position the first placeholder in list order wins, and replacement
/// text is not rescanned.
pub fn substitute(template: &str, patterns: &Vec<&str>, replacements: &Vec<&str>) -> (r: String)
    requires
        patterns@.len() == replacements@.len(),
    ensures
        r@ == spec_substitute(template@, views_of_strs(patterns@), views_of_strs(replacements@)),
{
    let tc = crate::strutil::chars_of(template);
    let mut pats: Vec<Vec<char>> = Vec::new();
    let mut k: usize = 0;
    while k < patterns.len()
        invariant
            k <= patterns@.len(),
            pats@.len() == k,
            forall|m: int| 0 <= m < k ==> pats@[m]@ == patterns@[m]@,
        decreases patterns@.len() - k,
    {
        let pc = crate::strutil::chars_of(patterns[k]);
        pats.push(pc);
        k = k + 1;
    }
    let ghost pv = views_of_strs(patterns@);
    let ghost rv = views_of_strs(replacements@);
    proof {
        assert(views_of_char_vecs(pats@) =~= pv);
    }

    let mut out = String::new();
    let mut i: usize = 0;
    proof {
        assert(tc@.skip(0) =~= template@);
        assert(Seq::<char>::empty() + spec_substitute(template@, pv, rv) =~= spec_substitute(
            template@,
            pv,
            rv,
        ));
    }
    while i < tc.len()
        invariant
            i <= tc@.len(),
            tc@ == template@,
            pv == views_of_strs(patterns@),
            rv == views_of_strs(replacements@),
            pv.len() == rv.len(),
            views_of_char_vecs(pats@) == pv,
            pats@.len() == pv.len(),
            spec_substitute(template@, pv, rv) == out@ + spec_substitute(
                tc@.skip(i as int),
                pv,
                rv,
            ),
        decreases tc@.len() - i,
    {
        let ghost rest = tc@.skip(i as int);
        assert(rest.len() > 0);
        match first_match_exec(&tc, i, &pats) {
            Some(j) => {
                proof {
                    lemma_first_match_is_match(rest, pv, 0);
                }
                assert(match_at(rest, pv, j as int));
                let plen = pats[j].len();
                proof {
                    assert(pv[j as int].len() == plen);
                    assert(rest.skip(plen as int) =~= tc@.skip(i + plen));
                    assert(rv[j as int] == replacements@[j as int]@);
                    assert(spec_substitute(rest, pv, rv) == rv[j as int] + spec_substitute(
                        tc@.skip(i + plen),
                        pv,
                        rv,
                    ));
                    assert(out@ + (rv[j as int] + spec_substitute(tc@.skip(i + plen), pv, rv))
                        =~= (out@ + rv[j as int]) + spec_substitute(tc@.skip(i + plen), pv, rv));
                }
                out.append(replacements[j]);
                i = i + plen;
            },
            None => {
                proof {
                    assert(spec_substitute(rest, pv, rv) == seq![rest[0]] + spec_substitute(
                        rest.skip(1),
                        pv,
                        rv,
                    ));
                    assert(rest[0] == tc@[i as int]);
                    assert(rest.skip(1) =~= tc@.skip(i + 1));
                    assert(out@ + (seq![tc@[i as int]] + spec_substitute(tc@.skip(i + 1), pv, rv))
                        =~= out@.push(tc@[i as int]) + spec_substitute(tc@.skip(i + 1), pv, rv));
                }
                let c = tc[i];
                crate::strutil::push_char(&mut out, c);
                i = i + 1;
            },
        }
    }
    proof {
        assert(tc@.skip(tc@.len() as int) =~= Seq::<char>::empty());
        assert(out@ + Seq::<char>::empty() =~= out@);
    }
    out
}

} // verus!
