//! The path-shrinking algorithm: an absolute path, an alias table and a
//! shrink policy go in; a compact display string comes out.

use vstd::prelude::*;

use crate::config::path::PathAlias;
use crate::strutil::{chars_of, push_char, string_from_chars};
use crate::template::views_of_char_vecs;

verus! {

/// The position of the first separator in `s`, or the length if there
/// is none.
pub open spec fn first_sep(s: Seq<char>) -> int
    decreases s.len(),
{
    if s.len() == 0 {
        0
    } else if s[0] == '/' {
        0
    } else {
        1 + first_sep(s.skip(1))
    }
}

proof fn lemma_first_sep_bounds(s: Seq<char>)
    ensures
        0 <= first_sep(s) <= s.len(),
        forall|j: int| 0 <= j < first_sep(s) ==> s[j] != '/',
        first_sep(s) < s.len() ==> s[first_sep(s)] == '/',
    decreases s.len(),
{
    if s.len() > 0 && s[0] != '/' {
        lemma_first_sep_bounds(s.skip(1));
        assert forall|j: int| 0 <= j < first_sep(s) implies s[j] != '/' by {
            if j > 0 {
                assert(s.skip(1)[j - 1] != '/');
            }
        }
        if first_sep(s) < s.len() {
            assert(s[first_sep(s)] == s.skip(1)[first_sep(s) - 1]);
        }
    }
}

/// The non-empty components of a path, in order; separators and empty
/// components are dropped.
pub open spec fn split_comps(s: Seq<char>) -> Seq<Seq<char>>
    decreases s.len(),
{
    if s.len() == 0 {
        Seq::<Seq<char>>::empty()
    } else if s[0] == '/' {
        split_comps(s.skip(1))
    } else {
        let k = first_sep(s);
        if 1 <= k <= s.len() {
            seq![s.subrange(0, k)] + split_comps(s.skip(k))
        } else {
            Seq::<Seq<char>>::empty()
        }
    }
}

/// True iff the path is written from the root.
pub open spec fn spec_is_abs(s: Seq<char>) -> bool {
    s.len() > 0 && s[0] == '/'
}

/// A tilde alone stands for the home directory, a leading `~/` is
/// replaced by it, and everything else, or a path with no home known,
/// stays as it is. A home with its own trailing separator contributes
/// it only once.
pub open spec fn spec_expand_tilde(p: Seq<char>, home: Option<Seq<char>>) -> Seq<char> {
    match home {
        Option::None => p,
        Option::Some(h) => if p == seq!['~'] {
            h
        } else if p.len() >= 2 && p[0] == '~' && p[1] == '/' {
            if h.len() > 0 && h[h.len() - 1] == '/' {
                h + p.skip(2)
            } else {
                h + seq!['/'] + p.skip(2)
            }
        } else {
            p
        },
    }
}

/// A component cut to the shrink budget: nothing for a zero budget,
/// else the first characters up to the budget, counted in characters
/// and with a leading dot kept outside the budget.
pub open spec fn spec_shrink_file_name(name: Seq<char>, n: nat) -> Seq<char> {
    if n == 0 {
        Seq::<char>::empty()
    } else {
        let budget = if name.len() > 0 && name[0] == '.' {
            n + 1
        } else {
            n
        };
        if budget >= name.len() {
            name
        } else {
            name.subrange(0, budget as int)
        }
    }
}

/// One alias, expanded: its path's components, whether that path is
/// absolute, and the text shown for it.
pub ghost struct AliasModel {
    pub comps: Seq<Seq<char>>,
    pub abs: bool,
    pub text: Seq<char>,
}

/// The first alias, in configured order, whose expanded path equals the
/// first `k` components of the walked path.
pub open spec fn alias_match_from(
    aliases: Seq<AliasModel>,
    prefix: Seq<Seq<char>>,
    abs: bool,
    j: int,
) -> Option<int>
    decreases aliases.len() - j,
{
    if j < 0 || j >= aliases.len() {
        None
    } else if aliases[j].comps == prefix && aliases[j].abs == abs {
        Some(j)
    } else {
        alias_match_from(aliases, prefix, abs, j + 1)
    }
}

/// What one walked component renders to: the component itself at the
/// leaf, at the project root or with shrinking off, else the component
/// cut to the budget.
pub open spec fn spec_comp_text(
    comps: Seq<Seq<char>>,
    abs: bool,
    proj: Option<(Seq<Seq<char>>, bool)>,
    enabled: bool,
    n: nat,
    k: int,
) -> Seq<char> {
    let name = comps[k - 1];
    let is_leaf = k == comps.len();
    let is_proj = match proj {
        Option::Some(pr) => pr.0 == comps.take(k) && pr.1 == abs,
        Option::None => false,
    };
    if !enabled || is_leaf || is_proj {
        name
    } else {
        spec_shrink_file_name(name, n)
    }
}

/// The rendered text of the first `k` components: an alias text where
/// one matches, the bare root below everything, and otherwise the
/// parent's text, a separator and this component's text.
pub open spec fn spec_shrunk_prefix(
    comps: Seq<Seq<char>>,
    abs: bool,
    aliases: Seq<AliasModel>,
    proj: Option<(Seq<Seq<char>>, bool)>,
    enabled: bool,
    n: nat,
    k: int,
) -> Seq<char>
    decreases k,
{
    if alias_match_from(aliases, comps.take(k), abs, 0) is Some {
        aliases[alias_match_from(aliases, comps.take(k), abs, 0)->0].text
    } else if k <= 0 {
        if comps.len() == 0 && abs {
            seq!['/']
        } else {
            Seq::<char>::empty()
        }
    } else {
        spec_shrunk_prefix(comps, abs, aliases, proj, enabled, n, k - 1) + seq!['/']
            + spec_comp_text(comps, abs, proj, enabled, n, k)
    }
}

/// The models of the configured aliases after tilde expansion.
pub open spec fn spec_alias_models(aliases: Seq<PathAlias>, home: Option<Seq<char>>) -> Seq<
    AliasModel,
> {
    Seq::new(
        aliases.len(),
        |j: int|
            {
                let expanded = spec_expand_tilde(aliases[j].path@, home);
                AliasModel {
                    comps: split_comps(expanded),
                    abs: spec_is_abs(expanded),
                    text: aliases[j].alias@,
                }
            },
    )
}

/// The model of an optional borrowed string.
pub open spec fn view_opt_str(o: Option<&str>) -> Option<Seq<char>> {
    match o {
        Option::Some(s) => Option::Some(s@),
        Option::None => Option::None,
    }
}

/// The full contract of the path shrinker, over the path's components.
pub open spec fn spec_shrink_path(
    p: Seq<char>,
    home: Option<Seq<char>>,
    proj: Option<Seq<char>>,
    aliases: Seq<PathAlias>,
    enabled: bool,
    n: nat,
) -> Seq<char> {
    let comps = split_comps(p);
    let abs = spec_is_abs(p);
    let proj_model = match proj {
        Option::Some(q) => Option::Some((split_comps(q), spec_is_abs(q))),
        Option::None => Option::<(Seq<Seq<char>>, bool)>::None,
    };
    spec_shrunk_prefix(
        comps,
        abs,
        spec_alias_models(aliases, home),
        proj_model,
        enabled,
        n,
        comps.len() as int,
    )
}

/// Expands a leading tilde against the home directory.
pub fn expand_tilde(path: &str, home: Option<&str>) -> (r: String)
    ensures
        r@ == spec_expand_tilde(path@, view_opt_str(home)),
{
    match home {
        Option::None => {
            let chars = chars_of(path);
            string_from_chars(&chars)
        },
        Option::Some(h) => {
            let p = chars_of(path);
            let hc = chars_of(h);
            if p.len() == 1 && p[0] == '~' {
                assert(p@ =~= seq!['~']);
                string_from_chars(&hc)
            } else if p.len() >= 2 && p[0] == '~' && p[1] == '/' {
                assert(p@ != seq!['~']) by {
                    assert(p@.len() != 1);
                }
                let mut out = string_from_chars(&hc);
                if !(hc.len() > 0 && hc[hc.len() - 1] == '/') {
                    push_char(&mut out, '/');
                }
                let mut i: usize = 2;
                while i < p.len()
                    invariant
                        2 <= i <= p@.len(),
                        p@.len() >= 2,
                        out@ == (if hc@.len() > 0 && hc@[hc@.len() - 1] == '/' {
                            hc@
                        } else {
                            hc@ + seq!['/']
                        }) + p@.subrange(2, i as int),
                    decreases p@.len() - i,
                {
                    push_char(&mut out, p[i]);
                    assert(p@.subrange(2, i + 1) =~= p@.subrange(2, i as int).push(p@[i as int]));
                    i = i + 1;
                }
                proof {
                    assert(p@.subrange(2, p@.len() as int) =~= p@.skip(2));
                    if hc@.len() > 0 && hc@[hc@.len() - 1] == '/' {
                    } else {
                        assert((hc@ + seq!['/']) + p@.skip(2) =~= hc@ + seq!['/'] + p@.skip(2));
                    }
                }
                out
            } else {
                assert(p@ != seq!['~']) by {
                    if p@.len() == 1 {
                        assert(p@[0] != '~');
                    }
                }
                string_from_chars(&p)
            }
        },
    }
}

/// Cuts one path component to the shrink budget, at character
/// granularity; a hidden component's leading dot stays outside the
/// budget.
pub fn shrink_file_name(file_name: &str, shrink_len: usize) -> (r: String)
    ensures
        r@ == spec_shrink_file_name(file_name@, shrink_len as nat),
{
    let name = chars_of(file_name);
    if shrink_len == 0 {
        return String::new();
    }
    let keep_all = if name.len() > 0 && name[0] == '.' {
        // budget is shrink_len + 1; compare without overflowing
        name.len() <= shrink_len || name.len() - 1 <= shrink_len
    } else {
        name.len() <= shrink_len
    };
    if keep_all {
        string_from_chars(&name)
    } else {
        let budget = if name.len() > 0 && name[0] == '.' {
            shrink_len + 1
        } else {
            shrink_len
        };
        let mut out = String::new();
        let mut i: usize = 0;
        while i < budget
            invariant
                i <= budget,
                budget <= name@.len(),
                name@ == file_name@,
                out@ == name@.subrange(0, i as int),
            decreases budget - i,
        {
            push_char(&mut out, name[i]);
            assert(name@.subrange(0, i + 1) =~= name@.subrange(0, i as int).push(name@[i as int]));
            i = i + 1;
        }
        out
    }
}

/// Splits a path into its non-empty components.
fn split_components(chars: &Vec<char>, i: usize) -> (r: Vec<Vec<char>>)
    requires
        i <= chars@.len(),
    ensures
        views_of_char_vecs(r@) == split_comps(chars@.skip(i as int)),
    decreases chars@.len() - i,
{
    let ghost s = chars@.skip(i as int);
    if i >= chars.len() {
        let r = Vec::<Vec<char>>::new();
        assert(views_of_char_vecs(r@) =~= split_comps(s));
        r
    } else if chars[i] == '/' {
        proof {
            assert(s[0] == '/');
            assert(s.skip(1) =~= chars@.skip(i + 1));
        }
        split_components(chars, i + 1)
    } else {
        proof {
            lemma_first_sep_bounds(s);
        }
        // find the end of this component
        let mut j: usize = i;
        while j < chars.len() && chars[j] != '/'
            invariant
                i <= j <= chars@.len(),
                s == chars@.skip(i as int),
                forall|m: int| i <= m < j ==> chars@[m] != '/',
            decreases chars@.len() - j,
        {
            j = j + 1;
        }
        proof {
            let k = first_sep(s);
            assert forall|m: int| 0 <= m < j - i implies s[m] != '/' by {
                assert(s[m] == chars@[i + m]);
            }
            if j < chars@.len() {
                assert(s[j - i] == chars@[j as int]);
            }
            assert(k == j - i) by {
                if k < j - i {
                    assert(s[k] == '/');
                } else if k > j - i {
                    assert(j - i < s.len());
                    assert(s[j - i] != '/');
                }
            }
        }
        let mut comp: Vec<char> = Vec::new();
        let mut m: usize = i;
        while m < j
            invariant
                i <= m <= j,
                j <= chars@.len(),
                comp@ == chars@.subrange(i as int, m as int),
            decreases j - m,
        {
            comp.push(chars[m]);
            assert(chars@.subrange(i as int, m + 1) =~= chars@.subrange(i as int, m as int).push(
                chars@[m as int],
            ));
            m = m + 1;
        }
        proof {
            assert(comp@ =~= s.subrange(0, j - i));
        }
        let rest = split_components(chars, j);
        let ghost rest_view = views_of_char_vecs(rest@);
        let mut r: Vec<Vec<char>> = Vec::new();
        r.push(comp);
        let mut t: usize = 0;
        while t < rest.len()
            invariant
                t <= rest@.len(),
                r@.len() == 1 + t,
                r@[0]@ == chars@.subrange(i as int, i + first_sep(chars@.skip(i as int))),
                forall|q: int| 0 <= q < t ==> r@[1 + q]@ == #[trigger] rest@[q]@,
            decreases rest@.len() - t,
        {
            let item = clone_chars(&rest[t]);
            r.push(item);
            t = t + 1;
        }
        proof {
            assert(s.skip(j - i) =~= chars@.skip(j as int));
            assert(views_of_char_vecs(r@) =~= seq![s.subrange(0, first_sep(s))] + rest_view);
        }
        r
    }
}

/// An exact copy of a character list.
fn clone_chars(v: &Vec<char>) -> (r: Vec<char>)
    ensures
        r@ == v@,
{
    let mut out: Vec<char> = Vec::new();
    let mut i: usize = 0;
    while i < v.len()
        invariant
            i <= v@.len(),
            out@ == v@.subrange(0, i as int),
        decreases v@.len() - i,
    {
        out.push(v[i]);
        assert(out@ =~= v@.subrange(0, i + 1));
        i = i + 1;
    }
    assert(out@ =~= v@);
    out
}

struct ExpandedAlias {
    comps: Vec<Vec<char>>,
    abs: bool,
    text: String,
}

/// True iff the other component list equals the first `k` components.
fn comp_prefix_eq(comps: &Vec<Vec<char>>, k: usize, other: &Vec<Vec<char>>) -> (r: bool)
    requires
        k <= comps@.len(),
    ensures
        r == (views_of_char_vecs(other@) == views_of_char_vecs(comps@).take(k as int)),
{
    if other.len() != k {
        assert(views_of_char_vecs(other@).len() != views_of_char_vecs(comps@).take(k as int).len());
        return false;
    }
    let mut i: usize = 0;
    while i < k
        invariant
            i <= k,
            k <= comps@.len(),
            other@.len() == k,
            forall|j: int| 0 <= j < i ==> other@[j]@ == #[trigger] comps@[j]@,
        decreases k - i,
    {
        if !crate::strutil::chars_eq(other[i].as_slice(), comps[i].as_slice()) {
            assert(views_of_char_vecs(other@)[i as int] != views_of_char_vecs(comps@).take(
                k as int,
            )[i as int]);
            return false;
        }
        i = i + 1;
    }
    assert(views_of_char_vecs(other@) =~= views_of_char_vecs(comps@).take(k as int));
    true
}

/// A found alias index lies inside the table.
proof fn lemma_alias_match_in_range(
    aliases: Seq<AliasModel>,
    prefix: Seq<Seq<char>>,
    abs: bool,
    j: int,
)
    requires
        alias_match_from(aliases, prefix, abs, j) is Some,
    ensures
        ({
            let idx = alias_match_from(aliases, prefix, abs, j)->0;
            &&& j <= idx < aliases.len()
            &&& aliases[idx].comps == prefix
            &&& aliases[idx].abs == abs
        }),
    decreases aliases.len() - j,
{
    if !(j < 0 || j >= aliases.len()) && !(aliases[j].comps == prefix && aliases[j].abs == abs) {
        lemma_alias_match_in_range(aliases, prefix, abs, j + 1);
    }
}

/// The model of one expanded alias.
pub open spec fn view_alias(comps: Seq<Vec<char>>, abs: bool, text: Seq<char>) -> AliasModel {
    AliasModel { comps: views_of_char_vecs(comps), abs, text }
}

/// Renders the first `k` components, mirroring `spec_shrunk_prefix`.
fn shrink_prefix(
    comps: &Vec<Vec<char>>,
    is_abs: bool,
    aliases: &Vec<ExpandedAlias>,
    proj: &Option<(Vec<Vec<char>>, bool)>,
    enabled: bool,
    n: usize,
    k: usize,
    Ghost(am): Ghost<Seq<AliasModel>>,
    Ghost(pm): Ghost<Option<(Seq<Seq<char>>, bool)>>,
) -> (r: String)
    requires
        k <= comps@.len(),
        am.len() == aliases@.len(),
        forall|j: int|
            0 <= j < am.len() ==> #[trigger] am[j] == view_alias(
                aliases@[j].comps@,
                aliases@[j].abs,
                aliases@[j].text@,
            ),
        pm == match proj {
            Option::Some(pr) => Option::Some((views_of_char_vecs(pr.0@), pr.1)),
            Option::None => Option::<(Seq<Seq<char>>, bool)>::None,
        },
    ensures
        r@ == spec_shrunk_prefix(
            views_of_char_vecs(comps@),
            is_abs,
            am,
            pm,
            enabled,
            n as nat,
            k as int,
        ),
    decreases k,
{
    let ghost cv = views_of_char_vecs(comps@);
    let ghost prefix = cv.take(k as int);
    // look for the first matching alias
    let mut j: usize = 0;
    let mut hit: Option<usize> = None;
    while j < aliases.len() && hit.is_none()
        invariant
            j <= aliases@.len(),
            k <= comps@.len(),
            am.len() == aliases@.len(),
            cv == views_of_char_vecs(comps@),
            prefix == cv.take(k as int),
            forall|q: int|
                0 <= q < am.len() ==> #[trigger] am[q] == view_alias(
                    aliases@[q].comps@,
                    aliases@[q].abs,
                    aliases@[q].text@,
                ),
            match hit {
                Some(idx) => alias_match_from(am, prefix, is_abs, 0) == Some(idx as int),
                None => alias_match_from(am, prefix, is_abs, 0) == alias_match_from(
                    am,
                    prefix,
                    is_abs,
                    j as int,
                ),
            },
        decreases aliases@.len() - j + (if hit is Some {
            0int
        } else {
            1int
        }),
    {
        let ok = if aliases[j].abs == is_abs {
            comp_prefix_eq(comps, k, &aliases[j].comps)
        } else {
            false
        };
        if ok {
            assert(am[j as int].comps == prefix && am[j as int].abs == is_abs);
            hit = Some(j);
        } else {
            assert(!(am[j as int].comps == prefix && am[j as int].abs == is_abs));
            j = j + 1;
        }
    }
    match hit {
        Some(idx) => {
            assert(alias_match_from(am, prefix, is_abs, 0) == Some(idx as int));
            proof {
                lemma_alias_match_in_range(am, prefix, is_abs, 0);
            }
            let text = &aliases[idx].text;
            let copy = chars_of(text.as_str());
            string_from_chars(&copy)
        },
        None => {
            assert(alias_match_from(am, prefix, is_abs, 0) is None);
            if k == 0 {
                if comps.len() == 0 && is_abs {
                    let mut out = String::new();
                    push_char(&mut out, '/');
                    assert(out@ =~= seq!['/']);
                    out
                } else {
                    String::new()
                }
            } else {
                let parent = shrink_prefix(
                    comps,
                    is_abs,
                    aliases,
                    proj,
                    enabled,
                    n,
                    k - 1,
                    Ghost(am),
                    Ghost(pm),
                );
                let is_leaf = k == comps.len();
                let is_proj = match proj {
                    Option::Some(pr) => {
                        if pr.1 == is_abs {
                            comp_prefix_eq(comps, k, &pr.0)
                        } else {
                            false
                        }
                    },
                    Option::None => false,
                };
                let name = &comps[k - 1];
                let text = if !enabled || is_leaf || is_proj {
                    string_from_chars(&clone_chars(name))
                } else {
                    let name_str = string_from_chars(&clone_chars(name));
                    shrink_file_name(name_str.as_str(), n)
                };
                let mut out = parent;
                push_char(&mut out, '/');
                out.append(text.as_str());
                assert(out@ =~= spec_shrunk_prefix(cv, is_abs, am, pm, enabled, n as nat, k as int));
                out
            }
        },
    }
}

/// Shrinks a path for display: walks it leaf to root, replaces the
/// first matching alias prefix, keeps the leaf and the project root
/// full, cuts every other component to the budget, and joins from the
/// root with separators.
pub fn shrink_path(
    path: &str,
    home: Option<&str>,
    project_root: Option<&str>,
    aliases: &Vec<PathAlias>,
    shrink_enabled: bool,
    shrink_len: usize,
) -> (r: String)
    ensures
        r@ == spec_shrink_path(
            path@,
            view_opt_str(home),
            view_opt_str(project_root),
            aliases@,
            shrink_enabled,
            shrink_len as nat,
        ),
{
    let pc = chars_of(path);
    let comps = split_components(&pc, 0);
    proof {
        assert(pc@.skip(0) =~= path@);
    }
    let is_abs = pc.len() > 0 && pc[0] == '/';

    let mut expanded: Vec<ExpandedAlias> = Vec::new();
    let ghost am = spec_alias_models(aliases@, view_opt_str(home));
    let mut j: usize = 0;
    while j < aliases.len()
        invariant
            j <= aliases@.len(),
            am == spec_alias_models(aliases@, view_opt_str(home)),
            am.len() == aliases@.len(),
            expanded@.len() == j,
            forall|q: int|
                0 <= q < j ==> #[trigger] am[q] == view_alias(
                    expanded@[q].comps@,
                    expanded@[q].abs,
                    expanded@[q].text@,
                ),
        decreases aliases@.len() - j,
    {
        let exp = expand_tilde(aliases[j].path.as_str(), home);
        let ec = chars_of(exp.as_str());
        let acomps = split_components(&ec, 0);
        proof {
            assert(ec@.skip(0) =~= exp@);
        }
        let aabs = ec.len() > 0 && ec[0] == '/';
        let text_chars = chars_of(aliases[j].alias.as_str());
        let text = string_from_chars(&text_chars);
        expanded.push(ExpandedAlias { comps: acomps, abs: aabs, text });
        j = j + 1;
    }

    let proj: Option<(Vec<Vec<char>>, bool)> = match project_root {
        Option::Some(q) => {
            let qc = chars_of(q);
            let qcomps = split_components(&qc, 0);
            proof {
                assert(qc@.skip(0) =~= q@);
            }
            let qabs = qc.len() > 0 && qc[0] == '/';
            Some((qcomps, qabs))
        },
        Option::None => None,
    };
    let ghost pm = match view_opt_str(project_root) {
        Option::Some(q) => Option::Some((split_comps(q), spec_is_abs(q))),
        Option::None => Option::<(Seq<Seq<char>>, bool)>::None,
    };
    let k = comps.len();
    shrink_prefix(
        &comps,
        is_abs,
        &expanded,
        &proj,
        shrink_enabled,
        shrink_len,
        k,
        Ghost(am),
        Ghost(pm),
    )
}

} // verus!
