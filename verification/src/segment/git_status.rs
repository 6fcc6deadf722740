//! The repository-status segment: remotes, head, working-tree and
//! upstream state rendered into one fragment.

use vstd::prelude::*;

use crate::config::git_status::{GitStatusConfig, GitStatusIcons, RemoteConfig};
use crate::info::git::{
    spec_has_conflict, spec_has_deleted, spec_has_modified, spec_has_new, spec_has_renamed,
    spec_has_staged_changes, spec_has_unstaged_changes, Head, RemoteStatus, UpstreamStatus,
    WorkspaceStatus,
};
use crate::segment::{Context, Segment};
use crate::strutil::{chars_of, push_char, spec_decimal, string_from_chars, u64_to_string};
use crate::style::{style_like, Style};
use crate::template::{spec_substitute, substitute, views_of_strs};

verus! {

/// `needle` occurs somewhere in `haystack`.
pub open spec fn spec_contains(haystack: Seq<char>, needle: Seq<char>) -> bool {
    exists|i: int|
        0 <= i <= haystack.len() - needle.len() && #[trigger] haystack.subrange(i, i + needle.len())
            == needle
}

/// True iff the needle occurs in the haystack.
fn contains(haystack: &Vec<char>, needle: &Vec<char>) -> (r: bool)
    ensures
        r == spec_contains(haystack@, needle@),
{
    let hlen = haystack.len();
    let nlen = needle.len();
    if nlen > hlen {
        assert(!spec_contains(haystack@, needle@));
        return false;
    }
    let mut i: usize = 0;
    while i <= hlen - nlen
        invariant
            hlen == haystack@.len(),
            nlen == needle@.len(),
            needle@.len() <= haystack@.len(),
            i <= haystack@.len() - needle@.len() + 1,
            forall|j: int|
                0 <= j < i ==> #[trigger] haystack@.subrange(j, j + needle@.len()) != needle@,
        decreases haystack@.len() - needle@.len() + 1 - i,
    {
        let mut k: usize = 0;
        let mut matches = true;
        while k < nlen
            invariant
                hlen == haystack@.len(),
                nlen == needle@.len(),
                k <= needle@.len(),
                i + needle@.len() <= haystack@.len(),
                matches == (forall|m: int| 0 <= m < k ==> haystack@[i + m] == needle@[m]),
            decreases needle@.len() - k,
        {
            if haystack[i + k] != needle[k] {
                proof {
                    assert(!(haystack@[i + k as int] == needle@[k as int]));
                }
                matches = false;
                k = nlen;
            } else {
                k = k + 1;
            }
        }
        if matches {
            assert(haystack@.subrange(i as int, i + needle@.len()) =~= needle@);
            return true;
        }
        assert(haystack@.subrange(i as int, i + needle@.len()) != needle@) by {
            if haystack@.subrange(i as int, i + needle@.len()) == needle@ {
                assert(forall|m: int|
                    0 <= m < needle@.len() ==> haystack@[i + m] == #[trigger] haystack@.subrange(
                        i as int,
                        i + needle@.len(),
                    )[m]);
            }
        }
        i = i + 1;
    }
    false
}

/// The first configured remote pattern occurring in the URL.
pub open spec fn first_remote_icon_from(
    configs: Seq<RemoteConfig>,
    url: Seq<char>,
    j: int,
) -> Option<Seq<char>>
    decreases configs.len() - j,
{
    if j < 0 || j >= configs.len() {
        None
    } else if spec_contains(url, configs[j].pattern@) {
        Some(configs[j].icon@)
    } else {
        first_remote_icon_from(configs, url, j + 1)
    }
}

/// The icons of all remotes whose URL matches a configured pattern,
/// concatenated in remote order.
pub open spec fn spec_remote_icons(urls: Seq<Seq<char>>, configs: Seq<RemoteConfig>) -> Seq<char>
    decreases urls.len(),
{
    if urls.len() == 0 {
        Seq::<char>::empty()
    } else {
        (match first_remote_icon_from(configs, urls[0], 0) {
            Some(icon) => icon,
            None => Seq::<char>::empty(),
        }) + spec_remote_icons(urls.skip(1), configs)
    }
}

/// The remote fragment: nothing without remotes, else the matched
/// icons and one trailing space.
pub open spec fn spec_remote_status(urls: Seq<Seq<char>>, configs: Seq<RemoteConfig>) -> Seq<char> {
    if urls.len() == 0 {
        Seq::<char>::empty()
    } else {
        spec_remote_icons(urls, configs) + seq![' ']
    }
}

/// The models of the remote URLs.
pub open spec fn views_of_urls(remotes: Seq<RemoteStatus>) -> Seq<Seq<char>> {
    Seq::new(remotes.len(), |i: int| remotes[i].url@)
}

/// A hash cut to the configured length, in characters.
pub open spec fn spec_shorten_hash(hash: Seq<char>, max_length: nat) -> Seq<char> {
    if hash.len() > max_length {
        hash.take(max_length as int)
    } else {
        hash
    }
}

/// An icon-and-name pair: just the name when the icon is empty.
pub open spec fn spec_icon_text(icon: Seq<char>, text: Seq<char>) -> Seq<char> {
    if icon.len() == 0 {
        text
    } else {
        icon + seq![' '] + text
    }
}

/// The head fragment: the bare branch icon for a hidden conventional
/// default branch; otherwise icon and branch, tag, or shortened
/// commit hash.
pub open spec fn spec_head_status(
    head: crate::info::codec::HeadModel,
    icons: GitStatusIcons,
    display_master: bool,
    commit_hash_length: nat,
) -> Seq<char> {
    match head {
        crate::info::codec::HeadModel::Branch(b) => if !display_master && (b == "master"@ || b
            == "main"@) {
            icons.branch@
        } else {
            spec_icon_text(icons.branch@, b)
        },
        crate::info::codec::HeadModel::Tag(t) => spec_icon_text(icons.tag@, t),
        crate::info::codec::HeadModel::Commit(h) => spec_icon_text(
            icons.commit@,
            spec_shorten_hash(h, commit_hash_length),
        ),
    }
}

/// The working-tree fragment: one icon per true predicate, in the
/// fixed order new, deleted, modified, renamed, conflicted, with a
/// leading space when anything shows at all.
pub open spec fn spec_working_tree_status(w: WorkspaceStatus, icons: GitStatusIcons) -> Seq<char> {
    let body = (if spec_has_new(w) {
        icons.added@
    } else {
        Seq::<char>::empty()
    }) + (if spec_has_deleted(w) {
        icons.deleted@
    } else {
        Seq::<char>::empty()
    }) + (if spec_has_modified(w) {
        icons.modified@
    } else {
        Seq::<char>::empty()
    }) + (if spec_has_renamed(w) {
        icons.renamed@
    } else {
        Seq::<char>::empty()
    }) + (if spec_has_conflict(w) {
        icons.conflicted@
    } else {
        Seq::<char>::empty()
    });
    if body.len() == 0 {
        body
    } else {
        seq![' '] + body
    }
}

/// The upstream fragment: two independent counters, nothing when the
/// branch is level with its upstream.
pub open spec fn spec_upstream_status(u: UpstreamStatus, icons: GitStatusIcons) -> Seq<char> {
    if u.behind == 0 && u.ahead == 0 {
        Seq::<char>::empty()
    } else if u.ahead == 0 {
        seq![' '] + icons.behind@ + spec_decimal(u.behind as nat)
    } else if u.behind == 0 {
        seq![' '] + icons.ahead@ + spec_decimal(u.ahead as nat)
    } else {
        seq![' '] + icons.behind@ + spec_decimal(u.behind as nat) + icons.ahead@ + spec_decimal(
            u.ahead as nat,
        )
    }
}

/// The style the working tree selects, by strict precedence:
/// conflicted, then unstaged, then staged, then clean.
pub open spec fn spec_git_style(c: GitStatusConfig, w: WorkspaceStatus) -> Style {
    if spec_has_conflict(w) {
        c.conflicted.style
    } else if spec_has_unstaged_changes(w) {
        c.unstaged.style
    } else if spec_has_staged_changes(w) {
        c.staged.style
    } else {
        c.clean.style
    }
}

/// The content of the repository-status segment.
pub open spec fn spec_build_git_status(
    c: GitStatusConfig,
    head: crate::info::codec::HeadModel,
    w: WorkspaceStatus,
    upstream: Option<UpstreamStatus>,
    urls: Seq<Seq<char>>,
) -> Seq<char> {
    spec_substitute(
        c.content@,
        seq!["{{.remote}}"@, "{{.head}}"@, "{{.working_tree}}"@, "{{.upstream}}"@],
        seq![
            spec_remote_status(urls, c.remotes@),
            spec_head_status(head, c.icons, c.display_master, c.commit_hash_length as nat),
            spec_working_tree_status(w, c.icons),
            match upstream {
                Some(u) => spec_upstream_status(u, c.icons),
                None => Seq::<char>::empty(),
            },
        ],
    )
}

/// The builder of the repository-status segment.
#[derive(Debug, Default)]
pub struct GitStatusSegmentBuilder {}

impl GitStatusSegmentBuilder {
    pub fn new() -> (r: Self) {
        GitStatusSegmentBuilder {  }
    }

    /// Cuts a commit hash to the configured length, at character
    /// granularity.
    pub fn shorten_hash(hash: &str, max_length: usize) -> (r: String)
        ensures
            r@ == spec_shorten_hash(hash@, max_length as nat),
    {
        let chars = chars_of(hash);
        if chars.len() > max_length {
            let mut out = String::new();
            let mut i: usize = 0;
            while i < max_length
                invariant
                    max_length <= chars@.len(),
                    i <= max_length,
                    chars@ == hash@,
                    out@ == hash@.subrange(0, i as int),
                decreases max_length - i,
            {
                push_char(&mut out, chars[i]);
                assert(hash@.subrange(0, i + 1) =~= hash@.subrange(0, i as int).push(
                    hash@[i as int],
                ));
                i = i + 1;
            }
            assert(out@ =~= spec_shorten_hash(hash@, max_length as nat));
            out
        } else {
            string_from_chars(&chars)
        }
    }

    /// Concatenates the icon of every remote whose URL matches a
    /// configured pattern; nothing at all without remotes.
    pub fn build_remote_status(remotes: &Vec<RemoteStatus>, remote_configs: &Vec<RemoteConfig>) -> (r:
        Option<String>)
        ensures
            match r {
                Some(s) => remotes@.len() > 0 && s@ == spec_remote_status(
                    views_of_urls(remotes@),
                    remote_configs@,
                ),
                None => remotes@.len() == 0,
            },
    {
        if remotes.len() == 0 {
            return None;
        }
        let ghost urls = views_of_urls(remotes@);
        let mut result = String::new();
        let mut i: usize = 0;
        proof {
            assert(urls.skip(0) =~= urls);
            assert(Seq::<char>::empty() + spec_remote_icons(urls, remote_configs@)
                =~= spec_remote_icons(urls, remote_configs@));
        }
        while i < remotes.len()
            invariant
                i <= remotes@.len(),
                urls == views_of_urls(remotes@),
                urls.len() == remotes@.len(),
                spec_remote_icons(urls, remote_configs@) == result@ + spec_remote_icons(
                    urls.skip(i as int),
                    remote_configs@,
                ),
            decreases remotes@.len() - i,
        {
            let ghost rest = urls.skip(i as int);
            let url_chars = chars_of(remotes[i].url.as_str());
            let mut j: usize = 0;
            let mut icon: Option<usize> = None;
            while j < remote_configs.len() && icon.is_none()
                invariant
                    j <= remote_configs@.len(),
                    url_chars@ == remotes@[i as int].url@,
                    i < remotes@.len(),
                    match icon {
                        Some(idx) => 0 <= idx < remote_configs@.len() && first_remote_icon_from(
                            remote_configs@,
                            url_chars@,
                            0,
                        ) == Some(remote_configs@[idx as int].icon@),
                        None => first_remote_icon_from(remote_configs@, url_chars@, 0)
                            == first_remote_icon_from(remote_configs@, url_chars@, j as int),
                    },
                decreases remote_configs@.len() - j + (if icon is Some {
                    0int
                } else {
                    1int
                }),
            {
                let pat = chars_of(remote_configs[j].pattern.as_str());
                if contains(&url_chars, &pat) {
                    icon = Some(j);
                } else {
                    j = j + 1;
                }
            }
            proof {
                assert(rest[0] == urls[i as int]);
                assert(rest.skip(1) =~= urls.skip(i + 1));
                assert(urls[i as int] == remotes@[i as int].url@);
            }
            match icon {
                Some(idx) => {
                    result.append(remote_configs[idx].icon.as_str());
                },
                None => {
                    assert(first_remote_icon_from(remote_configs@, url_chars@, 0) is None);
                },
            }
            i = i + 1;
        }
        proof {
            assert(urls.skip(urls.len() as int) =~= Seq::<Seq<char>>::empty());
            assert(result@ + Seq::<char>::empty() =~= result@);
        }
        push_char(&mut result, ' ');
        assert(result@ =~= spec_remote_status(urls, remote_configs@));
        Some(result)
    }

    /// Renders the head: branch, tag or shortened commit, with the
    /// conventional default branch names hidden when configured.
    pub fn build_head_status(
        head: &Head,
        icons: &GitStatusIcons,
        display_master: bool,
        commit_hash_length: usize,
    ) -> (r: String)
        ensures
            r@ == spec_head_status(head@, *icons, display_master, commit_hash_length as nat),
    {
        match head {
            Head::Branch(branch) => {
                let is_conventional = {
                    let b = chars_of(branch.as_str());
                    let master = chars_of("master");
                    let main = chars_of("main");
                    crate::strutil::chars_eq(b.as_slice(), master.as_slice())
                        || crate::strutil::chars_eq(b.as_slice(), main.as_slice())
                };
                if !display_master && is_conventional {
                    let c = chars_of(icons.branch.as_str());
                    string_from_chars(&c)
                } else {
                    Self::icon_text(&icons.branch, branch.as_str())
                }
            },
            Head::Tag(tag) => Self::icon_text(&icons.tag, tag.as_str()),
            Head::Commit(hash) => {
                let short = Self::shorten_hash(hash.as_str(), commit_hash_length);
                Self::icon_text(&icons.commit, short.as_str())
            },
        }
    }

    /// An icon-and-text pair, the icon dropped when empty.
    fn icon_text(icon: &String, text: &str) -> (r: String)
        ensures
            r@ == spec_icon_text(icon@, text@),
    {
        if icon.unicode_len() == 0 {
            let c = chars_of(text);
            string_from_chars(&c)
        } else {
            let c = chars_of(icon.as_str());
            let mut out = string_from_chars(&c);
            push_char(&mut out, ' ');
            out.append(text);
            assert(out@ =~= spec_icon_text(icon@, text@));
            out
        }
    }

    /// Renders one icon per true working-tree predicate, in the fixed
    /// order, with a leading space when anything shows.
    pub fn build_working_tree_status(working_tree: &WorkspaceStatus, icons: &GitStatusIcons) -> (r:
        String)
        ensures
            r@ == spec_working_tree_status(*working_tree, *icons),
    {
        let mut body = String::new();
        if working_tree.has_new() {
            body.append(icons.added.as_str());
        }
        if working_tree.has_deleted() {
            body.append(icons.deleted.as_str());
        }
        if working_tree.has_modified() {
            body.append(icons.modified.as_str());
        }
        if working_tree.has_renamed() {
            body.append(icons.renamed.as_str());
        }
        if working_tree.has_conflict() {
            body.append(icons.conflicted.as_str());
        }
        if body.unicode_len() == 0 {
            assert(body@ =~= spec_working_tree_status(*working_tree, *icons));
            body
        } else {
            let mut out = String::new();
            push_char(&mut out, ' ');
            out.append(body.as_str());
            assert(out@ =~= spec_working_tree_status(*working_tree, *icons));
            out
        }
    }

    /// Renders the two divergence counters; nothing when level.
    pub fn build_upstream_status(upstream: &UpstreamStatus, icons: &GitStatusIcons) -> (r: Option<
        String,
    >)
        ensures
            match r {
                Some(s) => (upstream.behind > 0 || upstream.ahead > 0) && s@ == spec_upstream_status(
                    *upstream,
                    *icons,
                ),
                None => upstream.behind == 0 && upstream.ahead == 0,
            },
    {
        if upstream.behind == 0 && upstream.ahead == 0 {
            return None;
        }
        let mut out = String::new();
        push_char(&mut out, ' ');
        if upstream.ahead == 0 {
            out.append(icons.behind.as_str());
            let n = u64_to_string(upstream.behind as u64);
            out.append(n.as_str());
            assert(out@ =~= spec_upstream_status(*upstream, *icons));
        } else if upstream.behind == 0 {
            out.append(icons.ahead.as_str());
            let n = u64_to_string(upstream.ahead as u64);
            out.append(n.as_str());
            assert(out@ =~= spec_upstream_status(*upstream, *icons));
        } else {
            out.append(icons.behind.as_str());
            let b = u64_to_string(upstream.behind as u64);
            out.append(b.as_str());
            out.append(icons.ahead.as_str());
            let a = u64_to_string(upstream.ahead as u64);
            out.append(a.as_str());
            assert(out@ =~= spec_upstream_status(*upstream, *icons));
        }
        Some(out)
    }

    /// Renders the whole repository-status fragment; no segment
    /// outside a repository.
    pub fn build(&self, ctx: &Context) -> (r: Option<Segment>)
        ensures
            match r {
                Some(seg) => {
                    &&& ctx.git_info matches Some(info)
                    &&& seg.content@ == spec_build_git_status(
                        ctx.config.git_status,
                        info.head@,
                        info.workspace,
                        info.upstream,
                        views_of_urls(info.remotes@),
                    )
                    &&& style_like(
                        seg.style,
                        spec_git_style(ctx.config.git_status, info.workspace),
                    )
                },
                None => ctx.git_info is None,
            },
    {
        let config = &ctx.config.git_status;
        let info = match &ctx.git_info {
            Option::Some(info) => info,
            Option::None => {
                return None;
            },
        };
        let remote_opt = Self::build_remote_status(&info.remotes, &config.remotes);
        let remote: String = match remote_opt {
            Option::Some(s) => s,
            Option::None => String::new(),
        };
        proof {
            if info.remotes@.len() == 0 {
                assert(spec_remote_status(views_of_urls(info.remotes@), config.remotes@)
                    =~= Seq::<char>::empty());
            }
        }
        let head = Self::build_head_status(
            &info.head,
            &config.icons,
            config.display_master,
            config.commit_hash_length,
        );
        let working_tree = Self::build_working_tree_status(&info.workspace, &config.icons);
        let upstream: String = match &info.upstream {
            Option::Some(u) => {
                match Self::build_upstream_status(u, &config.icons) {
                    Option::Some(s) => s,
                    Option::None => {
                        proof {
                            assert(spec_upstream_status(*u, config.icons) =~= Seq::<char>::empty());
                        }
                        String::new()
                    },
                }
            },
            Option::None => String::new(),
        };
        let patterns: Vec<&str> = vec![
            "{{.remote}}",
            "{{.head}}",
            "{{.working_tree}}",
            "{{.upstream}}",
        ];
        let replacements: Vec<&str> = vec![
            remote.as_str(),
            head.as_str(),
            working_tree.as_str(),
            upstream.as_str(),
        ];
        proof {
            assert(views_of_strs(patterns@) =~= seq![
                "{{.remote}}"@,
                "{{.head}}"@,
                "{{.working_tree}}"@,
                "{{.upstream}}"@,
            ]);
            assert(views_of_strs(replacements@) =~= seq![
                spec_remote_status(views_of_urls(info.remotes@), config.remotes@),
                spec_head_status(
                    info.head@,
                    config.icons,
                    config.display_master,
                    config.commit_hash_length as nat,
                ),
                spec_working_tree_status(info.workspace, config.icons),
                match info.upstream {
                    Some(u) => spec_upstream_status(u, config.icons),
                    None => Seq::<char>::empty(),
                },
            ]);
        }
        let content = substitute(config.content.as_str(), &patterns, &replacements);
        let style = if info.workspace.has_conflict() {
            config.conflicted.style.duplicate()
        } else if info.workspace.has_unstaged_changes() {
            config.unstaged.style.duplicate()
        } else if info.workspace.has_staged_changes() {
            config.staged.style.duplicate()
        } else {
            config.clean.style.duplicate()
        };
        Some(Segment { content, style })
    }
}

} // verus!
