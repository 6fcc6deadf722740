//! The operating-system segment: which system the prompt runs on, and
//! the parser that recognizes a distribution from the release file.

use vstd::prelude::*;

use crate::segment::{Context, Segment};
use crate::style::style_like;
use crate::strutil::{chars_eq, chars_of, string_from_chars};

verus! {

/// The recognized systems; `Unknown` is any other Linux.
#[derive(Debug, Clone, Copy, PartialEq, Eq, Structural)]
pub enum Distribution {
    Unknown,
    Alpine,
    Amazon,
    Arch,
    CentOS,
    Debian,
    Gentoo,
    NixOS,
    Raspbian,
    Ubuntu,
    Mac,
    Windows,
}

/// The distribution a release-file identifier names, if any.
pub open spec fn spec_distro_of_id(id: Seq<char>) -> Option<Distribution> {
    if id == "alpine"@ {
        Some(Distribution::Alpine)
    } else if id == "amzn"@ {
        Some(Distribution::Amazon)
    } else if id == "arch"@ {
        Some(Distribution::Arch)
    } else if id == "centos"@ {
        Some(Distribution::CentOS)
    } else if id == "debian"@ {
        Some(Distribution::Debian)
    } else if id == "gentoo"@ {
        Some(Distribution::Gentoo)
    } else if id == "nixos"@ {
        Some(Distribution::NixOS)
    } else if id == "raspbian"@ {
        Some(Distribution::Raspbian)
    } else if id == "ubuntu"@ {
        Some(Distribution::Ubuntu)
    } else {
        None
    }
}

/// An identifier with shell quotes taken off: a leading quote is
/// dropped, then a trailing quote; if only the leading one is there,
/// the identifier stays as written.
pub open spec fn spec_unquote(id: Seq<char>) -> Seq<char> {
    let a = if id.len() > 0 && id[0] == '"' {
        id.skip(1)
    } else {
        id
    };
    if a.len() > 0 && a[a.len() - 1] == '"' {
        a.take(a.len() - 1)
    } else {
        id
    }
}

/// Maps one release-file identifier, quotes and all, to a
/// distribution.
pub fn distro_of_id(id: &Vec<char>) -> (r: Option<Distribution>)
    ensures
        r == spec_distro_of_id(spec_unquote(id@)),
{
    let a: Vec<char> = if id.len() > 0 && id[0] == '"' {
        let mut v: Vec<char> = Vec::new();
        let mut i: usize = 1;
        while i < id.len()
            invariant
                1 <= i <= id@.len(),
                v@ == id@.subrange(1, i as int),
            decreases id@.len() - i,
        {
            v.push(id[i]);
            assert(v@ =~= id@.subrange(1, i + 1));
            i = i + 1;
        }
        assert(v@ =~= id@.skip(1));
        v
    } else {
        let mut v: Vec<char> = Vec::new();
        let mut i: usize = 0;
        while i < id.len()
            invariant
                i <= id@.len(),
                v@ == id@.subrange(0, i as int),
            decreases id@.len() - i,
        {
            v.push(id[i]);
            assert(v@ =~= id@.subrange(0, i + 1));
            i = i + 1;
        }
        assert(v@ =~= id@);
        v
    };
    let cleaned: Vec<char> = if a.len() > 0 && a[a.len() - 1] == '"' {
        let mut v: Vec<char> = Vec::new();
        let mut i: usize = 0;
        while i < a.len() - 1
            invariant
                a@.len() > 0,
                i <= a@.len() - 1,
                v@ == a@.subrange(0, i as int),
            decreases a@.len() - 1 - i,
        {
            v.push(a[i]);
            assert(v@ =~= a@.subrange(0, i + 1));
            i = i + 1;
        }
        assert(v@ =~= a@.take(a@.len() - 1));
        v
    } else {
        let mut v: Vec<char> = Vec::new();
        let mut i: usize = 0;
        while i < id.len()
            invariant
                i <= id@.len(),
                v@ == id@.subrange(0, i as int),
            decreases id@.len() - i,
        {
            v.push(id[i]);
            assert(v@ =~= id@.subrange(0, i + 1));
            i = i + 1;
        }
        assert(v@ =~= id@);
        v
    };
    proof {
        assert(cleaned@ == spec_unquote(id@));
    }
    let alpine = chars_of("alpine");
    let amzn = chars_of("amzn");
    let arch = chars_of("arch");
    let centos = chars_of("centos");
    let debian = chars_of("debian");
    let gentoo = chars_of("gentoo");
    let nixos = chars_of("nixos");
    let raspbian = chars_of("raspbian");
    let ubuntu = chars_of("ubuntu");
    if chars_eq(cleaned.as_slice(), alpine.as_slice()) {
        Some(Distribution::Alpine)
    } else if chars_eq(cleaned.as_slice(), amzn.as_slice()) {
        Some(Distribution::Amazon)
    } else if chars_eq(cleaned.as_slice(), arch.as_slice()) {
        Some(Distribution::Arch)
    } else if chars_eq(cleaned.as_slice(), centos.as_slice()) {
        Some(Distribution::CentOS)
    } else if chars_eq(cleaned.as_slice(), debian.as_slice()) {
        Some(Distribution::Debian)
    } else if chars_eq(cleaned.as_slice(), gentoo.as_slice()) {
        Some(Distribution::Gentoo)
    } else if chars_eq(cleaned.as_slice(), nixos.as_slice()) {
        Some(Distribution::NixOS)
    } else if chars_eq(cleaned.as_slice(), raspbian.as_slice()) {
        Some(Distribution::Raspbian)
    } else if chars_eq(cleaned.as_slice(), ubuntu.as_slice()) {
        Some(Distribution::Ubuntu)
    } else {
        None
    }
}

/// Reads a distribution out of the head of a release file: the first
/// recognized `ID=` value wins; after an unrecognized `ID=`, the scan
/// goes on looking for `ID_LIKE=` instead, and an unrecognized
/// `ID_LIKE=` ends it. System detection sits at the boundary of the
/// core: the caller reads the file and hands its head in as text.
pub fn detect_distribution(head: &str) -> (r: Option<Distribution>) {
    let chars = chars_of(head);
    let lines = split_lines(&chars);
    let id_key = chars_of("ID=");
    let like_key = chars_of("ID_LIKE=");
    let mut looking_for_like = false;
    let mut i: usize = 0;
    while i < lines.len()
        invariant
            i <= lines@.len(),
            id_key@ == "ID="@,
            like_key@ == "ID_LIKE="@,
        decreases lines@.len() - i,
    {
        let key: &Vec<char> = if looking_for_like {
            &like_key
        } else {
            &id_key
        };
        if let Some(value) = strip_key(&lines[i], key) {
            match distro_of_id(&value) {
                Some(d) => {
                    return Some(d);
                },
                None => {
                    if looking_for_like {
                        return None;
                    }
                    looking_for_like = true;
                },
            }
        }
        i = i + 1;
    }
    None
}

/// The lines of the text, split on line feeds.
fn split_lines(chars: &Vec<char>) -> (r: Vec<Vec<char>>) {
    let mut out: Vec<Vec<char>> = Vec::new();
    let mut current: Vec<char> = Vec::new();
    let mut i: usize = 0;
    while i < chars.len()
        decreases chars@.len() - i,
    {
        let c = chars[i];
        if c == '\n' {
            out.push(current);
            current = Vec::new();
        } else {
            current.push(c);
        }
        i = i + 1;
    }
    out.push(current);
    out
}

/// The rest of the line after the key, if the line starts with it.
fn strip_key(line: &Vec<char>, key: &Vec<char>) -> (r: Option<Vec<char>>) {
    if line.len() < key.len() {
        return None;
    }
    let mut i: usize = 0;
    while i < key.len()
        invariant
            i <= key@.len(),
            key@.len() <= line@.len(),
        decreases key@.len() - i,
    {
        if line[i] != key[i] {
            return None;
        }
        i = i + 1;
    }
    let mut rest: Vec<char> = Vec::new();
    let mut j: usize = key.len();
    while j < line.len()
        decreases line@.len() - j,
    {
        rest.push(line[j]);
        j = j + 1;
    }
    Some(rest)
}

/// The builder of the operating-system segment.
#[derive(Debug, Default)]
pub struct OsSegmentBuilder {}

impl OsSegmentBuilder {
    /// Picks the configured style and content of the detected system;
    /// there is always a segment.
    pub fn build(&self, ctx: &Context) -> (r: Option<Segment>)
        ensures
            r matches Some(seg) && {
                let c = ctx.config.os;
                let (content, style) = match ctx.env.distribution {
                    Distribution::Alpine => (c.alpine.content@, c.alpine.style),
                    Distribution::Amazon => (c.amazon.content@, c.amazon.style),
                    Distribution::Arch => (c.arch.content@, c.arch.style),
                    Distribution::CentOS => (c.centos.content@, c.centos.style),
                    Distribution::Debian => (c.debian.content@, c.debian.style),
                    Distribution::Gentoo => (c.gentoo.content@, c.gentoo.style),
                    Distribution::NixOS => (c.nix.content@, c.nix.style),
                    Distribution::Raspbian => (c.raspbian.content@, c.raspbian.style),
                    Distribution::Ubuntu => (c.ubuntu.content@, c.ubuntu.style),
                    Distribution::Unknown => (c.linux.content@, c.linux.style),
                    Distribution::Mac => (c.mac.content@, c.mac.style),
                    Distribution::Windows => (c.windows.content@, c.windows.style),
                };
                seg.content@ == content && style_like(seg.style, style)
            },
    {
        let c = &ctx.config.os;
        let (content, style) = match ctx.env.distribution {
            Distribution::Alpine => (&c.alpine.content, &c.alpine.style),
            Distribution::Amazon => (&c.amazon.content, &c.amazon.style),
            Distribution::Arch => (&c.arch.content, &c.arch.style),
            Distribution::CentOS => (&c.centos.content, &c.centos.style),
            Distribution::Debian => (&c.debian.content, &c.debian.style),
            Distribution::Gentoo => (&c.gentoo.content, &c.gentoo.style),
            Distribution::NixOS => (&c.nix.content, &c.nix.style),
            Distribution::Raspbian => (&c.raspbian.content, &c.raspbian.style),
            Distribution::Ubuntu => (&c.ubuntu.content, &c.ubuntu.style),
            Distribution::Unknown => (&c.linux.content, &c.linux.style),
            Distribution::Mac => (&c.mac.content, &c.mac.style),
            Distribution::Windows => (&c.windows.content, &c.windows.style),
        };
        let copy = chars_of(content.as_str());
        Some(Segment { content: string_from_chars(&copy), style: style.duplicate() })
    }
}

} // verus!
