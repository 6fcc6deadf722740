//! The presenter: renders styled segments, separators and closures into
//! one terminal line, with width accounting for the right-side
//! alignment.

use vstd::prelude::*;

use crate::config::Config;
use crate::segment::Segment;
use crate::shell::{spec_escape, spec_wrap_control, Shell};
use crate::strutil::{push_char, spec_decimal, u64_to_string};
use crate::style::{spec_style_prefix, spec_style_suffix, Color, Decoration, NamedColor, Style};

use unicode_width::UnicodeWidthStr;

verus! {

/// The on-screen column count of a string, as the terminal will render
/// it.
pub uninterp spec fn display_width_of(s: Seq<char>) -> nat;

/// Relies on unicode-width's `UnicodeWidthStr::width`: the column count
/// is a pure function of the characters alone.
#[verifier::external_body]
fn str_width(s: &str) -> (r: usize)
    ensures
        r as nat == display_width_of(s@),
{
    UnicodeWidthStr::width(s)
}

/// The model of one styled segment: its text and the parts of its
/// style.
pub ghost struct SegModel {
    pub content: Seq<char>,
    pub fg: Color,
    pub bg: Color,
    pub decos: Seq<Decoration>,
}

impl View for Segment {
    type V = SegModel;

    open spec fn view(&self) -> SegModel {
        SegModel {
            content: self.content@,
            fg: self.style.foreground,
            bg: self.style.background,
            decos: self.style.decoration@,
        }
    }
}

/// Which side of the prompt is being laid out.
#[derive(Debug, Clone, Copy, PartialEq, Eq, Structural)]
pub enum Direction {
    Left,
    Right,
}

/// A fragment as the shell sees it: wrapped style prefix, escaped
/// content, wrapped style suffix.
pub open spec fn spec_styled_text(
    shell: Shell,
    fg: Color,
    bg: Color,
    decos: Seq<Decoration>,
    content: Seq<char>,
) -> Seq<char> {
    spec_wrap_control(shell, spec_style_prefix(fg, bg, decos)) + spec_escape(shell, content)
        + spec_wrap_control(shell, spec_style_suffix(fg, bg, decos))
}

/// The text of one rendered segment.
pub open spec fn spec_segment_text(shell: Shell, seg: SegModel) -> Seq<char> {
    spec_styled_text(shell, seg.fg, seg.bg, seg.decos, seg.content)
}

/// The closure at the outer edge of a side: the solid glyph in the
/// neighbouring background's color, or the wire glyph in white when
/// that background is the default.
pub open spec fn spec_closure_text(
    shell: Shell,
    solid: Seq<char>,
    wire: Seq<char>,
    color: Color,
) -> Seq<char> {
    if color == Color::Named(NamedColor::Default) {
        spec_styled_text(
            shell,
            Color::Named(NamedColor::White),
            Color::Named(NamedColor::Default),
            Seq::<Decoration>::empty(),
            wire,
        )
    } else {
        spec_styled_text(
            shell,
            color,
            Color::Named(NamedColor::Default),
            Seq::<Decoration>::empty(),
            solid,
        )
    }
}

/// The glyph a closure shows.
pub open spec fn spec_closure_glyph(solid: Seq<char>, wire: Seq<char>, color: Color) -> Seq<char> {
    if color == Color::Named(NamedColor::Default) {
        wire
    } else {
        solid
    }
}

/// The separator between two adjacent segments: the thin wire glyph on
/// the shared background when the backgrounds are equal, else the solid
/// glyph bridging the two backgrounds, the earlier one as foreground on
/// the left side and the later one as foreground on the right side.
pub open spec fn spec_separator_text(
    shell: Shell,
    solid_left: Seq<char>,
    wire_left: Seq<char>,
    solid_right: Seq<char>,
    wire_right: Seq<char>,
    prev_bg: Color,
    next_bg: Color,
    dir: Direction,
) -> Seq<char> {
    if next_bg == prev_bg {
        let wire = if dir == Direction::Left {
            wire_left
        } else {
            wire_right
        };
        spec_styled_text(
            shell,
            Color::Named(NamedColor::White),
            next_bg,
            Seq::<Decoration>::empty(),
            wire,
        )
    } else if dir == Direction::Left {
        let fg = if prev_bg == Color::Named(NamedColor::Default) {
            Color::Named(NamedColor::White)
        } else {
            prev_bg
        };
        spec_styled_text(shell, fg, next_bg, Seq::<Decoration>::empty(), solid_left)
    } else {
        let fg = if next_bg == Color::Named(NamedColor::Default) {
            Color::Named(NamedColor::White)
        } else {
            next_bg
        };
        spec_styled_text(shell, fg, prev_bg, Seq::<Decoration>::empty(), solid_right)
    }
}

/// The glyph a separator shows.
pub open spec fn spec_separator_glyph(
    solid_left: Seq<char>,
    wire_left: Seq<char>,
    solid_right: Seq<char>,
    wire_right: Seq<char>,
    prev_bg: Color,
    next_bg: Color,
    dir: Direction,
) -> Seq<char> {
    if next_bg == prev_bg {
        if dir == Direction::Left {
            wire_left
        } else {
            wire_right
        }
    } else if dir == Direction::Left {
        solid_left
    } else {
        solid_right
    }
}

/// The rendered text and the raw (unsaturated) width of a left side
/// from position `i`, the background of the segment before it given.
pub open spec fn spec_left_from(
    shell: Shell,
    solid_left: Seq<char>,
    wire_left: Seq<char>,
    solid_right: Seq<char>,
    wire_right: Seq<char>,
    segs: Seq<SegModel>,
    i: int,
    prev_bg: Color,
) -> (Seq<char>, int)
    decreases segs.len() - i,
{
    if i < 0 || i >= segs.len() {
        (Seq::<char>::empty(), 0)
    } else {
        let sep: (Seq<char>, int) = if i > 0 {
            (
                spec_separator_text(
                    shell,
                    solid_left,
                    wire_left,
                    solid_right,
                    wire_right,
                    prev_bg,
                    segs[i].bg,
                    Direction::Left,
                ),
                display_width_of(
                    spec_separator_glyph(
                        solid_left,
                        wire_left,
                        solid_right,
                        wire_right,
                        prev_bg,
                        segs[i].bg,
                        Direction::Left,
                    ),
                ) as int,
            )
        } else {
            (Seq::<char>::empty(), 0)
        };
        let seg = (
            spec_segment_text(shell, segs[i]),
            display_width_of(segs[i].content) as int,
        );
        let clo: (Seq<char>, int) = if i == segs.len() - 1 {
            (
                spec_closure_text(shell, solid_left, wire_left, segs[i].bg),
                display_width_of(spec_closure_glyph(solid_left, wire_left, segs[i].bg)) as int,
            )
        } else {
            (Seq::<char>::empty(), 0)
        };
        let rest = spec_left_from(
            shell,
            solid_left,
            wire_left,
            solid_right,
            wire_right,
            segs,
            i + 1,
            segs[i].bg,
        );
        (sep.0 + seg.0 + clo.0 + rest.0, sep.1 + seg.1 + clo.1 + rest.1)
    }
}

/// The rendered text and the raw width of a right side from position
/// `i`; the closure stands before the first segment.
pub open spec fn spec_right_from(
    shell: Shell,
    solid_left: Seq<char>,
    wire_left: Seq<char>,
    solid_right: Seq<char>,
    wire_right: Seq<char>,
    segs: Seq<SegModel>,
    i: int,
    prev_bg: Color,
) -> (Seq<char>, int)
    decreases segs.len() - i,
{
    if i < 0 || i >= segs.len() {
        (Seq::<char>::empty(), 0)
    } else {
        let lead: (Seq<char>, int) = if i == 0 {
            (
                spec_closure_text(shell, solid_right, wire_right, segs[0].bg),
                display_width_of(spec_closure_glyph(solid_right, wire_right, segs[0].bg)) as int,
            )
        } else {
            (
                spec_separator_text(
                    shell,
                    solid_left,
                    wire_left,
                    solid_right,
                    wire_right,
                    prev_bg,
                    segs[i].bg,
                    Direction::Right,
                ),
                display_width_of(
                    spec_separator_glyph(
                        solid_left,
                        wire_left,
                        solid_right,
                        wire_right,
                        prev_bg,
                        segs[i].bg,
                        Direction::Right,
                    ),
                ) as int,
            )
        };
        let seg = (
            spec_segment_text(shell, segs[i]),
            display_width_of(segs[i].content) as int,
        );
        let rest = spec_right_from(
            shell,
            solid_left,
            wire_left,
            solid_right,
            wire_right,
            segs,
            i + 1,
            segs[i].bg,
        );
        (lead.0 + seg.0 + rest.0, lead.1 + seg.1 + rest.1)
    }
}

/// A raw width clamped to what a machine word holds.
pub open spec fn clamp_width(w: int) -> int {
    if w > usize::MAX {
        usize::MAX as int
    } else {
        w
    }
}

/// The models of a segment list.
pub open spec fn views_of_segments(segs: Seq<Segment>) -> Seq<SegModel> {
    Seq::new(segs.len(), |i: int| segs[i]@)
}

/// The cursor move to an absolute one-indexed column, wrapped for the
/// shell.
pub open spec fn spec_move_to(shell: Shell, column_index: int) -> Seq<char> {
    spec_wrap_control(
        shell,
        seq!['\u{1b}', '['] + spec_decimal((column_index + 1) as nat) + seq!['G'],
    )
}

/// The whole line: the left side always; the right side moved to its
/// column only when it exists and fits strictly inside the terminal
/// width, and silently dropped otherwise.
pub open spec fn spec_display_line(
    shell: Shell,
    solid_left: Seq<char>,
    wire_left: Seq<char>,
    solid_right: Seq<char>,
    wire_right: Seq<char>,
    width: int,
    left: Seq<SegModel>,
    right: Seq<SegModel>,
) -> Seq<char> {
    let l = spec_left_from(
        shell,
        solid_left,
        wire_left,
        solid_right,
        wire_right,
        left,
        0,
        Color::Named(NamedColor::Default),
    );
    let r = spec_right_from(
        shell,
        solid_left,
        wire_left,
        solid_right,
        wire_right,
        right,
        0,
        Color::Named(NamedColor::Default),
    );
    let lw = clamp_width(l.1);
    let rw = clamp_width(r.1);
    if rw > 0 && lw + rw + 1 < width {
        l.0 + spec_move_to(shell, width - rw - 1) + r.0
    } else {
        l.0
    }
}

/// The presenter: one per invocation, driving one prompt's layout.
#[derive(Debug)]
pub struct Presenter<'a> {
    pub config: &'a Config,
    pub shell: Shell,
    pub width: usize,
}

impl<'a> Presenter<'a> {
    /// A presenter for the given configuration, shell and terminal
    /// width.
    pub fn new(config: &'a Config, shell: &Shell, width: usize) -> (r: Presenter<'a>)
        ensures
            r.config == config,
            r.shell == *shell,
            r.width == width,
    {
        Presenter { config, shell: *shell, width }
    }

    /// Renders one segment: wrapped style prefix, escaped content,
    /// wrapped style suffix; the returned width is that of the
    /// unescaped content alone.
    fn segment(&self, out: &mut String, segment: &Segment) -> (w: usize)
        ensures
            final(out)@ == old(out)@ + spec_segment_text(self.shell, segment@),
            w as nat == display_width_of(segment.content@),
    {
        let ansi = segment.style.to_ansi();
        let prefix = self.shell.control(ansi.prefix.as_str());
        let suffix = self.shell.control(ansi.suffix.as_str());
        let escaped = self.shell.escape(segment.content.as_str());
        out.append(prefix.text.as_str());
        out.append(escaped.as_str());
        out.append(suffix.text.as_str());
        assert(out@ =~= old(out)@ + spec_segment_text(self.shell, segment@));
        str_width(segment.content.as_str())
    }

    /// Renders a closure: the solid glyph colored by the neighbouring
    /// background, or the wire glyph in white when that background is
    /// the default.
    fn closure(&self, out: &mut String, color: Color, dir: Direction) -> (w: usize)
        ensures
            ({
                let (solid, wire) = if dir == Direction::Left {
                    (
                        self.config.segment_separators.solid_left@,
                        self.config.segment_separators.wire_left@,
                    )
                } else {
                    (
                        self.config.segment_separators.solid_right@,
                        self.config.segment_separators.wire_right@,
                    )
                };
                &&& final(out)@ == old(out)@ + spec_closure_text(self.shell, solid, wire, color)
                &&& w as nat == display_width_of(spec_closure_glyph(solid, wire, color))
            }),
    {
        let seps = &self.config.segment_separators;
        let (style, content) = if !color.is_default() {
            let style = Style {
                foreground: color,
                background: Color::Named(NamedColor::Default),
                decoration: Vec::new(),
            };
            let content = if let Direction::Left = dir {
                &seps.solid_left
            } else {
                &seps.solid_right
            };
            (style, content)
        } else {
            let style = Style {
                foreground: Color::Named(NamedColor::White),
                background: Color::Named(NamedColor::Default),
                decoration: Vec::new(),
            };
            let content = if let Direction::Left = dir {
                &seps.wire_left
            } else {
                &seps.wire_right
            };
            (style, content)
        };
        let ansi = style.to_ansi();
        let prefix = self.shell.control(ansi.prefix.as_str());
        let suffix = self.shell.control(ansi.suffix.as_str());
        let escaped = self.shell.escape(content.as_str());
        out.append(prefix.text.as_str());
        out.append(escaped.as_str());
        out.append(suffix.text.as_str());
        proof {
            let (solid, wire) = if dir == Direction::Left {
                (
                    self.config.segment_separators.solid_left@,
                    self.config.segment_separators.wire_left@,
                )
            } else {
                (
                    self.config.segment_separators.solid_right@,
                    self.config.segment_separators.wire_right@,
                )
            };
            assert(out@ =~= old(out)@ + spec_closure_text(self.shell, solid, wire, color));
        }
        str_width(content.as_str())
    }

    /// Renders the separator between two adjacent segments: the wire
    /// glyph on the shared background for equal backgrounds, else the
    /// solid glyph with the two backgrounds bridged.
    fn separator(&self, out: &mut String, prev_bg: Color, next_bg: Color, dir: Direction) -> (w:
        usize)
        ensures
            final(out)@ == old(out)@ + spec_separator_text(
                self.shell,
                self.config.segment_separators.solid_left@,
                self.config.segment_separators.wire_left@,
                self.config.segment_separators.solid_right@,
                self.config.segment_separators.wire_right@,
                prev_bg,
                next_bg,
                dir,
            ),
            w as nat == display_width_of(
                spec_separator_glyph(
                    self.config.segment_separators.solid_left@,
                    self.config.segment_separators.wire_left@,
                    self.config.segment_separators.solid_right@,
                    self.config.segment_separators.wire_right@,
                    prev_bg,
                    next_bg,
                    dir,
                ),
            ),
    {
        let seps = &self.config.segment_separators;
        let (style, content) = if next_bg == prev_bg {
            let style = Style {
                foreground: Color::Named(NamedColor::White),
                background: next_bg,
                decoration: Vec::new(),
            };
            let content = if let Direction::Left = dir {
                &seps.wire_left
            } else {
                &seps.wire_right
            };
            (style, content)
        } else if let Direction::Left = dir {
            let fg = if prev_bg.is_default() {
                Color::Named(NamedColor::White)
            } else {
                prev_bg
            };
            let style = Style { foreground: fg, background: next_bg, decoration: Vec::new() };
            (style, &seps.solid_left)
        } else {
            let fg = if next_bg.is_default() {
                Color::Named(NamedColor::White)
            } else {
                next_bg
            };
            let style = Style { foreground: fg, background: prev_bg, decoration: Vec::new() };
            (style, &seps.solid_right)
        };
        let ansi = style.to_ansi();
        let prefix = self.shell.control(ansi.prefix.as_str());
        let suffix = self.shell.control(ansi.suffix.as_str());
        let escaped = self.shell.escape(content.as_str());
        out.append(prefix.text.as_str());
        out.append(escaped.as_str());
        out.append(suffix.text.as_str());
        assert(out@ =~= old(out)@ + spec_separator_text(
            self.shell,
            self.config.segment_separators.solid_left@,
            self.config.segment_separators.wire_left@,
            self.config.segment_separators.solid_right@,
            self.config.segment_separators.wire_right@,
            prev_bg,
            next_bg,
            dir,
        ));
        str_width(content.as_str())
    }

    /// Renders a whole left side: separators between neighbours, the
    /// closure after the last segment, widths accumulated and clamped.
    pub fn left_contents(&self, segments: &Vec<Segment>) -> (r: (String, usize))
        ensures
            ({
                let spec = spec_left_from(
                    self.shell,
                    self.config.segment_separators.solid_left@,
                    self.config.segment_separators.wire_left@,
                    self.config.segment_separators.solid_right@,
                    self.config.segment_separators.wire_right@,
                    views_of_segments(segments@),
                    0,
                    Color::Named(NamedColor::Default),
                );
                r.0@ == spec.0 && r.1 as int == clamp_width(spec.1)
            }),
    {
        let ghost models = views_of_segments(segments@);
        let ghost sl = self.config.segment_separators.solid_left@;
        let ghost wl = self.config.segment_separators.wire_left@;
        let ghost sr = self.config.segment_separators.solid_right@;
        let ghost wr = self.config.segment_separators.wire_right@;
        let mut contents = String::new();
        let mut width: usize = 0;
        let mut prev_bg = Color::Named(NamedColor::Default);
        let mut i: usize = 0;
        let ghost whole = spec_left_from(
            self.shell,
            sl,
            wl,
            sr,
            wr,
            models,
            0,
            Color::Named(NamedColor::Default),
        );
        proof {
            assert(Seq::<char>::empty() + whole.0 =~= whole.0);
        }
        while i < segments.len()
            invariant
                i <= segments@.len(),
                models == views_of_segments(segments@),
                models.len() == segments@.len(),
                sl == self.config.segment_separators.solid_left@,
                wl == self.config.segment_separators.wire_left@,
                sr == self.config.segment_separators.solid_right@,
                wr == self.config.segment_separators.wire_right@,
                whole == spec_left_from(
                    self.shell,
                    sl,
                    wl,
                    sr,
                    wr,
                    models,
                    0,
                    Color::Named(NamedColor::Default),
                ),
                i > 0 ==> prev_bg == models[i - 1].bg,
                i == 0 ==> prev_bg == Color::Named(NamedColor::Default),
                ({
                    let rest = spec_left_from(self.shell, sl, wl, sr, wr, models, i as int, prev_bg);
                    &&& whole.0 == contents@ + rest.0
                    &&& width as int == clamp_width(whole.1 - rest.1)
                }),
            decreases segments@.len() - i,
        {
            let ghost rest = spec_left_from(self.shell, sl, wl, sr, wr, models, i as int, prev_bg);
            assert(segments@[i as int]@ == models[i as int]);
            if i > 0 {
                let w1 = self.separator(&mut contents, prev_bg, segments[i].style.background, Direction::Left);
                width = add_clamped(width, w1);
            }
            let w2 = self.segment(&mut contents, &segments[i]);
            width = add_clamped(width, w2);
            if i == segments.len() - 1 {
                let w3 = self.closure(&mut contents, segments[i].style.background, Direction::Left);
                width = add_clamped(width, w3);
            }
            prev_bg = segments[i].style.background;
            i = i + 1;
            proof {
                let new_rest = spec_left_from(
                    self.shell,
                    sl,
                    wl,
                    sr,
                    wr,
                    models,
                    i as int,
                    prev_bg,
                );
                assert(whole.0 =~= contents@ + new_rest.0);
            }
        }
        proof {
            let rest = spec_left_from(self.shell, sl, wl, sr, wr, models, i as int, prev_bg);
            assert(rest.0 =~= Seq::<char>::empty());
            assert(contents@ + Seq::<char>::empty() =~= contents@);
        }
        (contents, width)
    }

    /// Renders a whole right side: the closure before the first
    /// segment, separators between neighbours, widths accumulated and
    /// clamped.
    pub fn right_contents(&self, segments: &Vec<Segment>) -> (r: (String, usize))
        ensures
            ({
                let spec = spec_right_from(
                    self.shell,
                    self.config.segment_separators.solid_left@,
                    self.config.segment_separators.wire_left@,
                    self.config.segment_separators.solid_right@,
                    self.config.segment_separators.wire_right@,
                    views_of_segments(segments@),
                    0,
                    Color::Named(NamedColor::Default),
                );
                r.0@ == spec.0 && r.1 as int == clamp_width(spec.1)
            }),
    {
        let ghost models = views_of_segments(segments@);
        let ghost sl = self.config.segment_separators.solid_left@;
        let ghost wl = self.config.segment_separators.wire_left@;
        let ghost sr = self.config.segment_separators.solid_right@;
        let ghost wr = self.config.segment_separators.wire_right@;
        let mut contents = String::new();
        let mut width: usize = 0;
        let mut prev_bg = Color::Named(NamedColor::Default);
        let mut i: usize = 0;
        let ghost whole = spec_right_from(
            self.shell,
            sl,
            wl,
            sr,
            wr,
            models,
            0,
            Color::Named(NamedColor::Default),
        );
        proof {
            assert(Seq::<char>::empty() + whole.0 =~= whole.0);
        }
        while i < segments.len()
            invariant
                i <= segments@.len(),
                models == views_of_segments(segments@),
                models.len() == segments@.len(),
                sl == self.config.segment_separators.solid_left@,
                wl == self.config.segment_separators.wire_left@,
                sr == self.config.segment_separators.solid_right@,
                wr == self.config.segment_separators.wire_right@,
                whole == spec_right_from(
                    self.shell,
                    sl,
                    wl,
                    sr,
                    wr,
                    models,
                    0,
                    Color::Named(NamedColor::Default),
                ),
                i > 0 ==> prev_bg == models[i - 1].bg,
                i == 0 ==> prev_bg == Color::Named(NamedColor::Default),
                ({
                    let rest = spec_right_from(
                        self.shell,
                        sl,
                        wl,
                        sr,
                        wr,
                        models,
                        i as int,
                        prev_bg,
                    );
                    &&& whole.0 == contents@ + rest.0
                    &&& width as int == clamp_width(whole.1 - rest.1)
                }),
            decreases segments@.len() - i,
        {
            let ghost rest = spec_right_from(self.shell, sl, wl, sr, wr, models, i as int, prev_bg);
            assert(segments@[i as int]@ == models[i as int]);
            let next_bg = segments[i].style.background;
            if i == 0 {
                let w1 = self.closure(&mut contents, next_bg, Direction::Right);
                width = add_clamped(width, w1);
            } else {
                let w1 = self.separator(&mut contents, prev_bg, next_bg, Direction::Right);
                width = add_clamped(width, w1);
            }
            let w2 = self.segment(&mut contents, &segments[i]);
            width = add_clamped(width, w2);
            prev_bg = next_bg;
            i = i + 1;
            proof {
                let new_rest = spec_right_from(
                    self.shell,
                    sl,
                    wl,
                    sr,
                    wr,
                    models,
                    i as int,
                    prev_bg,
                );
                assert(whole.0 =~= contents@ + new_rest.0);
            }
        }
        proof {
            let rest = spec_right_from(self.shell, sl, wl, sr, wr, models, i as int, prev_bg);
            assert(rest.0 =~= Seq::<char>::empty());
            assert(contents@ + Seq::<char>::empty() =~= contents@);
        }
        (contents, width)
    }

    /// Lays one row out: the left side always, and the right side
    /// moved to its column exactly when it exists and fits strictly
    /// inside the terminal width; a right side that would not fit is
    /// silently dropped.
    pub fn display_line(&self, left: &Vec<Segment>, right: &Vec<Segment>) -> (r: String)
        ensures
            r@ == spec_display_line(
                self.shell,
                self.config.segment_separators.solid_left@,
                self.config.segment_separators.wire_left@,
                self.config.segment_separators.solid_right@,
                self.config.segment_separators.wire_right@,
                self.width as int,
                views_of_segments(left@),
                views_of_segments(right@),
            ),
    {
        let (left_contents, left_width) = self.left_contents(left);
        let (right_contents, right_width) = self.right_contents(right);
        let mut out = left_contents;
        if right_width > 0 && left_width < self.width && right_width < self.width - left_width
            && left_width + right_width + 1 < self.width {
            let right_pos = self.width - right_width - 1;
            let mut control_body = String::new();
            push_char(&mut control_body, '\u{1b}');
            push_char(&mut control_body, '[');
            let col = u64_to_string(right_pos as u64 + 1);
            control_body.append(col.as_str());
            push_char(&mut control_body, 'G');
            assert(control_body@ =~= seq!['\u{1b}', '['] + spec_decimal((right_pos + 1) as nat)
                + seq!['G']);
            let moved = self.shell.control(control_body.as_str());
            out.append(moved.text.as_str());
            out.append(right_contents.as_str());
            assert(out@ =~= spec_display_line(
                self.shell,
                self.config.segment_separators.solid_left@,
                self.config.segment_separators.wire_left@,
                self.config.segment_separators.solid_right@,
                self.config.segment_separators.wire_right@,
                self.width as int,
                views_of_segments(left@),
                views_of_segments(right@),
            ));
            out
        } else {
            proof {
                let l = spec_left_from(
                    self.shell,
                    self.config.segment_separators.solid_left@,
                    self.config.segment_separators.wire_left@,
                    self.config.segment_separators.solid_right@,
                    self.config.segment_separators.wire_right@,
                    views_of_segments(left@),
                    0,
                    Color::Named(NamedColor::Default),
                );
                let rr = spec_right_from(
                    self.shell,
                    self.config.segment_separators.solid_left@,
                    self.config.segment_separators.wire_left@,
                    self.config.segment_separators.solid_right@,
                    self.config.segment_separators.wire_right@,
                    views_of_segments(right@),
                    0,
                    Color::Named(NamedColor::Default),
                );
                assert(left_width as int == clamp_width(l.1));
                assert(right_width as int == clamp_width(rr.1));
            }
            out
        }
    }

    /// The row break put before every row after the first.
    pub fn next_line(&self) -> (r: String)
        ensures
            r@ == seq!['\n'],
    {
        let mut out = String::new();
        push_char(&mut out, '\n');
        assert(out@ =~= seq!['\n']);
        out
    }

    /// The trailing space closing a full left prompt.
    pub fn finish_left(&self) -> (r: String)
        ensures
            r@ == seq![' '],
    {
        let mut out = String::new();
        push_char(&mut out, ' ');
        assert(out@ =~= seq![' ']);
        out
    }

    /// A standalone right prompt: the right side alone, for shells
    /// with a separate right-prompt slot.
    pub fn display_right(&self, right: &Vec<Segment>) -> (r: String)
        ensures
            r@ == spec_right_from(
                self.shell,
                self.config.segment_separators.solid_left@,
                self.config.segment_separators.wire_left@,
                self.config.segment_separators.solid_right@,
                self.config.segment_separators.wire_right@,
                views_of_segments(right@),
                0,
                Color::Named(NamedColor::Default),
            ).0,
    {
        let (right_contents, _right_width) = self.right_contents(right);
        right_contents
    }
}

/// Adds a width, clamping at the largest machine word.
fn add_clamped(a: usize, b: usize) -> (r: usize)
    ensures
        r as int == clamp_width(a as int + b as int),
{
    if a > usize::MAX - b {
        usize::MAX
    } else {
        a + b
    }
}

} // verus!
