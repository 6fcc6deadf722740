//! The duration segment: a magnitude-bucketed formatter for elapsed
//! time, and the builder around it.

use vstd::prelude::*;

use crate::strutil::{digit_char, digit_to_char, push_char, spec_decimal, u64_to_string};

verus! {

/// Division rounded to the nearest integer, ties to the even quotient.
pub open spec fn spec_round_div(n: nat, d: nat) -> nat
    recommends
        d > 0,
{
    let q = n / d;
    let r = n % d;
    if 2 * r < d {
        q
    } else if 2 * r > d {
        q + 1
    } else if q % 2 == 0 {
        q
    } else {
        q + 1
    }
}

/// A number of hundredths as a decimal with two fixed fraction digits.
pub open spec fn spec_fixed2(h: nat) -> Seq<char> {
    spec_decimal(h / 100) + seq!['.', digit_char((h / 10) % 10), digit_char(h % 10)]
}

/// A number of tenths as a decimal with one fixed fraction digit.
pub open spec fn spec_fixed1(t: nat) -> Seq<char> {
    spec_decimal(t / 10) + seq!['.', digit_char(t % 10)]
}

/// The bias used before truncating to whole seconds, capped at the
/// largest representable count of nanoseconds.
pub open spec fn spec_biased(ns: nat) -> nat {
    if ns + 500000000 > u64::MAX {
        u64::MAX as nat
    } else {
        ns + 500000000
    }
}

/// The displayed text of a duration of `ns` nanoseconds, picked by
/// magnitude: microseconds below a millisecond, milliseconds with two,
/// one and no fraction digits up to a second, seconds with two and one
/// fraction digits up to the point where one decimal would show sixty,
/// then minutes and seconds, then hours, with half a second added
/// before truncation so that boundary values roll over.
pub open spec fn spec_format_duration(ns: nat) -> Seq<char> {
    if ns < 1000000 {
        spec_decimal(spec_round_div(ns, 1000)) + seq!['\u{3bc}', 's']
    } else if ns < 10000000 {
        spec_fixed2(spec_round_div(ns, 10000)) + seq!['m', 's']
    } else if ns < 100000000 {
        spec_fixed1(spec_round_div(ns, 100000)) + seq!['m', 's']
    } else if ns < 1000000000 {
        spec_decimal(spec_round_div(ns, 1000000)) + seq!['m', 's']
    } else if ns < 10000000000 {
        spec_fixed2(spec_round_div(ns, 10000000)) + seq!['s']
    } else if ns < 59950000000 {
        spec_fixed1(spec_round_div(ns, 100000000)) + seq!['s']
    } else if ns < 3599500000000 {
        let d = spec_biased(ns);
        let mins = d / 60000000000;
        let secs = (d % 60000000000) / 1000000000;
        spec_decimal(mins) + seq!['m', ' '] + spec_decimal(secs) + seq!['s']
    } else {
        let d = spec_biased(ns);
        let hours = d / 3600000000000;
        let mins = (d % 3600000000000) / 60000000000;
        let secs = (d % 60000000000) / 1000000000;
        spec_decimal(hours) + seq!['h', ' '] + spec_decimal(mins) + seq!['m', ' '] + spec_decimal(
            secs,
        ) + seq!['s']
    }
}

/// Division rounded to nearest, ties to even.
fn round_div(n: u64, d: u64) -> (r: u64)
    requires
        d > 0,
        n / d < u64::MAX,
    ensures
        r == spec_round_div(n as nat, d as nat),
{
    let q = n / d;
    let r = n % d;
    if r < d - r {
        q
    } else if r > d - r {
        q + 1
    } else if q % 2 == 0 {
        q
    } else {
        q + 1
    }
}

/// Hundredths as a decimal with two fixed fraction digits.
fn fixed2(h: u64) -> (r: String)
    ensures
        r@ == spec_fixed2(h as nat),
{
    let mut out = u64_to_string(h / 100);
    push_char(&mut out, '.');
    push_char(&mut out, digit_to_char((h / 10) % 10));
    push_char(&mut out, digit_to_char(h % 10));
    assert(out@ =~= spec_fixed2(h as nat));
    out
}

/// Tenths as a decimal with one fixed fraction digit.
fn fixed1(t: u64) -> (r: String)
    ensures
        r@ == spec_fixed1(t as nat),
{
    let mut out = u64_to_string(t / 10);
    push_char(&mut out, '.');
    push_char(&mut out, digit_to_char(t % 10));
    assert(out@ =~= spec_fixed1(t as nat));
    out
}

/// Formats a duration given in nanoseconds, exactly as
/// `spec_format_duration` lays it out.
pub fn format_duration(duration_ns: u64) -> (r: String)
    ensures
        r@ == spec_format_duration(duration_ns as nat),
{
    let ns = duration_ns;
    if ns < 1000000 {
        let mut out = u64_to_string(round_div(ns, 1000));
        push_char(&mut out, '\u{3bc}');
        push_char(&mut out, 's');
        assert(out@ =~= spec_format_duration(ns as nat));
        out
    } else if ns < 10000000 {
        let mut out = fixed2(round_div(ns, 10000));
        push_char(&mut out, 'm');
        push_char(&mut out, 's');
        assert(out@ =~= spec_format_duration(ns as nat));
        out
    } else if ns < 100000000 {
        let mut out = fixed1(round_div(ns, 100000));
        push_char(&mut out, 'm');
        push_char(&mut out, 's');
        assert(out@ =~= spec_format_duration(ns as nat));
        out
    } else if ns < 1000000000 {
        let mut out = u64_to_string(round_div(ns, 1000000));
        push_char(&mut out, 'm');
        push_char(&mut out, 's');
        assert(out@ =~= spec_format_duration(ns as nat));
        out
    } else if ns < 10000000000 {
        let mut out = fixed2(round_div(ns, 10000000));
        push_char(&mut out, 's');
        assert(out@ =~= spec_format_duration(ns as nat));
        out
    } else if ns < 59950000000 {
        let mut out = fixed1(round_div(ns, 100000000));
        push_char(&mut out, 's');
        assert(out@ =~= spec_format_duration(ns as nat));
        out
    } else if ns < 3599500000000 {
        let d = if ns > u64::MAX - 500000000 {
            u64::MAX
        } else {
            ns + 500000000
        };
        let mins = d / 60000000000;
        let secs = (d % 60000000000) / 1000000000;
        let mut out = u64_to_string(mins);
        push_char(&mut out, 'm');
        push_char(&mut out, ' ');
        let secs_text = u64_to_string(secs);
        out.append(secs_text.as_str());
        push_char(&mut out, 's');
        assert(out@ =~= spec_format_duration(ns as nat));
        out
    } else {
        let d = if ns > u64::MAX - 500000000 {
            u64::MAX
        } else {
            ns + 500000000
        };
        let hours = d / 3600000000000;
        let mins = (d % 3600000000000) / 60000000000;
        let secs = (d % 60000000000) / 1000000000;
        let mut out = u64_to_string(hours);
        push_char(&mut out, 'h');
        push_char(&mut out, ' ');
        let mins_text = u64_to_string(mins);
        out.append(mins_text.as_str());
        push_char(&mut out, 'm');
        push_char(&mut out, ' ');
        let secs_text = u64_to_string(secs);
        out.append(secs_text.as_str());
        push_char(&mut out, 's');
        assert(out@ =~= spec_format_duration(ns as nat));
        out
    }
}


/// The content of the duration segment for a given duration.
pub open spec fn spec_build_duration(template: Seq<char>, ns: nat) -> Seq<char> {
    crate::template::spec_substitute(
        template,
        seq!["{{.duration}}"@],
        seq![spec_format_duration(ns)],
    )
}

/// The builder of the duration segment.
#[derive(Debug, Default)]
pub struct DurationSegmentBuilder {}

impl DurationSegmentBuilder {
    /// Splices the formatted duration into the template; a zero
    /// duration yields no segment.
    pub fn build(&self, ctx: &crate::segment::Context) -> (r: Option<crate::segment::Segment>)
        ensures
            match r {
                Some(seg) => ctx.args.duration_ns > 0 && seg.content@ == spec_build_duration(
                    ctx.config.duration.content@,
                    ctx.args.duration_ns as nat,
                ) && crate::style::style_like(seg.style, ctx.config.duration.style),
                None => ctx.args.duration_ns == 0,
            },
    {
        let config = &ctx.config.duration;
        if ctx.args.duration_ns == 0 {
            return None;
        }
        let formatted = format_duration(ctx.args.duration_ns);
        let patterns: Vec<&str> = vec!["{{.duration}}"];
        let replacements: Vec<&str> = vec![formatted.as_str()];
        proof {
            assert(crate::template::views_of_strs(patterns@) =~= seq!["{{.duration}}"@]);
            assert(crate::template::views_of_strs(replacements@) =~= seq![
                spec_format_duration(ctx.args.duration_ns as nat),
            ]);
        }
        let content = crate::template::substitute(config.content.as_str(), &patterns, &replacements);
        Some(crate::segment::Segment { content, style: config.style.duplicate() })
    }
}

} // verus!
