//! Shell kinds, their "invisible control sequence" wrappers and their
//! prompt-expansion escaping rules.

use vstd::prelude::*;

verus! {

#[derive(Clone, Copy, PartialEq, Eq, Structural, Debug)]
pub enum Shell {
    Bash,
    Fish,
    Zsh,
}

/// The marker put before a raw control sequence so that the given shell
/// excludes it from cursor arithmetic.
pub open spec fn spec_control_prefix(shell: Shell) -> Seq<char> {
    match shell {
        Shell::Bash => seq!['\\', '['],
        Shell::Fish => Seq::<char>::empty(),
        Shell::Zsh => seq!['%', '{'],
    }
}

/// The marker put after a raw control sequence.
pub open spec fn spec_control_suffix(shell: Shell) -> Seq<char> {
    match shell {
        Shell::Bash => seq!['\\', ']'],
        Shell::Fish => Seq::<char>::empty(),
        Shell::Zsh => seq!['%', '}'],
    }
}

/// A control sequence wrapped in the shell's markers.
pub open spec fn spec_wrap_control(shell: Shell, control: Seq<char>) -> Seq<char> {
    spec_control_prefix(shell) + control + spec_control_suffix(shell)
}

/// How one content character is escaped for the shell's prompt expansion:
/// bash doubles backslashes, zsh doubles percent signs, fish escapes
/// nothing.
pub open spec fn spec_escape_char(shell: Shell, c: char) -> Seq<char> {
    match shell {
        Shell::Bash => if c == '\\' {
            seq!['\\', '\\']
        } else {
            seq![c]
        },
        Shell::Fish => seq![c],
        Shell::Zsh => if c == '%' {
            seq!['%', '%']
        } else {
            seq![c]
        },
    }
}

/// A whole string escaped character by character.
pub open spec fn spec_escape(shell: Shell, s: Seq<char>) -> Seq<char>
    decreases s.len(),
{
    if s.len() == 0 {
        Seq::<char>::empty()
    } else {
        spec_escape_char(shell, s[0]) + spec_escape(shell, s.skip(1))
    }
}

impl Shell {
    /// The wrapper markers of this shell.
    pub fn controls(&self) -> (r: (&'static str, &'static str))
        ensures
            r.0@ == spec_control_prefix(*self),
            r.1@ == spec_control_suffix(*self),
    {
        proof {
            reveal_strlit("\\[");
            reveal_strlit("\\]");
            reveal_strlit("");
            reveal_strlit("%{");
            reveal_strlit("%}");
        }
        match self {
            Shell::Bash => ("\\[", "\\]"),
            Shell::Fish => ("", ""),
            Shell::Zsh => ("%{", "%}"),
        }
    }

    /// Wraps a raw control sequence in this shell's markers.
    pub fn control(&self, control: &str) -> (r: PromptControl)
        ensures
            r.text@ == spec_wrap_control(*self, control@),
    {
        PromptControl::new(self, control)
    }

    /// Escapes content characters that the shell's prompt expansion would
    /// otherwise interpret.
    pub fn escape(&self, s: &str) -> (r: String)
        ensures
            r@ == spec_escape(*self, s@),
    {
        let chars = crate::strutil::chars_of(s);
        let mut out = String::new();
        let mut i: usize = 0;
        while i < chars.len()
            invariant
                i <= chars@.len(),
                chars@ == s@,
                out@ == spec_escape(*self, s@.subrange(0, i as int)),
        decreases chars@.len() - i,
        {
            let c = chars[i];
            match self {
                Shell::Bash => {
                    crate::strutil::push_char(&mut out, c);
                    if c == '\\' {
                        crate::strutil::push_char(&mut out, '\\');
                    }
                },
                Shell::Fish => {
                    crate::strutil::push_char(&mut out, c);
                },
                Shell::Zsh => {
                    crate::strutil::push_char(&mut out, c);
                    if c == '%' {
                        crate::strutil::push_char(&mut out, '%');
                    }
                },
            }
            proof {
                lemma_escape_snoc(*self, s@, i as int);
            }
            i = i + 1;
        }
        assert(s@.subrange(0, s@.len() as int) =~= s@);
        out
    }

    /// True for the shells that offer a separate right-prompt slot, so
    /// that the ordinary prompt call must not lay the right side out
    /// itself.
    pub fn supports_right_prompt(&self) -> (r: bool)
        ensures
            r == (*self != Shell::Bash),
    {
        match self {
            Shell::Bash => false,
            Shell::Fish => true,
            Shell::Zsh => true,
        }
    }
}

/// Escaping a prefix one character longer appends that character's
/// escape.
proof fn lemma_escape_snoc(shell: Shell, s: Seq<char>, i: int)
    requires
        0 <= i < s.len(),
    ensures
        spec_escape(shell, s.subrange(0, i + 1)) == spec_escape(shell, s.subrange(0, i))
            + spec_escape_char(shell, s[i]),
    decreases i,
{
    let pre = s.subrange(0, i + 1);
    if i == 0 {
        assert(pre.skip(1) =~= Seq::<char>::empty());
        assert(s.subrange(0, 0) =~= Seq::<char>::empty());
        assert(spec_escape(shell, pre) =~= spec_escape_char(shell, s[0]));
    } else {
        lemma_escape_snoc(shell, s.skip(1), i - 1);
        assert(pre.skip(1) =~= s.skip(1).subrange(0, i));
        assert(s.subrange(0, i).skip(1) =~= s.skip(1).subrange(0, i - 1));
        assert(s.skip(1)[i - 1] == s[i]);
    }
}

/// A control sequence together with the wrapping that makes the shell
/// treat it as invisible.
pub struct PromptControl {
    pub text: String,
}

impl PromptControl {
    /// Wraps `control` in the shell's markers.
    pub fn new(shell: &Shell, control: &str) -> (r: PromptControl)
        ensures
            r.text@ == spec_wrap_control(*shell, control@),
    {
        let (prefix, suffix) = shell.controls();
        let mut text = String::new();
        text.append(prefix);
        text.append(control);
        text.append(suffix);
        PromptControl { text }
    }

    /// The wrapped text, ready to splice into the prompt.
    pub fn render(&self) -> (r: String)
        ensures
            r@ == self.text@,
    {
        self.text.clone()
    }
}

} // verus!
