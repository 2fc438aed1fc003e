//! The exact-match command gate: input is trimmed of leading and trailing
//! whitespace and must equal the expected command character for character,
//! case-sensitively, before a step's effect may run.

use vstd::prelude::*;
use crate::models::PromptContext;

verus! {

/// The whitespace characters stripped from the ends of a typed line.
pub open spec fn is_space_char(c: char) -> bool {
    c == ' ' || c == '\t' || c == '\n' || c == '\r'
}

/// `s` with its leading whitespace removed.
pub open spec fn trim_start_spec(s: Seq<char>) -> Seq<char>
    decreases s.len(),
{
    if s.len() > 0 && is_space_char(s[0]) {
        trim_start_spec(s.drop_first())
    } else {
        s
    }
}

/// `s` with its trailing whitespace removed.
pub open spec fn trim_end_spec(s: Seq<char>) -> Seq<char>
    decreases s.len(),
{
    if s.len() > 0 && is_space_char(s[s.len() - 1]) {
        trim_end_spec(s.drop_last())
    } else {
        s
    }
}

/// `s` with whitespace removed from both ends; internal whitespace is kept.
pub open spec fn trim_spec(s: Seq<char>) -> Seq<char> {
    trim_end_spec(trim_start_spec(s))
}

pub fn is_space(c: char) -> (r: bool)
    ensures
        r == is_space_char(c),
{
    c == ' ' || c == '\t' || c == '\n' || c == '\r'
}

/// Strips whitespace from both ends of a line; every typed line passes
/// through this before it is compared to the expected command.
pub fn trim_input(s: &str) -> (r: String)
    ensures
        r@ == trim_spec(s@),
{
    let n = s.unicode_len();
    let mut start: usize = 0;
    proof {
        assert(s@.skip(0) =~= s@);
    }
    while start < n && is_space(s.get_char(start))
        invariant
            start <= n,
            n == s@.len(),
            trim_start_spec(s@) == trim_start_spec(s@.skip(start as int)),
        decreases n - start,
    {
        proof {
            assert(s@.skip(start as int)[0] == s@[start as int]);
            assert(s@.skip(start as int).drop_first() =~= s@.skip(start as int + 1));
        }
        start = start + 1;
    }
    proof {
        assert(trim_start_spec(s@.skip(start as int)) == s@.skip(start as int));
    }
    let mut end: usize = n;
    proof {
        assert(s@.subrange(start as int, end as int) =~= s@.skip(start as int));
    }
    while end > start && is_space(s.get_char(end - 1))
        invariant
            start <= end <= n,
            n == s@.len(),
            trim_spec(s@) == trim_end_spec(s@.subrange(start as int, end as int)),
        decreases end,
    {
        proof {
            let t = s@.subrange(start as int, end as int);
            assert(t[t.len() - 1] == s@[end - 1]);
            assert(t.drop_last() =~= s@.subrange(start as int, end as int - 1));
        }
        end = end - 1;
    }
    proof {
        let t = s@.subrange(start as int, end as int);
        assert(trim_end_spec(t) == t);
    }
    let trimmed = s.substring_char(start, end);
    String::from_str(trimmed)
}

/// Character-for-character equality of two strings.
pub fn str_eq(a: &str, b: &str) -> (r: bool)
    ensures
        r == (a@ == b@),
{
    let na = a.unicode_len();
    let nb = b.unicode_len();
    if na != nb {
        return false;
    }
    let mut i: usize = 0;
    while i < na
        invariant
            i <= na,
            na == a@.len(),
            na == b@.len(),
            forall|j: int| 0 <= j < i ==> a@[j] == b@[j],
        decreases na - i,
    {
        if a.get_char(i) != b.get_char(i) {
            return false;
        }
        i = i + 1;
    }
    proof {
        assert(a@ =~= b@);
    }
    true
}

/// The line that spells out the expected command when hints are enabled;
/// it holds the command verbatim.
pub open spec fn hint_line_spec(expected: Seq<char>) -> Seq<char> {
    "[hint] type: "@ + expected
}

pub fn hint_line(expected: &str) -> (r: String)
    ensures
        r@ == hint_line_spec(expected@),
{
    let mut r = String::from_str("[hint] type: ");
    r.append(expected);
    r
}

/// Everything a step shows before blocking for input: the description is
/// always present, the hint only when hints are enabled, and the prompt
/// follows the chroot state.
pub struct StepDisplay {
    pub description: String,
    pub hint: Option<String>,
    pub chroot_prompt: bool,
}

/// One atomic unit of interaction: a description, an expected command, and
/// a pre-authored effect keyed to that command. Stateless and re-enterable.
pub struct CommandStep {
    pub description: String,
    pub expected_command: String,
}

impl CommandStep {
    pub fn new(description: &str, expected_command: &str) -> (r: Self)
        ensures
            r.description@ == description@,
            r.expected_command@ == expected_command@,
    {
        CommandStep {
            description: String::from_str(description),
            expected_command: String::from_str(expected_command),
        }
    }

    /// The exact-match check: the step's effect may run if and only if
    /// the trimmed input equals the expected command exactly.
    pub fn check(&self, input: &str) -> (r: bool)
        ensures
            r == (trim_spec(input@) == self.expected_command@),
    {
        let trimmed = trim_input(input);
        str_eq(trimmed.as_str(), self.expected_command.as_str())
    }

    /// What the step prints before reading input. The hint is shown if and
    /// only if hints are enabled; disabling hints never drops the
    /// description or the prompt.
    pub fn render(&self, ctx: &PromptContext) -> (d: StepDisplay)
        ensures
            d.description@ == self.description@,
            d.hint is Some <==> ctx.hints_enabled,
            d.hint matches Some(h) ==> h@ == hint_line_spec(self.expected_command@),
            d.chroot_prompt == ctx.in_chroot,
    {
        let hint = if ctx.hints_enabled {
            Some(hint_line(self.expected_command.as_str()))
        } else {
            None
        };
        StepDisplay {
            description: self.description.clone(),
            hint,
            chroot_prompt: ctx.in_chroot,
        }
    }
}

/// The error printed when the typed line does not match the expected
/// command.
pub fn invalid_command_message() -> (r: String)
    ensures
        r@ == "Error: Invalid command. Try again."@,
{
    String::from_str("Error: Invalid command. Try again.")
}

/// The reminder printed after a mismatch when hints are enabled.
pub fn retype_hint_message() -> (r: String)
    ensures
        r@ == "Hint: Make sure you type the command exactly as shown."@,
{
    String::from_str("Hint: Make sure you type the command exactly as shown.")
}

} // verus!
