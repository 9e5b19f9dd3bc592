//! Resolution of interactively prompted configuration values.
//!
//! The unverified caller prints the prompt message, reads one line,
//! and hands the raw line to `get_value`, which trims it and applies
//! the prompt's policy: a non-empty answer is taken as given, an empty
//! answer falls back to the default, and an empty answer without a
//! default is an error when the value is required.
use vstd::prelude::*;
use vstd::string::StringExecFns;
use vstd::string::StrSliceExecFns;

verus! {

/// Why a prompt could not be resolved.
#[derive(Debug, Clone, Copy, PartialEq, Eq, Structural)]
pub enum PromptError {
    /// The value is required, no default exists, and the answer was
    /// empty.
    InputRequired,
}

/// Whether an answer must be given.
#[derive(Debug, Clone)]
pub enum Required {
    /// An answer is required; an empty answer falls back to the
    /// default, if one is carried here.
    Yes(Option<String>),
    /// The value is optional; an empty answer stands.
    No,
}

/// One question to the user.
#[derive(Debug, Clone)]
pub struct Prompt {
    /// The message shown before reading the answer.
    pub msg: String,
    /// Whether an answer must be given, and any default.
    pub required: Required,
}

/// The characters with the Unicode `White_Space` property, those that
/// trimming an answer removes.
pub open spec fn is_space(c: char) -> bool {
    let u = c as u32;
    (9 <= u && u <= 13) || u == 32 || u == 0x85 || u == 0xa0 || u == 0x1680 || (0x2000 <= u && u
        <= 0x200a) || u == 0x2028 || u == 0x2029 || u == 0x202f || u == 0x205f || u == 0x3000
}

/// `s` without leading whitespace.
pub open spec fn trim_start_spec(s: Seq<char>) -> Seq<char>
    decreases s.len(),
{
    if s.len() == 0 {
        s
    } else if is_space(s[0]) {
        trim_start_spec(s.drop_first())
    } else {
        s
    }
}

/// `s` without trailing whitespace.
pub open spec fn trim_end_spec(s: Seq<char>) -> Seq<char>
    decreases s.len(),
{
    if s.len() == 0 {
        s
    } else if is_space(s.last()) {
        trim_end_spec(s.drop_last())
    } else {
        s
    }
}

/// `s` without leading and trailing whitespace.
pub open spec fn trim_spec(s: Seq<char>) -> Seq<char> {
    trim_end_spec(trim_start_spec(s))
}

/// What resolving an answer yields under the given policy: the
/// trimmed answer when non-empty, else the default, an empty value, or
/// an error, as `required` directs.
pub open spec fn resolved_value(required: Required, input: Seq<char>) -> Result<
    Seq<char>,
    PromptError,
> {
    let trimmed = trim_spec(input);
    if trimmed.len() > 0 {
        Ok(trimmed)
    } else {
        match required {
            Required::Yes(Some(default)) => Ok(default@),
            Required::Yes(None) => Err(PromptError::InputRequired),
            Required::No => Ok(Seq::empty()),
        }
    }
}

/// Whether `c` has the Unicode `White_Space` property.
fn is_space_char(c: char) -> (r: bool)
    ensures
        r == is_space(c),
{
    let u = c as u32;
    (9 <= u && u <= 13) || u == 32 || u == 0x85 || u == 0xa0 || u == 0x1680 || (0x2000 <= u && u
        <= 0x200a) || u == 0x2028 || u == 0x2029 || u == 0x202f || u == 0x205f || u == 0x3000
}

/// `s` without leading and trailing whitespace.
fn trimmed<'a>(s: &'a str) -> (r: &'a str)
    ensures
        r@ == trim_spec(s@),
{
    let n = s.unicode_len();
    proof {
        assert(s@.subrange(0, n as int) =~= s@);
    }
    let mut start: usize = 0;
    while start < n && is_space_char(s.get_char(start))
        invariant
            n == s@.len(),
            start <= n,
            trim_start_spec(s@) == trim_start_spec(s@.subrange(start as int, n as int)),
        decreases n - start,
    {
        proof {
            assert(s@.subrange(start as int, n as int).drop_first() =~= s@.subrange(
                start as int + 1,
                n as int,
            ));
        }
        start = start + 1;
    }
    proof {
        assert(trim_start_spec(s@) == s@.subrange(start as int, n as int));
    }
    let mut end: usize = n;
    while end > start && is_space_char(s.get_char(end - 1))
        invariant
            n == s@.len(),
            start <= end <= n,
            trim_end_spec(s@.subrange(start as int, n as int)) == trim_end_spec(
                s@.subrange(start as int, end as int),
            ),
        decreases end,
    {
        proof {
            assert(s@.subrange(start as int, end as int).drop_last() =~= s@.subrange(
                start as int,
                end as int - 1,
            ));
        }
        end = end - 1;
    }
    proof {
        assert(trim_end_spec(s@.subrange(start as int, end as int)) == s@.subrange(
            start as int,
            end as int,
        ));
    }
    s.substring_char(start, end)
}

impl Prompt {
    /// Resolves a raw answer line under this prompt's policy.
    pub fn get_value(&self, input: &str) -> (r: Result<String, PromptError>)
        ensures
            r matches Ok(v) ==> resolved_value(self.required, input@) == Ok::<
                Seq<char>,
                PromptError,
            >(v@),
            r matches Err(e) ==> resolved_value(self.required, input@) == Err::<
                Seq<char>,
                PromptError,
            >(e),
    {
        let t = trimmed(input);
        if !t.is_empty() {
            Ok(t.to_owned())
        } else {
            match &self.required {
                Required::Yes(Some(default)) => Ok(default.clone()),
                Required::Yes(None) => Err(PromptError::InputRequired),
                Required::No => Ok(String::new()),
            }
        }
    }

    /// The full message to show before reading: the prompt text
    /// followed by the policy, spelled as the default value,
    /// `required`, or `optional`.
    pub fn input_msg(&self) -> (r: String)
        ensures
            r@ == self.input_msg_chars(),
    {
        let mut out = self.msg.clone();
        out.append(" (");
        match &self.required {
            Required::Yes(Some(default)) => {
                out.append("default: ");
                out.append(default.as_str());
            },
            Required::Yes(None) => {
                out.append("required");
            },
            Required::No => {
                out.append("optional");
            },
        }
        out.append(") >");
        out
    }

    /// The characters of `input_msg`.
    pub open spec fn input_msg_chars(&self) -> Seq<char> {
        self.msg@ + " ("@ + (match self.required {
            Required::Yes(Some(default)) => "default: "@ + default@,
            Required::Yes(None) => "required"@,
            Required::No => "optional"@,
        }) + ") >"@
    }
}

} // verus!
