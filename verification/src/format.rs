use vstd::prelude::*;
use vstd::string::StringExecFns;
use vstd::string::StringSliceAdditionalSpecFns;

use crate::severity::{padded_label, Severity};

verus! {

/// The line break appended after every buffered line.
pub open spec fn newline() -> Seq<char> {
    "\n"@
}

/// The target a line is attributed to: the record's own target if non-empty,
/// else its module path, else the placeholder `"?"`.
pub open spec fn effective_target_spec(
    target: Seq<char>,
    module_name: Option<Seq<char>>,
) -> Seq<char> {
    if target.len() > 0 {
        target
    } else {
        match module_name {
            Some(m) => m,
            None => "?"@,
        }
    }
}

/// The text of one rendered line, without its trailing line break:
/// `[<target>] <LEVEL padded to 5> | <message>`.
pub open spec fn line_spec(target: Seq<char>, level: Severity, message: Seq<char>) -> Seq<char> {
    "["@ + target + "] "@ + padded_label(level) + " | "@ + message
}

/// A string slice's UTF-8 encoding is empty exactly when its character
/// sequence is.
proof fn lemma_bytes_empty_iff_chars_empty(s: &str)
    ensures
        s.spec_bytes().len() == 0 <==> s@.len() == 0,
{
    if s@.len() != 0 {
        assert(s.spec_bytes() == vstd::utf8::encode_scalar(s@[0] as u32) + vstd::utf8::encode_utf8(
            s@.drop_first(),
        ));
        assert(vstd::utf8::encode_scalar(s@[0] as u32).len() >= 1);
    }
}

/// Resolves the effective target of a record.
pub fn effective_target<'a>(target: &'a str, module_name: Option<&'a str>) -> (r: &'a str)
    ensures
        r@ == effective_target_spec(
            target@,
            match module_name {
                Some(m) => Some(m@),
                None => None,
            },
        ),
{
    proof {
        lemma_bytes_empty_iff_chars_empty(target);
    }
    if !target.is_empty() {
        target
    } else {
        match module_name {
            Some(m) => m,
            None => "?",
        }
    }
}

/// Renders one record into its line, without the trailing line break.
pub fn format_line(target: &str, level: Severity, message: &str) -> (r: String)
    ensures
        r@ == line_spec(target@, level, message@),
{
    let mut r = String::new();
    r.append("[");
    r.append(target);
    r.append("] ");
    r.append(level.label());
    r.append(" | ");
    r.append(message);
    proof {
        assert(r@ == Seq::<char>::empty() + "["@ + target@ + "] "@ + padded_label(level) + " | "@
            + message@);
        assert(r@ =~= line_spec(target@, level, message@));
    }
    r
}

} // verus!
