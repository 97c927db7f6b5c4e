//! One-line summaries, built the same way for the read-side and the
//! write-side errors: the marker of the failure's kind, followed, where the
//! failure wraps a cause, by the cause's own description.

use crate::causes::Cause;
use vstd::prelude::*;
use vstd::string::StringExecFns;

verus! {

/// The text between a failure's marker and the description of its cause.
pub open spec fn separator() -> Seq<char> {
    ": "@
}

/// The summary of a failure: its marker alone where it has no cause, else the
/// marker, the separator and the description of the cause.
pub open spec fn summary(marker: Seq<char>, detail: Option<Seq<char>>) -> Seq<char> {
    match detail {
        None => marker,
        Some(d) => marker + separator() + d,
    }
}

/// Whether `text` summarizes a failure with the given marker and cause: the
/// summary over the marker alone where there is no cause, else over the
/// marker and a description of the cause.
pub open spec fn summarizes(marker: Seq<char>, cause: Option<Cause>, text: Seq<char>) -> bool {
    match cause {
        None => text == summary(marker, None),
        Some(c) => exists|d: Seq<char>| #[trigger]
            c.described_by(d) && text == summary(marker, Some(d)),
    }
}

/// Builds the summary of a failure from its marker and, where it wraps a
/// cause, the description of that cause.
pub fn render(marker: &str, detail: Option<&str>) -> (s: String)
    ensures
        s@ == summary(
            marker@,
            match detail {
                Some(d) => Some(d@),
                None => None,
            },
        ),
{
    let mut out = String::from_str(marker);
    match detail {
        None => {},
        Some(d) => {
            out.append(": ");
            out.append(d);
        },
    }
    out
}

/// Summarizes a failure with the given marker and cause, asking the cause
/// for its description.
pub fn summarize(marker: &str, cause: Option<Cause>) -> (s: String)
    ensures
        summarizes(marker@, cause, s@),
{
    match cause {
        None => render(marker, None),
        Some(c) => {
            let detail = c.to_string();
            render(marker, Some(detail.as_str()))
        },
    }
}

} // verus!
