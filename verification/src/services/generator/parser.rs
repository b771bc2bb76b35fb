//! Extraction of the project specification from generator output.

use vstd::prelude::*;
use crate::error::ForgerError;
use crate::text::{
    contains_chars, contains_spec, find_chars, find_from, find_spec, from_chars, lemma_find_from,
    matches_at, push_chars, push_str, slice_chars, starts_with_spec, ends_with_spec, to_chars, trim_chars,
    trim_spec,
};

verus! {

/// The opening tag of a specification.
pub open spec fn spec_open_tag() -> Seq<char> {
    "<project_specification>"@
}

/// The closing tag of a specification.
pub open spec fn spec_close_tag() -> Seq<char> {
    "</project_specification>"@
}

/// The opening of a fenced XML block.
pub open spec fn xml_fence() -> Seq<char> {
    "```xml"@
}

/// The end of a fenced block.
pub open spec fn fence_end() -> Seq<char> {
    "```\n"@
}

/// The message when only fragments of a specification are found.
pub open spec fn incomplete_message() -> Seq<char> {
    "Could not extract complete specification. The AI response may be malformed. Please try again."@
}

/// The head of the message when no specification is found.
pub open spec fn not_found_message() -> Seq<char> {
    "No project specification found in OpenCode output. The AI may have encountered an error or produced unexpected output.\n\nPartial output:\n"@
}

/// The first `n` characters of `s` (`s.chars().take(n)`).
pub open spec fn take_spec(s: Seq<char>, n: nat) -> Seq<char> {
    if s.len() <= n { s } else { s.subrange(0, n as int) }
}

/// The fenced block candidate: the text between "```xml" and the next
/// "```\n", when both are present.
pub open spec fn fenced_block(o: Seq<char>) -> Option<Seq<char>> {
    match find_spec(o, xml_fence()) {
        Some(st) => match find_from(o, fence_end(), st) {
            Some(end) => Some(o.subrange(st + 6, end)),
            None => None,
        },
        None => None,
    }
}

/// Slicing from the first opening tag to the end of the first closing tag
/// would panic: the closing tag ends before the opening tag starts.
pub open spec fn tags_out_of_order(o: Seq<char>) -> bool {
    match (find_spec(o, spec_open_tag()), find_spec(o, spec_close_tag())) {
        (Some(a), Some(b)) => b + spec_close_tag().len() < a,
        _ => false,
    }
}

/// What extraction yields: the tagged block, else a fenced block holding
/// an opening tag (trimmed), else an error message.
pub open spec fn extract_spec(o: Seq<char>) -> Result<Seq<char>, Seq<char>> {
    match (find_spec(o, spec_open_tag()), find_spec(o, spec_close_tag())) {
        (Some(a), Some(b)) => Ok(o.subrange(a, b + spec_close_tag().len())),
        _ => match fenced_block(o) {
            Some(block) if contains_spec(block, spec_open_tag()) => Ok(trim_spec(block)),
            _ => if contains_spec(o, "<project_name>"@) && contains_spec(o, "<overview>"@) {
                Err(incomplete_message())
            } else {
                Err(not_found_message() + take_spec(o, 500))
            },
        },
    }
}

/// When the first opening tag comes before the first closing tag, what is
/// extracted is a whole specification block: it starts with the opening
/// tag and ends with the closing tag.
pub proof fn lemma_extracted_block_is_tagged(o: Seq<char>, a: int, b: int)
    requires
        find_spec(o, spec_open_tag()) == Some(a),
        find_spec(o, spec_close_tag()) == Some(b),
        a < b,
    ensures
        extract_spec(o) matches Ok(s) && starts_with_spec(s, spec_open_tag()) && ends_with_spec(s, spec_close_tag()),
{
    reveal_strlit("<project_specification>");
    reveal_strlit("</project_specification>");
    lemma_find_from(o, spec_open_tag(), 0);
    lemma_find_from(o, spec_close_tag(), 0);
    let lo = spec_open_tag().len();
    let lc = spec_close_tag().len();
    let s = o.subrange(a, b + lc);
    assert(matches_at(o, spec_open_tag(), a));
    assert(matches_at(o, spec_close_tag(), b));
    assert(s.subrange(0, lo as int) =~= spec_open_tag()) by {
        assert forall|k: int| 0 <= k < lo implies s.subrange(0, lo as int)[k] == spec_open_tag()[k] by {
            assert(o[a + k] == spec_open_tag()[k]);
        }
    }
    assert(s.subrange(s.len() - lc, s.len() as int) =~= spec_close_tag()) by {
        assert forall|k: int| 0 <= k < lc implies s.subrange(s.len() - lc, s.len() as int)[k] == spec_close_tag()[k] by {
            assert(o[b + k] == spec_close_tag()[k]);
        }
    }
}

/// Extracts the project specification XML from OpenCode's output: the
/// block from `<project_specification>` to `</project_specification>`, or
/// a fenced `xml` block that holds the opening tag.
pub fn extract_spec_from_output(output: &str) -> (result: Result<String, ForgerError>)
    requires
        !tags_out_of_order(output@),
    ensures
        match (result, extract_spec(output@)) {
            (Ok(s), Ok(t)) => s@ == t,
            (Err(e), Err(m)) => e.message@ == m,
            _ => false,
        },
{
    let o = to_chars(output);
    let open = to_chars("<project_specification>");
    let close = to_chars("</project_specification>");
    let first_open = find_chars(o.as_slice(), open.as_slice(), 0);
    let first_close = find_chars(o.as_slice(), close.as_slice(), 0);
    if let Some(start) = first_open {
        if let Some(end) = first_close {
            proof {
                lemma_find_from(o@, close@, 0);
            }
            let spec = slice_chars(o.as_slice(), start, end + close.len());
            return Ok(from_chars(spec.as_slice()));
        }
    }
    let fence = to_chars("```xml");
    let fend = to_chars("```\n");
    if let Some(st) = find_chars(o.as_slice(), fence.as_slice(), 0) {
        proof {
            lemma_find_from(o@, fence@, 0);
        }
        if let Some(end) = find_chars(o.as_slice(), fend.as_slice(), st) {
            proof {
                lemma_find_from(o@, fend@, st as int);
                lemma_fence_end_after(o@, st as int, end as int);
            }
            let block = slice_chars(o.as_slice(), st + 6, end);
            if contains_chars(block.as_slice(), open.as_slice()) {
                let t = trim_chars(block.as_slice());
                return Ok(from_chars(t.as_slice()));
            }
        }
    }
    let name_tag = to_chars("<project_name>");
    let overview_tag = to_chars("<overview>");
    if contains_chars(o.as_slice(), name_tag.as_slice()) && contains_chars(
        o.as_slice(),
        overview_tag.as_slice(),
    ) {
        let msg = from_chars(
            to_chars(
                "Could not extract complete specification. The AI response may be malformed. Please try again.",
            ).as_slice(),
        );
        return Err(ForgerError::new(msg));
    }
    let mut msg = String::new();
    push_str(
        &mut msg,
        "No project specification found in OpenCode output. The AI may have encountered an error or produced unexpected output.\n\nPartial output:\n",
    );
    let n = if o.len() <= 500 { o.len() } else { 500 };
    let head = slice_chars(o.as_slice(), 0, n);
    push_chars(&mut msg, head.as_slice());
    proof {
        assert(head@ =~= take_spec(o@, 500));
    }
    Err(ForgerError::new(msg))
}

/// A "```\n" found from the start of a "```xml" lies past its six characters.
proof fn lemma_fence_end_after(o: Seq<char>, st: int, end: int)
    requires
        matches_at(o, "```xml"@, st),
        matches_at(o, "```\n"@, end),
        st <= end,
    ensures
        st + 6 <= end,
{
    reveal_strlit("```xml");
    reveal_strlit("```\n");
    assert(o[st + 3] == 'x');
    assert(o[st + 4] == 'm');
    assert(o[st + 5] == 'l');
    if end < st + 6 {
        assert(o[end + 0] == '`');
        assert(o[end + 3] == '\n');
    }
}

} // verus!
