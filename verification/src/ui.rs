//! Text shown to the user: the cleaned model reply and the pull request preview.
use vstd::prelude::*;

use crate::prompts::fences_stripped;

verus! {

/// Strip leading/trailing markdown code fences if the model wrapped its answer.
pub fn strip_fences(s: &str) -> (r: String)
    ensures
        r@ == fences_stripped(s@),
{
    crate::prompts::strip_fences(s)
}

/// The markdown preview of a pull request: the title as a heading, then the body.
pub open spec fn preview(title: Seq<char>, body: Seq<char>) -> Seq<char> {
    "# "@ + title + "\n\n"@ + body + "\n"@
}

pub fn preview_markdown(title: &str, body: &str) -> (r: String)
    ensures
        r@ == preview(title@, body@),
{
    let mut r = String::from_str("# ");
    r.append(title);
    r.append("\n\n");
    r.append(body);
    r.append("\n");
    r
}

} // verus!
