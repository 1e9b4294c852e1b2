use vstd::prelude::*;
use crate::service::ReplyV;
use crate::service::ServiceReply;

verus! {

/// The canonical identifier shape: 36 characters in five groups of
/// 8, 4, 4, 4 and 12, with a separating hyphen exactly at positions
/// 8, 13, 18 and 23.
pub open spec fn is_guid_shaped(s: Seq<char>) -> bool {
    &&& s.len() == 36
    &&& forall|i: int|
        0 <= i < 36 ==> ((s[i] == '-') <==> (i == 8 || i == 13 || i == 18 || i == 23))
}

/// The fixed identifier under which the benchmark scheme is stored
/// across runs.
pub open spec fn benchmark_guid() -> Seq<char> {
    "0ec54905-d1ac-43db-a6df-65cbe1a1dccf"@
}

/// The fixed identifier under which the benchmark scheme is stored across
/// runs, as a string.
pub fn benchmark_guid_str() -> (r: &'static str)
    ensures
        r@ == benchmark_guid(),
{
    "0ec54905-d1ac-43db-a6df-65cbe1a1dccf"
}

/// The well-known benchmark identifier is itself in canonical shape.
pub proof fn lemma_benchmark_guid_shaped()
    ensures
        is_guid_shaped(benchmark_guid()),
{
    reveal_strlit("0ec54905-d1ac-43db-a6df-65cbe1a1dccf");
}

/// The leftmost substring of `s` shaped like a canonical scheme identifier —
/// eight, four, four, four and twelve word characters, the groups separated
/// by single hyphens — or `None` when `s` holds no such substring. What
/// counts as a word character is the matching engine's (Unicode) notion; the
/// value is a function of `s` alone.
pub uninterp spec fn first_guid_of(s: Seq<char>) -> Option<Seq<char>>;

/// Relies on regex::Regex::find with the fixed pattern
/// `\w{8}-\w{4}-\w{4}-\w{4}-\w{12}`: `find` returns the leftmost match as a
/// contiguous substring of the haystack; each `\w` matches exactly one word
/// character, which a hyphen is not, and each literal `-` matches a hyphen,
/// so a match is 36 characters long with hyphens exactly at positions
/// 8, 13, 18 and 23. The pattern is a fixed valid expression, so
/// regex::Regex::new cannot fail on it.
#[verifier::external_body]
fn find_guid(text: &str) -> (r: Option<String>)
    ensures
        (r is Some) == (first_guid_of(text@) is Some),
        r matches Some(m) ==> {
            &&& m@ == first_guid_of(text@)->0
            &&& is_guid_shaped(m@)
            &&& exists|i: int|
                0 <= i && i + 36 <= text@.len() && #[trigger] text@.subrange(i, i + 36) == m@
        },
{
    let re = regex::Regex::new(r"\w{8}-\w{4}-\w{4}-\w{4}-\w{12}").unwrap();
    re.find(text).map(|m| m.as_str().to_string())
}

/// What resolution yields for a given service reply: nothing when the query
/// itself failed, else the first identifier-shaped substring of its text.
pub open spec fn unalias_v(r: ReplyV) -> Option<Seq<char>> {
    if r.success {
        first_guid_of(r.output)
    } else {
        None
    }
}

/// Maps the reply to a query for an alias or identifier to the canonical
/// identifier it names: nothing when the query failed or its text holds no
/// identifier-shaped substring, else the first such substring, which is
/// always in canonical shape.
pub fn unalias(reply: &ServiceReply) -> (r: Option<String>)
    ensures
        (r is Some) == (unalias_v(reply@) is Some),
        r matches Some(g) ==> {
            &&& g@ == unalias_v(reply@)->0
            &&& is_guid_shaped(g@)
            &&& exists|i: int|
                0 <= i && i + 36 <= reply.output@.len() && #[trigger] reply.output@.subrange(i, i + 36)
                    == g@
        },
        !reply.success ==> r is None,
{
    if !reply.success {
        None
    } else {
        find_guid(reply.output.as_str())
    }
}

} // verus!
