//! The lines in which a reply is shown.

use vstd::prelude::*;
use crate::ghsa::{Advisory, GhsaResponse};

verus! {

/// The line that frames every advisory.
pub const SEPARATOR: &'static str = "+------------------------------+";

/// What stands in place of a CVSS vector string where there is none.
pub const NO_VECTOR: &'static str = "N/A";

/// The lines of one advisory: identifier, summary, vector or placeholder,
/// severity, and a separator.
pub open spec fn block_of(advisory: Advisory) -> Seq<Seq<char>> {
    seq![
        advisory.id,
        advisory.summary,
        match advisory.cvss_vector {
            Some(vector) => vector,
            None => NO_VECTOR@,
        },
        advisory.severity,
        SEPARATOR@,
    ]
}

/// The lines of a batch: a separator, then the advisories' blocks in the
/// batch's order.
pub open spec fn report_of(batch: Seq<Advisory>) -> Seq<Seq<char>>
    decreases batch.len(),
{
    if batch.len() == 0 {
        seq![SEPARATOR@]
    } else {
        report_of(batch.drop_last()) + block_of(batch.last())
    }
}

/// Lines of text, each taken by its view.
pub open spec fn texts_of(lines: Seq<String>) -> Seq<Seq<char>> {
    lines.map_values(|line: String| line@)
}

/// The lines in which `response` is shown, top to bottom.
pub fn report_lines(response: &GhsaResponse) -> (lines: Vec<String>)
    ensures
        texts_of(lines@) == report_of(response@),
{
    let edges = &response.data.security_advisories.edges;
    let mut lines: Vec<String> = Vec::new();
    lines.push(String::from_str(SEPARATOR));
    assert(texts_of(lines@) == report_of(response@.take(0)));
    let mut i: usize = 0;
    while i < edges.len()
        invariant
            i <= edges.len(),
            edges == &response.data.security_advisories.edges,
            texts_of(lines@) == report_of(response@.take(i as int)),
        decreases edges.len() - i,
    {
        let node = &edges[i].node;
        let ghost before = texts_of(lines@);
        proof {
            assert(response@.take(i + 1).drop_last() == response@.take(i as int));
            assert(response@.take(i + 1).last() == node@);
        }
        lines.push(node.ghsa_id.clone());
        lines.push(node.summary.clone());
        match &node.cvss.vector_string {
            Some(vector) => lines.push(vector.clone()),
            None => lines.push(String::from_str(NO_VECTOR)),
        }
        lines.push(node.severity.clone());
        lines.push(String::from_str(SEPARATOR));
        assert(texts_of(lines@) == before + block_of(node@));
        i += 1;
    }
    assert(response@.take(i as int) == response@);
    lines
}

} // verus!
