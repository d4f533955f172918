//! Laws of the parser that relate several runs of it, proved once and for
//! all against the grammar.

use vstd::prelude::*;

use crate::grammar::date_at;
use crate::grammar::flag_at;
use crate::grammar::is_ws;
use crate::grammar::lemma_token_end;
use crate::grammar::line_text;
use crate::grammar::line_view;
use crate::grammar::prio_at;
use crate::grammar::scan_from;
use crate::grammar::text_start;
use crate::grammar::token_end;
use crate::grammar::token_yield;

verus! {

/// The tags, projects and pairs that the tail scanner yields do not depend
/// on where the tail sits inside its line; only warning spans do.
pub proof fn lemma_scan_tags_base(t: Seq<char>, b1: int, b2: int, j: int)
    ensures
        scan_from(t, b1, j).contexts == scan_from(t, b2, j).contexts,
        scan_from(t, b1, j).projects == scan_from(t, b2, j).projects,
        scan_from(t, b1, j).pairs == scan_from(t, b2, j).pairs,
    decreases t.len() - j,
{
    if j < 0 || j >= t.len() {
    } else if is_ws(t[j]) {
        lemma_scan_tags_base(t, b1, b2, j + 1);
    } else {
        lemma_token_end(t, j);
        let e = token_end(t, j);
        lemma_scan_tags_base(t, b1, b2, e);
        assert(token_yield(t, b1, j, e).contexts == token_yield(t, b2, j, e).contexts);
        assert(token_yield(t, b1, j, e).projects == token_yield(t, b2, j, e).projects);
        assert(token_yield(t, b1, j, e).pairs == token_yield(t, b2, j, e).pairs);
    }
}

/// Round-trip stability of the tail scanner: take any line, parse it, and
/// feed the entry's `text` back in as a fresh line. As long as that text
/// does not itself begin with a prefix field (a completion flag, a priority
/// token or a date token), the fresh parse consumes no prefix — no
/// completion, no priority, no dates — returns the same text verbatim, and
/// extracts exactly the same context tags, project tags and pairs.
pub proof fn lemma_text_reparses_clean(line: Seq<char>)
    requires
        !flag_at(line_text(line)),
        !prio_at(line_text(line), 0),
        !date_at(line_text(line), 0),
    ensures
        !line_view(line_text(line)).is_completed,
        line_view(line_text(line)).priority is None,
        line_view(line_text(line)).date_completed is None,
        line_view(line_text(line)).date_creation is None,
        line_view(line_text(line)).text == line_text(line),
        line_view(line_text(line)).context_tags == line_view(line).context_tags,
        line_view(line_text(line)).project_tags == line_view(line).project_tags,
        line_view(line_text(line)).pair_tags == line_view(line).pair_tags,
{
    let t = line_text(line);
    assert(text_start(t) == 0);
    assert(line_text(t) =~= t);
    lemma_scan_tags_base(t, text_start(line), 0, 0);
}

} // verus!
