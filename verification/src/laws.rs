use vstd::prelude::*;

use crate::asynchronous::joined_lines;
use crate::filter::RecordFilter;
use crate::format::newline;
use crate::record::{render_log, render_record, rendered_line, RecordModel};

verus! {

/// The rendered lines, each with its trailing line break, of exactly the
/// records of `recs` that the filter retains, in arrival order.
pub open spec fn retained_lines(f: RecordFilter, recs: Seq<RecordModel>) -> Seq<Seq<char>> {
    recs.filter(|r: RecordModel| f.accepts_spec(r.level, r.target)).map_values(
        |r: RecordModel| rendered_line(r) + newline(),
    )
}

/// The rendered lines, without line breaks, of exactly the records of `recs`
/// that the filter retains, in arrival order: what the non-blocking queue
/// holds after `recs` arrived at an empty queue.
pub open spec fn retained_bare_lines(f: RecordFilter, recs: Seq<RecordModel>) -> Seq<Seq<char>> {
    recs.filter(|r: RecordModel| f.accepts_spec(r.level, r.target)).map_values(
        |r: RecordModel| rendered_line(r),
    )
}

/// Concatenation of a sequence of lines.
pub open spec fn concat_lines(lines: Seq<Seq<char>>) -> Seq<char>
    decreases lines.len(),
{
    if lines.len() == 0 {
        Seq::<char>::empty()
    } else {
        concat_lines(lines.drop_last()) + lines.last()
    }
}

/// The text observable after any sequence of records arrived at an initially
/// empty buffer is exactly the concatenation of the formatted lines of the
/// retained records, each terminated by a line break, in arrival order:
/// nothing else is ever observable, and nothing retained is lost.
pub proof fn lemma_observable_lines(f: RecordFilter, recs: Seq<RecordModel>)
    ensures
        render_log(f, recs) == concat_lines(retained_lines(f, recs)),
    decreases recs.len(),
{
    reveal(Seq::filter);
    let pred = |r: RecordModel| f.accepts_spec(r.level, r.target);
    let to_line = |r: RecordModel| rendered_line(r) + newline();
    if recs.len() == 0 {
        assert(retained_lines(f, recs) =~= Seq::<Seq<char>>::empty());
    } else {
        let head = recs.drop_last();
        let last = recs.last();
        lemma_observable_lines(f, head);
        let sub = head.filter(pred);
        if pred(last) {
            assert(recs.filter(pred) == sub.push(last));
            assert(sub.push(last).map_values(to_line) =~= sub.map_values(to_line).push(
                to_line(last),
            ));
            let mapped = sub.map_values(to_line);
            assert(mapped.push(to_line(last)).drop_last() =~= mapped);
            assert(render_log(f, recs) =~= concat_lines(retained_lines(f, recs)));
        } else {
            assert(recs.filter(pred) == sub);
            assert(render_record(f, last) == Seq::<char>::empty());
            assert(render_log(f, recs) =~= concat_lines(retained_lines(f, recs)));
        }
    }
}

/// Both modes observe the same text: draining the non-blocking queue after
/// `recs` arrived and writing each held line with a line break yields exactly
/// the text the blocking buffer holds after the same records.
pub proof fn lemma_modes_agree(f: RecordFilter, recs: Seq<RecordModel>)
    ensures
        joined_lines(retained_bare_lines(f, recs)) == render_log(f, recs),
    decreases recs.len(),
{
    reveal(Seq::filter);
    let pred = |r: RecordModel| f.accepts_spec(r.level, r.target);
    let bare = |r: RecordModel| rendered_line(r);
    if recs.len() == 0 {
        assert(retained_bare_lines(f, recs) =~= Seq::<Seq<char>>::empty());
    } else {
        let head = recs.drop_last();
        let last = recs.last();
        lemma_modes_agree(f, head);
        let sub = head.filter(pred);
        if pred(last) {
            assert(recs.filter(pred) == sub.push(last));
            assert(sub.push(last).map_values(bare) =~= sub.map_values(bare).push(bare(last)));
            let mapped = sub.map_values(bare);
            assert(mapped.push(bare(last)).drop_last() =~= mapped);
            assert(joined_lines(retained_bare_lines(f, recs)) =~= render_log(f, recs));
        } else {
            assert(recs.filter(pred) == sub);
            assert(render_record(f, last) == Seq::<char>::empty());
            assert(joined_lines(retained_bare_lines(f, recs)) =~= render_log(f, recs));
        }
    }
}

/// Draining is idempotent: a dump that succeeds leaves the buffer empty, and
/// a second immediate drain of an empty buffer adds nothing to any sink and
/// observes no text.
pub proof fn lemma_drain_of_empty_adds_nothing(received: Seq<char>, buffer: Seq<char>)
    requires
        buffer.len() == 0,
    ensures
        received + buffer == received,
{
    assert(received + buffer =~= received);
}

} // verus!
