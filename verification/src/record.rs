use vstd::prelude::*;

use crate::filter::RecordFilter;
use crate::format::{effective_target_spec, line_spec, newline};
use crate::severity::Severity;

verus! {

/// Mathematical model of one incoming log record: the attributes the sink
/// reads from the facade's record.
pub struct RecordModel {
    pub level: Severity,
    pub target: Seq<char>,
    pub module_name: Option<Seq<char>>,
    pub message: Seq<char>,
}

/// The rendered line of a record, without its trailing line break.
pub open spec fn rendered_line(rec: RecordModel) -> Seq<char> {
    line_spec(effective_target_spec(rec.target, rec.module_name), rec.level, rec.message)
}

/// What one record contributes to a text buffer: its line and a line break if
/// the filter retains it, nothing otherwise.
pub open spec fn render_record(f: RecordFilter, rec: RecordModel) -> Seq<char> {
    if f.accepts_spec(rec.level, rec.target) {
        rendered_line(rec) + newline()
    } else {
        Seq::<char>::empty()
    }
}

/// The text a buffer holds after the records `recs` arrived, in order, at an
/// initially empty buffer.
pub open spec fn render_log(f: RecordFilter, recs: Seq<RecordModel>) -> Seq<char>
    decreases recs.len(),
{
    if recs.len() == 0 {
        Seq::<char>::empty()
    } else {
        render_log(f, recs.drop_last()) + render_record(f, recs.last())
    }
}

} // verus!
