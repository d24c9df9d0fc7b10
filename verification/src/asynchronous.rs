use vstd::prelude::*;
use vstd::string::StringExecFns;

use crate::filter::RecordFilter;
use crate::format::{effective_target, format_line, newline};
use crate::install::{SetupError, SinkSlot};
use crate::pattern::TargetPattern;
use crate::record::{rendered_line, RecordModel};
use crate::severity::Severity;
use crate::sink::{LineSink, OutputError};

verus! {

#[verifier::external_type_specification]
#[verifier::external_body]
#[verifier::reject_recursive_types(T)]
pub struct ExSender<T>(flume::Sender<T>);

#[verifier::external_type_specification]
#[verifier::external_body]
#[verifier::reject_recursive_types(T)]
pub struct ExReceiver<T>(flume::Receiver<T>);

/// Relies on `flume::unbounded`: a fresh unbounded channel whose two ends are
/// connected; a push onto it never blocks and never lacks capacity.
#[verifier::external_body]
fn channel_new() -> (r: (flume::Sender<String>, flume::Receiver<String>)) {
    flume::unbounded()
}

/// Relies on `flume::Sender::send` on an unbounded channel: it never blocks,
/// and it enqueues the line and returns `Ok` unless every receiver is gone.
/// The queue is concurrent shared state, so nothing is stated of its contents.
#[verifier::external_body]
fn channel_send(tx: &flume::Sender<String>, line: String) -> (r: bool) {
    tx.send(line).is_ok()
}

/// Relies on `flume::Receiver::drain`: takes every line sitting in the queue
/// at call time, in the order they were enqueued, without blocking or waiting
/// for more.
#[verifier::external_body]
fn channel_drain(rx: &flume::Receiver<String>) -> (r: Vec<String>) {
    rx.drain().collect()
}

/// Renders one record to the line that is queued for it: `Some` exactly when
/// the filter retains the record, carrying the rendered line without a
/// trailing line break.
pub fn render_record_line(
    f: &RecordFilter,
    level: Severity,
    target: &str,
    module_name: Option<&str>,
    message: &str,
) -> (r: Option<String>)
    ensures
        r is Some <==> f.accepts_spec(level, target@),
        r matches Some(l) ==> l@ == rendered_line(
            (RecordModel {
                level,
                target: target@,
                module_name: (match module_name {
                    Some(m) => Some(m@),
                    None => None,
                }),
                message: message@,
            }),
        ),
{
    if f.accepts(level, target) {
        Some(format_line(effective_target(target, module_name), level, message))
    } else {
        None
    }
}

/// The text a sink receives for a drained batch of lines: each line followed
/// by a line break, in order.
pub open spec fn joined_lines(lines: Seq<Seq<char>>) -> Seq<char>
    decreases lines.len(),
{
    if lines.len() == 0 {
        Seq::<char>::empty()
    } else {
        joined_lines(lines.drop_last()) + lines.last() + newline()
    }
}

/// Writes each line, followed by a line break, to `out`, in order. On success
/// the sink has received exactly the joined batch; the first failure stops the
/// writing, leaving the sink with the joined lines before it.
pub fn write_lines<W: LineSink>(lines: &Vec<String>, out: &mut W) -> (r: Result<(), OutputError>)
    ensures
        r is Ok ==> final(out).received() == old(out).received() + joined_lines(lines.deep_view()),
        r is Err ==> exists|k: int|
            0 <= k < lines.deep_view().len() && final(out).received() == old(out).received()
                + joined_lines(#[trigger] lines.deep_view().take(k)),
{
    let ghost all = lines.deep_view();
    let mut i: usize = 0;
    while i < lines.len()
        invariant
            0 <= i <= lines.len(),
            all == lines.deep_view(),
            out.received() == old(out).received() + joined_lines(all.take(i as int)),
        decreases lines.len() - i,
    {
        let mut entry = lines[i].clone();
        entry.append("\n");
        let res = out.write_str(entry.as_str());
        proof {
            assert(all.take(i + 1).drop_last() =~= all.take(i as int));
            assert(all.take(i + 1).last() == all[i as int]);
        }
        match res {
            Ok(()) => {},
            Err(e) => {
                proof {
                    assert(out.received() == old(out).received() + joined_lines(all.take(i as int)));
                }
                return Err(e);
            },
        }
        i = i + 1;
    }
    proof {
        assert(all.take(lines.deep_view().len() as int) =~= all);
    }
    Ok(())
}

/// An asynchronous memory logger: an unbounded multi-producer queue of
/// rendered lines. Logging and read operations never block.
pub struct MemoryLogger {
    filter: RecordFilter,
    tx: flume::Sender<String>,
    rx: flume::Receiver<String>,
}

impl MemoryLogger {
    /// The configured filter.
    pub closed spec fn config(&self) -> RecordFilter {
        self.filter
    }

    /// Installs a new logger in `slot`. Succeeds exactly when the slot was
    /// free; an earlier installation is never overwritten. The new logger
    /// holds an empty queue and the given configuration.
    pub fn setup(
        slot: &mut SinkSlot,
        min_level: Severity,
        target_pattern: Option<TargetPattern>,
    ) -> (r: Result<MemoryLogger, SetupError>)
        ensures
            r is Ok <==> !old(slot).installed(),
            final(slot).installed(),
            r matches Ok(l) ==> l.config() == (RecordFilter { min_level, target_pattern }),
            r matches Err(e) ==> e == SetupError::AlreadyInstalled,
    {
        match slot.claim() {
            Ok(()) => {
                let (tx, rx) = channel_new();
                Ok(MemoryLogger { filter: RecordFilter { min_level, target_pattern }, tx, rx })
            },
            Err(e) => Err(e),
        }
    }

    /// The facade's pre-construction check: whether a record with this level
    /// and raw target would be retained.
    pub fn enabled(&self, level: Severity, target: &str) -> (r: bool)
        ensures
            r == self.config().accepts_spec(level, target@),
    {
        self.filter.accepts(level, target)
    }

    /// Delivers one record: if the filter retains it, its rendered line is
    /// pushed onto the queue. Never blocks; the push is refused only if the
    /// receiving side is gone, which cannot happen while this logger lives.
    pub fn log(&self, level: Severity, target: &str, module_name: Option<&str>, message: &str) {
        match render_record_line(&self.filter, level, target, module_name, message) {
            Some(line) => {
                let _delivered = channel_send(&self.tx, line);
            },
            None => {},
        }
    }

    /// Drains and returns every line queued so far, in arrival order, without
    /// blocking; an immediate second call with no writes in between returns
    /// nothing.
    pub fn read(&self) -> Vec<String> {
        channel_drain(&self.rx)
    }

    /// Drains every queued line and writes each, followed by a line break, to
    /// `out`, in arrival order. Whatever happens, the sink only grows.
    pub fn dump<W: LineSink>(&self, out: &mut W) -> (r: Result<(), OutputError>)
        ensures
            exists|text: Seq<char>| final(out).received() == old(out).received() + text,
    {
        let lines = channel_drain(&self.rx);
        let r = write_lines(&lines, out);
        proof {
            if r is Ok {
                assert(out.received() == old(out).received() + joined_lines(lines.deep_view()));
            }
        }
        r
    }
}

} // verus!
