use vstd::prelude::*;
use vstd::rwlock::{ReadHandle, RwLock, RwLockPredicate};
use vstd::string::StringExecFns;

use crate::filter::RecordFilter;
use crate::format::{effective_target, format_line};
use crate::install::{SetupError, SinkSlot};
use crate::pattern::TargetPattern;
use crate::record::{render_record, RecordModel};
use crate::severity::Severity;
use crate::sink::{LineSink, OutputError};

verus! {

/// The lock predicate of the shared buffer: any text value may be stored.
pub struct BufferPred;

impl RwLockPredicate<String> for BufferPred {
    open spec fn inv(self, v: String) -> bool {
        true
    }
}

/// A reference to the buffered data. Holding it keeps the shared buffer
/// read-locked, so logging blocks until `release` is called.
pub struct BufferLockGuard<'a> {
    handle: ReadHandle<'a, String, BufferPred>,
}

impl<'a> BufferLockGuard<'a> {
    /// The buffered text this guard gives access to.
    pub closed spec fn contents_spec(&self) -> Seq<char> {
        self.handle.view()@
    }

    /// The buffered text: every line accepted since the last clear or dump,
    /// each followed by a line break, in arrival order.
    pub fn contents(&self) -> (r: &str)
        ensures
            r@ == self.contents_spec(),
    {
        self.handle.borrow().as_str()
    }

    /// Releases the read lock, letting writers proceed.
    pub fn release(self) {
        self.handle.release_read();
    }
}

/// Appends what one record contributes to a buffer: its rendered line and a
/// line break when the filter retains it, nothing otherwise.
pub fn append_record(
    f: &RecordFilter,
    buffer: &mut String,
    level: Severity,
    target: &str,
    module_name: Option<&str>,
    message: &str,
)
    ensures
        final(buffer)@ == old(buffer)@ + render_record(
            *f,
            (RecordModel {
                level,
                target: target@,
                module_name: (match module_name {
                    Some(m) => Some(m@),
                    None => None,
                }),
                message: message@,
            }),
        ),
{
    if f.accepts(level, target) {
        let line = format_line(effective_target(target, module_name), level, message);
        buffer.append(line.as_str());
        buffer.append("\n");
    }
    proof {
        let rec = RecordModel {
            level,
            target: target@,
            module_name: (match module_name {
                Some(m) => Some(m@),
                None => None,
            }),
            message: message@,
        };
        assert(buffer@ =~= old(buffer)@ + render_record(*f, rec));
    }
}

/// Writes a buffer's whole contents to `out`; clears the buffer exactly when
/// the write succeeds, and leaves both buffer and sink unchanged when it
/// fails.
pub fn dump_buffer<W: LineSink>(buffer: &mut String, out: &mut W) -> (r: Result<(), OutputError>)
    ensures
        r is Ok ==> final(out).received() == old(out).received() + old(buffer)@
            && final(buffer)@ == Seq::<char>::empty(),
        r is Err ==> final(out).received() == old(out).received()
            && final(buffer)@ == old(buffer)@,
{
    match out.write_str(buffer.as_str()) {
        Ok(()) => {
            *buffer = String::new();
            Ok(())
        },
        Err(e) => Err(e),
    }
}

/// A blocking memory logger: one growable text buffer behind a verified
/// reader-writer lock. Logging and read operations may block on the lock,
/// and at most one of them runs at a time.
pub struct MemoryLogger {
    filter: RecordFilter,
    buffer: RwLock<String, BufferPred>,
}

impl MemoryLogger {
    /// The configured filter.
    pub closed spec fn config(&self) -> RecordFilter {
        self.filter
    }

    /// Installs a new logger in `slot`. Succeeds exactly when the slot was
    /// free; an earlier installation is never overwritten. The new logger
    /// holds an empty buffer and the given configuration.
    pub fn setup(
        slot: &mut SinkSlot,
        min_level: Severity,
        target_pattern: Option<TargetPattern>,
    ) -> (r: Result<MemoryLogger, SetupError>)
        ensures
            r is Ok <==> !old(slot).installed(),
            final(slot).installed(),
            r matches Ok(l) ==> l.config() == (RecordFilter { min_level, target_pattern }),
            r matches Err(e) ==> e == SetupError::AlreadyInstalled,
    {
        match slot.claim() {
            Ok(()) => Ok(
                MemoryLogger {
                    filter: RecordFilter { min_level, target_pattern },
                    buffer: RwLock::new(String::new(), Ghost(BufferPred)),
                },
            ),
            Err(e) => Err(e),
        }
    }

    /// The facade's pre-construction check: whether a record with this level
    /// and raw target would be retained.
    pub fn enabled(&self, level: Severity, target: &str) -> (r: bool)
        ensures
            r == self.config().accepts_spec(level, target@),
    {
        self.filter.accepts(level, target)
    }

    /// Delivers one record: if the filter retains it, its rendered line and a
    /// line break are appended to the shared buffer. The whole line is
    /// appended within one critical section of the write lock, so concurrent
    /// calls never interleave within a line.
    pub fn log(&self, level: Severity, target: &str, module_name: Option<&str>, message: &str) {
        let (mut buffer, handle) = self.buffer.acquire_write();
        append_record(&self.filter, &mut buffer, level, target, module_name, message);
        handle.release_write(buffer);
    }

    /// Locks the buffer for reading and returns a guard over its contents.
    /// Logging blocks until the guard is released.
    pub fn read(&self) -> (r: BufferLockGuard<'_>) {
        let handle = self.buffer.acquire_read();
        BufferLockGuard { handle }
    }

    /// Writes the whole buffer to `out` and, exactly when the write succeeds,
    /// clears the buffer; on failure the buffer keeps its contents and the
    /// sink is unchanged. Runs under the write lock, so it is atomic with
    /// respect to concurrent `log`, `read` and `clear` calls.
    pub fn dump<W: LineSink>(&self, out: &mut W) -> (r: Result<(), OutputError>)
        ensures
            r is Ok ==> exists|text: Seq<char>|
                final(out).received() == old(out).received() + text,
            r is Err ==> final(out).received() == old(out).received(),
    {
        let (mut buffer, handle) = self.buffer.acquire_write();
        let ghost pending = buffer@;
        let r = dump_buffer(&mut buffer, out);
        handle.release_write(buffer);
        proof {
            if r is Ok {
                assert(out.received() == old(out).received() + pending);
            }
        }
        r
    }

    /// Removes and returns the whole buffer contents, leaving it empty, under
    /// the write lock.
    pub fn take(&self) -> String {
        let (buffer, handle) = self.buffer.acquire_write();
        handle.release_write(String::new());
        buffer
    }

    /// Empties the buffer under the write lock.
    pub fn clear(&self) {
        let (_buffer, handle) = self.buffer.acquire_write();
        handle.release_write(String::new());
    }
}

} // verus!
