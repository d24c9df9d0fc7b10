use vstd::prelude::*;
use vstd::string::StringExecFns;
use vstd::string::StringSliceAdditionalSpecFns;

verus! {

/// The external writer failed while a dump was writing to it.
#[derive(Clone, Copy, PartialEq, Eq, Structural, Debug)]
pub struct OutputError;

/// A destination that `dump` writes drained lines to, supplied by the caller.
/// A write either appends the whole string to what the sink has received, or
/// fails and leaves it unchanged.
pub trait LineSink {
    /// Everything this sink has accepted so far.
    spec fn received(&self) -> Seq<char>;

    fn write_str(&mut self, s: &str) -> (r: Result<(), OutputError>)
        ensures
            r is Ok ==> final(self).received() == old(self).received() + s@,
            r is Err ==> final(self).received() == old(self).received(),
    ;
}

/// An in-memory sink that accepts every write.
pub struct StringSink {
    pub text: String,
}

impl StringSink {
    pub fn new() -> (r: Self)
        ensures
            r.received() == Seq::<char>::empty(),
    {
        StringSink { text: String::new() }
    }

    /// The received text, for inspection.
    pub fn as_str(&self) -> (r: &str)
        ensures
            r@ == self.received(),
    {
        self.text.as_str()
    }
}

impl LineSink for StringSink {
    open spec fn received(&self) -> Seq<char> {
        self.text@
    }

    fn write_str(&mut self, s: &str) -> (r: Result<(), OutputError>) {
        self.text.append(s);
        Ok(())
    }
}

/// A sink with a fixed capacity in bytes: a write that would exceed it is
/// refused whole.
pub struct BoundedSink {
    pub text: String,
    pub capacity: usize,
}

impl BoundedSink {
    pub fn new(capacity: usize) -> (r: Self)
        ensures
            r.received() == Seq::<char>::empty(),
            r.capacity == capacity,
    {
        BoundedSink { text: String::new(), capacity }
    }
}

impl LineSink for BoundedSink {
    open spec fn received(&self) -> Seq<char> {
        self.text@
    }

    fn write_str(&mut self, s: &str) -> (r: Result<(), OutputError>) {
        if s.len() <= self.capacity && self.text.as_str().len() <= self.capacity - s.len() {
            self.text.append(s);
            Ok(())
        } else {
            Err(OutputError)
        }
    }
}

} // verus!
