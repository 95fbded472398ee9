//! Buffers of log output: each record is gathered in a writer, then sent to
//! the console or to the log file when flushed.
use vstd::prelude::*;

verus! {

#[derive(PartialEq, Eq, Structural, Clone, Copy, Debug)]
pub enum LogLevel {
    TRACE,
    DEBUG,
    INFO,
    WARN,
    ERROR,
}

#[derive(Clone, Copy, Debug, Default)]
pub struct MakeConsoleWriter {
    log_file: bool,
}

impl MakeConsoleWriter {
    pub closed spec fn to_log_file(&self) -> bool {
        self.log_file
    }

    /// A maker of writers that go to the log file.
    pub fn new_log_file() -> (r: Self)
        ensures
            r.to_log_file(),
    {
        Self { log_file: true }
    }

    /// A writer for a record at `level`.
    pub fn make_writer_for(&self, level: LogLevel) -> (r: ConsoleWriter)
        ensures
            r.level() == level,
            r.data().len() == 0,
            r.to_log_file() == self.to_log_file(),
    {
        ConsoleWriter { level, data: Vec::new(), log_file: self.log_file }
    }

    /// A writer for a record at the default level, `DEBUG`.
    pub fn make_writer(&self) -> (r: ConsoleWriter)
        ensures
            r.level() == LogLevel::DEBUG,
            r.data().len() == 0,
            r.to_log_file() == self.to_log_file(),
    {
        self.make_writer_for(LogLevel::DEBUG)
    }
}

pub struct ConsoleWriter {
    level: LogLevel,
    data: Vec<u8>,
    log_file: bool,
}

impl ConsoleWriter {
    pub closed spec fn level(&self) -> LogLevel {
        self.level
    }

    pub closed spec fn data(&self) -> Seq<u8> {
        self.data@
    }

    pub closed spec fn to_log_file(&self) -> bool {
        self.log_file
    }

    /// Appends `buf` to the record; all of it is taken.
    pub fn write(&mut self, buf: &[u8]) -> (r: usize)
        ensures
            r == buf@.len(),
            final(self).data() == old(self).data() + buf@,
            final(self).level() == old(self).level(),
            final(self).to_log_file() == old(self).to_log_file(),
    {
        let ghost start = self.data@;
        let mut i: usize = 0;
        while i < buf.len()
            invariant
                0 <= i <= buf@.len(),
                self.data@ == start + buf@.subrange(0, i as int),
                self.level == old(self).level,
                self.log_file == old(self).log_file,
            decreases buf@.len() - i,
        {
            self.data.push(buf[i]);
            proof {
                assert(self.data@ =~= start + buf@.subrange(0, i + 1));
            }
            i = i + 1;
        }
        proof {
            assert(buf@.subrange(0, i as int) =~= buf@);
        }
        buf.len()
    }

    /// The level of the record.
    pub fn get_level(&self) -> (r: LogLevel)
        ensures
            r == self.level(),
    {
        self.level
    }

    /// Whether the record goes to the log file rather than the console.
    pub fn is_log_file(&self) -> (r: bool)
        ensures
            r == self.to_log_file(),
    {
        self.log_file
    }

    /// The bytes gathered so far.
    pub fn contents(&self) -> (r: &Vec<u8>)
        ensures
            r@ == self.data(),
    {
        &self.data
    }
}

} // verus!
