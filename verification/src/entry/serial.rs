//! The serial line as a console.

use vstd::prelude::*;
use vstd::string::StrSliceExecFns;
use vstd::string::StringExecFns;

use crate::arch::aarch64::Cpu;
use crate::console::{Console, WriteError};
use crate::cpu::CpuOps;
use crate::sync::SpinLock;

verus! {

/// The bytes that go out on the line for `text`: of each character its lowest
/// eight bits.
pub open spec fn line_bytes(text: Seq<char>) -> Seq<u8> {
    Seq::new(text.len(), |i: int| text[i] as u8)
}

/// The bytes that go out on the line for `s`.
pub fn encode(s: &str) -> (r: Vec<u8>)
    ensures
        r@ == line_bytes(s@),
{
    let n = s.unicode_len();
    let mut bytes: Vec<u8> = Vec::new();
    let mut i: usize = 0;
    while i < n
        invariant
            i <= n,
            n == s@.len(),
            bytes@ == line_bytes(s@.subrange(0, i as int)),
        decreases n - i,
    {
        let c = s.get_char(i);
        bytes.push(c as u8);
        i += 1;
        assert(bytes@ =~= line_bytes(s@.subrange(0, i as int)));
    }
    assert(s@.subrange(0, n as int) =~= s@);
    bytes
}

/// A console on the serial line. The line is behind a lock, and a write holds
/// the lock from its first byte to its last. What went out on the line is
/// kept in the order in which it went out, and so is the text it stood for.
pub struct SerialConsole {
    lock: SpinLock<Vec<u8>, Cpu>,
    cpu: Cpu,
    written: String,
}

impl SerialConsole {
    /// The bytes that went out on the line.
    pub closed spec fn spec_sent(&self) -> Seq<u8> {
        self.lock.value()@
    }

    /// The core that the console runs on.
    pub closed spec fn spec_cpu(&self) -> Cpu {
        self.cpu
    }

    /// A console with a silent line, on the core `cpu`.
    pub fn new(cpu: Cpu) -> (r: Self)
        ensures
            r.output()@ == Seq::<char>::empty(),
            r.spec_sent() == Seq::<u8>::empty(),
            r.reliable(),
            r.spec_cpu() == cpu,
    {
        SerialConsole { lock: SpinLock::new(Vec::new()), cpu, written: String::new() }
    }

    /// The bytes that went out on the line.
    pub fn sent(&self) -> (r: &Vec<u8>)
        ensures
            r@ == self.spec_sent(),
    {
        self.lock.peek()
    }
}

impl Console for SerialConsole {
    closed spec fn output(&self) -> String {
        self.written
    }

    /// The console takes text whenever its lock is free.
    closed spec fn reliable(&self) -> bool {
        !self.lock.is_locked()
    }

    open spec fn spec_label(&self) -> &'static str {
        "QUMUSerialConsole"
    }

    fn label(&self) -> (r: &'static str) {
        "QUMUSerialConsole"
    }

    /// Puts the bytes of `s` on the line, under the lock. The write fails,
    /// and nothing goes out, if the lock is held already.
    fn write_str(&mut self, s: &str) -> (r: Result<(), WriteError>)
        ensures
            r is Ok ==> final(self).spec_sent() == old(self).spec_sent() + line_bytes(s@),
            r is Err ==> final(self).spec_sent() == old(self).spec_sent(),
            final(self).spec_cpu().interrupt_state() == old(self).spec_cpu().interrupt_state(),
    {
        if self.lock.is_locked() {
            assert(self.output()@ =~= self.output()@ + s@.subrange(0, 0));
            return Err(WriteError);
        }
        let bytes = encode(s);
        let mut guard = self.lock.lock(&mut self.cpu);
        let line = guard.deref_mut();
        let mut i: usize = 0;
        while i < bytes.len()
            invariant
                i <= bytes.len(),
                line@ == old(self).spec_sent() + bytes@.subrange(0, i as int),
            decreases bytes.len() - i,
        {
            line.push(bytes[i]);
            i += 1;
            assert(line@ =~= old(self).spec_sent() + bytes@.subrange(0, i as int));
        }
        assert(bytes@.subrange(0, i as int) =~= bytes@);
        guard.unlock(&mut self.cpu);
        self.written.append(s);
        Ok(())
    }
}

} // verus!
