//! Writing to the console that the kernel has registered.

use vstd::prelude::*;
use vstd::string::StringExecFns;

use crate::console::{lemma_wrote_one_line, wrote, Console};
use crate::kernel::{kernel, lemma_with_console, printed, KernelCell};

verus! {

/// A debug message as it is written: marked, and ended by a line feed.
pub open spec fn dbg_line(message: Seq<char>) -> Seq<char> {
    "[DBG] "@ + message + "\n"@
}

/// An error message as it is written: marked, and ended by a line feed.
pub open spec fn err_line(message: Seq<char>) -> Seq<char> {
    "[ERR] "@ + message + "\n"@
}

/// A message as it is written without a mark: ended by a line feed.
pub open spec fn raw_line(message: Seq<char>) -> Seq<char> {
    message + "\n"@
}

/// Writes `text` to the registered console, if there is one. A failed write
/// is passed over.
pub fn print<C: Console>(cell: &mut KernelCell<C>, text: &str)
    ensures
        printed(old(cell).state(), seq![text@], final(cell).state()),
{
    if let Some(console) = cell.console_mut() {
        let ghost before = *console;
        let _ = console.write_str(text);
        proof {
            assert(text@.subrange(0, text@.len() as int) =~= text@);
            assert(wrote(before, text@, *console));
            lemma_wrote_one_line(before, text@, *console);
            lemma_with_console(old(cell).state(), Some(*console));
        }
    }
}

/// The registered console, if there is one.
pub fn console<C: Console>(cell: &KernelCell<C>) -> (r: Option<&C>)
    ensures
        r == match cell.state().spec_console() {
            Some(c) => Some(&c),
            None => None,
        },
{
    kernel(cell).console()
}

/// Writes `message` as a debug message.
pub fn klog<C: Console>(cell: &mut KernelCell<C>, message: &str)
    ensures
        printed(old(cell).state(), seq![dbg_line(message@)], final(cell).state()),
{
    let mut line = String::from_str("[DBG] ");
    line.append(message);
    line.append("\n");
    print(cell, line.as_str());
}

/// Writes `message` as an error message.
pub fn kerr<C: Console>(cell: &mut KernelCell<C>, message: &str)
    ensures
        printed(old(cell).state(), seq![err_line(message@)], final(cell).state()),
{
    let mut line = String::from_str("[ERR] ");
    line.append(message);
    line.append("\n");
    print(cell, line.as_str());
}

/// Writes `message` without a mark.
pub fn kraw<C: Console>(cell: &mut KernelCell<C>, message: &str)
    ensures
        printed(old(cell).state(), seq![raw_line(message@)], final(cell).state()),
{
    let mut line = String::from_str(message);
    line.append("\n");
    print(cell, line.as_str());
}

} // verus!
