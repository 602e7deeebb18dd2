//! The text sink that the kernel writes its diagnostics to.

use vstd::prelude::*;

verus! {

/// A write that the console did not take in full.
#[derive(Copy, Clone, Debug, PartialEq, Eq, Structural)]
pub struct WriteError;

/// A sink for diagnostic text, supplied by a platform driver.
///
/// `output`, `reliable` and `spec_label` are what the contracts speak of;
/// each console says what they are.
pub trait Console: Sized {
    /// The text that the console has taken so far.
    spec fn output(&self) -> String;

    /// Whether the console takes every write in full.
    spec fn reliable(&self) -> bool;

    /// The name under which the console appears in a dump of the kernel
    /// state: what [`Console::label`] returns.
    spec fn spec_label(&self) -> &'static str;

    fn label(&self) -> (r: &'static str)
        ensures
            r@ == self.spec_label()@,
    ;

    /// Writes `s`. A failed write may have written the beginning of `s`,
    /// and nothing else.
    fn write_str(&mut self, s: &str) -> (r: Result<(), WriteError>)
        ensures
            final(self).spec_label()@ == old(self).spec_label()@,
            final(self).reliable() == old(self).reliable(),
            old(self).reliable() ==> r is Ok,
            r is Ok ==> final(self).output()@ == old(self).output()@ + s@,
            r is Err ==> written_in_part(old(self).output()@, s@, final(self).output()@),
    ;
}

/// Whether `after` is `before` followed by a beginning of `text`.
pub open spec fn written_in_part(before: Seq<char>, text: Seq<char>, after: Seq<char>) -> bool {
    exists|n: int| 0 <= n <= text.len() && after == before + #[trigger] text.subrange(0, n)
}

/// What one write of `text` does to a console, whether it fails or not:
/// `after` has taken `text` or a beginning of it, and all of it if `before`
/// is reliable.
pub open spec fn wrote<C: Console>(before: C, text: Seq<char>, after: C) -> bool {
    &&& after.spec_label()@ == before.spec_label()@
    &&& after.reliable() == before.reliable()
    &&& before.reliable() ==> after.output()@ == before.output()@ + text
    &&& written_in_part(before.output()@, text, after.output()@)
}

/// The texts of `lines`, one after the other.
pub open spec fn concat(lines: Seq<Seq<char>>) -> Seq<char>
    decreases lines.len(),
{
    if lines.len() == 0 {
        Seq::<char>::empty()
    } else {
        concat(lines.drop_last()) + lines.last()
    }
}

/// Whether `after` is `before` followed by a beginning of each of `lines`
/// in turn.
pub open spec fn written_in_parts(before: Seq<char>, lines: Seq<Seq<char>>, after: Seq<char>) -> bool
    decreases lines.len(),
{
    if lines.len() == 0 {
        after == before
    } else {
        exists|mid: Seq<char>|
            written_in_parts(before, lines.drop_last(), mid) && #[trigger] written_in_part(
                mid,
                lines.last(),
                after,
            )
    }
}

/// What writing `lines` one by one does to a console, whether writes fail or
/// not: `after` has taken a beginning of each line in turn, and every line in
/// full if `before` is reliable.
pub open spec fn wrote_lines<C: Console>(before: C, lines: Seq<Seq<char>>, after: C) -> bool {
    &&& after.spec_label()@ == before.spec_label()@
    &&& after.reliable() == before.reliable()
    &&& before.reliable() ==> after.output()@ == before.output()@ + concat(lines)
    &&& written_in_parts(before.output()@, lines, after.output()@)
}

/// Writing no line leaves a console as it is.
pub proof fn lemma_wrote_no_line<C: Console>(console: C)
    ensures
        wrote_lines(console, Seq::<Seq<char>>::empty(), console),
{
    assert(console.output()@ + concat(Seq::<Seq<char>>::empty()) =~= console.output()@);
}

/// One write is one line written.
pub proof fn lemma_wrote_one_line<C: Console>(before: C, text: Seq<char>, after: C)
    requires
        wrote(before, text, after),
    ensures
        wrote_lines(before, seq![text], after),
{
    lemma_wrote_no_line(before);
    lemma_wrote_lines_push(before, Seq::<Seq<char>>::empty(), before, text, after);
    assert(Seq::<Seq<char>>::empty().push(text) =~= seq![text]);
}

/// One more write extends what was written line by line.
pub proof fn lemma_wrote_lines_push<C: Console>(
    before: C,
    lines: Seq<Seq<char>>,
    mid: C,
    text: Seq<char>,
    after: C,
)
    requires
        wrote_lines(before, lines, mid),
        wrote(mid, text, after),
    ensures
        wrote_lines(before, lines.push(text), after),
{
    let longer = lines.push(text);
    assert(longer.drop_last() =~= lines);
    assert(longer.last() == text);
    assert(written_in_parts(before.output()@, longer.drop_last(), mid.output()@));
    if before.reliable() {
        assert(after.output()@ =~= before.output()@ + concat(longer));
    }
    assert(written_in_part(mid.output()@, longer.last(), after.output()@));
    assert(written_in_parts(before.output()@, longer, after.output()@));
}

/// Line by line, a console keeps its label and its reliability, and its
/// output only grows.
pub proof fn lemma_wrote_lines<C: Console>(before: C, lines: Seq<Seq<char>>, after: C)
    requires
        wrote_lines(before, lines, after),
    ensures
        after.spec_label()@ == before.spec_label()@,
        after.reliable() == before.reliable(),
        before.output()@.is_prefix_of(after.output()@),
{
    lemma_written_in_parts_grows(before.output()@, lines, after.output()@);
}

/// What is written in parts begins with what was there before.
pub proof fn lemma_written_in_parts_grows(before: Seq<char>, lines: Seq<Seq<char>>, after: Seq<char>)
    requires
        written_in_parts(before, lines, after),
    ensures
        before.is_prefix_of(after),
    decreases lines.len(),
{
    if lines.len() > 0 {
        let mid = choose|mid: Seq<char>|
            written_in_parts(before, lines.drop_last(), mid) && #[trigger] written_in_part(
                mid,
                lines.last(),
                after,
            );
        lemma_written_in_parts_grows(before, lines.drop_last(), mid);
    }
}

/// One more line written extends what was written line by line.
pub proof fn lemma_wrote_lines_join<C: Console>(
    before: C,
    lines: Seq<Seq<char>>,
    mid: C,
    text: Seq<char>,
    after: C,
)
    requires
        wrote_lines(before, lines, mid),
        wrote_lines(mid, seq![text], after),
    ensures
        wrote_lines(before, lines.push(text), after),
{
    let one = seq![text];
    assert(one.drop_last() =~= Seq::<Seq<char>>::empty());
    assert(one.last() == text);
    assert(concat(one) =~= text) by {
        assert(concat(one.drop_last()) =~= Seq::<char>::empty());
    }
    let start = choose|start: Seq<char>|
        written_in_parts(mid.output()@, one.drop_last(), start) && #[trigger] written_in_part(
            start,
            one.last(),
            after.output()@,
        );
    assert(start == mid.output()@);
    assert(wrote(mid, text, after));
    lemma_wrote_lines_push(before, lines, mid, text, after);
}

} // verus!
