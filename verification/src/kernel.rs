//! The kernel and the states it goes through while it comes up.

use vstd::prelude::*;
use vstd::string::StringExecFns;

use crate::arch;
use crate::boot::BootInfo;
use crate::arch::ArchImpl;
use crate::console::{lemma_wrote_lines_join, lemma_wrote_no_line, wrote_lines, Console};
use crate::print::{dbg_line, err_line, kerr, klog, kraw, raw_line};
use crate::text::{pad, push_pad, wrapped, wrapped_text};

verus! {

/// The kernel once it is up. It keeps the console and nothing else.
pub struct Kernel<C: Console> {
    console: Option<C>,
}

/// What the boot code hands over to complete initialisation.
pub struct KernelArgs<B: BootInfo, C: Console> {
    pub boot_info: B,
    pub console: Option<C>,
}

/// The states of the kernel, in the order in which it goes through them.
pub enum KernelState<C: Console> {
    Uninit,
    Init1(Option<C>),
    Init2(KernelArgs<arch::BootInfo, C>),
    Ready(Kernel<C>),
}

/// The place where the state of the kernel is kept. Whoever holds it mutably
/// is the one writer of the state.
pub struct KernelCell<C: Console> {
    inner: KernelState<C>,
}

/// A console, or the lack of one, as it is written in a dump, `depth` levels
/// deep.
pub open spec fn spec_debug_console<C: Console>(console: Option<C>, depth: nat) -> Seq<char> {
    match console {
        None => "None"@,
        Some(c) => wrapped("Some"@, c.spec_label()@, depth),
    }
}

/// A console, or the lack of one, as it is written in a dump, `depth` levels
/// deep.
pub fn debug_console_text<C: Console>(console: &Option<C>, depth: usize) -> (r: String)
    requires
        depth < usize::MAX,
    ensures
        r@ == spec_debug_console(*console, depth as nat),
{
    match console {
        None => String::from_str("None"),
        Some(c) => {
            wrapped_text("Some", c.label(), depth)
        },
    }
}

impl<C: Console> Kernel<C> {
    /// The console that the kernel writes to, if it has one.
    pub closed spec fn spec_console(&self) -> Option<C> {
        self.console
    }

    /// The kernel as it is written in a dump, `depth` levels deep.
    pub open spec fn spec_debug(&self, depth: nat) -> Seq<char> {
        "Kernel {\n"@ + pad(depth + 1) + "console: "@ + spec_debug_console(
            self.spec_console(),
            depth + 1,
        ) + ",\n"@ + pad(depth) + "}"@
    }

    /// The kernel as it is written in a dump, `depth` levels deep.
    pub fn debug_text(&self, depth: usize) -> (r: String)
        requires
            depth + 1 < usize::MAX,
        ensures
            r@ == self.spec_debug(depth as nat),
    {
        let mut text = String::from_str("Kernel {\n");
        push_pad(&mut text, depth + 1);
        text.append("console: ");
        let console = debug_console_text(&self.console, depth + 1);
        text.append(console.as_str());
        text.append(",\n");
        push_pad(&mut text, depth);
        text.append("}");
        text
    }
}

impl<C: Console> KernelArgs<arch::BootInfo, C> {
    /// The arguments as they are written in a dump, `depth` levels deep.
    pub open spec fn spec_debug(&self, depth: nat) -> Seq<char> {
        "KernelArgs {\n"@ + pad(depth + 1) + "boot_info: "@ + self.boot_info.spec_debug(depth + 1)
            + ",\n"@ + pad(depth + 1) + "console: "@ + spec_debug_console(self.console, depth + 1)
            + ",\n"@ + pad(depth) + "}"@
    }

    /// The arguments as they are written in a dump, `depth` levels deep.
    pub fn debug_text(&self, depth: usize) -> (r: String)
        requires
            depth + 3 < usize::MAX,
        ensures
            r@ == self.spec_debug(depth as nat),
    {
        let mut text = String::from_str("KernelArgs {\n");
        push_pad(&mut text, depth + 1);
        text.append("boot_info: ");
        let boot_info = self.boot_info.debug_text(depth + 1);
        text.append(boot_info.as_str());
        text.append(",\n");
        push_pad(&mut text, depth + 1);
        text.append("console: ");
        let console = debug_console_text(&self.console, depth + 1);
        text.append(console.as_str());
        text.append(",\n");
        push_pad(&mut text, depth);
        text.append("}");
        text
    }
}

impl<C: Console> KernelState<C> {
    /// The place of the state in the order of states, from 0 for `Uninit` to
    /// 3 for `Ready`.
    pub open spec fn rank(&self) -> nat {
        match self {
            KernelState::Uninit => 0,
            KernelState::Init1(_) => 1,
            KernelState::Init2(_) => 2,
            KernelState::Ready(_) => 3,
        }
    }

    /// Whether `next` is a state that follows this one directly.
    pub open spec fn precedes(&self, next: KernelState<C>) -> bool {
        next.rank() == self.rank() + 1
    }

    /// The console that is registered in this state, if one is.
    pub open spec fn spec_console(&self) -> Option<C> {
        match self {
            KernelState::Uninit => None,
            KernelState::Init1(console) => *console,
            KernelState::Init2(args) => args.console,
            KernelState::Ready(kernel) => kernel.spec_console(),
        }
    }

    /// This state with `console` in the place of its console. `Uninit` has no
    /// such place and stays as it is.
    pub open spec fn with_console(self, console: Option<C>) -> Self {
        match self {
            KernelState::Uninit => KernelState::Uninit,
            KernelState::Init1(_) => KernelState::Init1(console),
            KernelState::Init2(args) => KernelState::Init2(
                KernelArgs { boot_info: args.boot_info, console },
            ),
            KernelState::Ready(_) => KernelState::Ready(kernel_with(console)),
        }
    }

    /// The state as it is written in a dump, `depth` levels deep. Each state
    /// shows what it holds, and nothing of the states before or after it.
    pub open spec fn spec_debug(&self, depth: nat) -> Seq<char> {
        match self {
            KernelState::Uninit => "Uninit"@,
            KernelState::Init1(console) => wrapped(
                "Init1"@,
                spec_debug_console(*console, depth + 1),
                depth,
            ),
            KernelState::Init2(args) => wrapped("Init2"@, args.spec_debug(depth + 1), depth),
            KernelState::Ready(kernel) => wrapped("Ready"@, kernel.spec_debug(depth + 1), depth),
        }
    }

    pub fn console(&self) -> (r: Option<&C>)
        ensures
            r == match self.spec_console() {
                Some(c) => Some(&c),
                None => None,
            },
    {
        match self {
            KernelState::Uninit => None,
            KernelState::Init1(console) => console.as_ref(),
            KernelState::Init2(args) => args.console.as_ref(),
            KernelState::Ready(kernel) => kernel.console.as_ref(),
        }
    }

    /// The registered console, for writing to it.
    pub fn console_mut(&mut self) -> (r: Option<&mut C>)
        ensures
            match r {
                Some(c) => {
                    &&& old(self).spec_console() == Some(*c)
                    &&& *final(self) == old(self).with_console(Some(*final(c)))
                },
                None => old(self).spec_console() is None && *final(self) == *old(self),
            },
    {
        match self {
            KernelState::Uninit => None,
            KernelState::Init1(console) => console.as_mut(),
            KernelState::Init2(args) => args.console.as_mut(),
            KernelState::Ready(kernel) => kernel.console.as_mut(),
        }
    }

    #[verifier::when_used_as_spec(spec_is_ready)]
    pub fn is_ready(&self) -> (r: bool)
        ensures
            r == (self is Ready),
    {
        matches!(self, KernelState::Ready(..))
    }

    pub open spec fn spec_is_ready(&self) -> bool {
        self is Ready
    }

    /// The kernel of a state that is `Ready`.
    pub fn as_ready(&self) -> (r: &Kernel<C>)
        requires
            self is Ready,
        ensures
            *self == KernelState::Ready(*r),
    {
        match self {
            KernelState::Ready(kernel) => kernel,
            _ => vstd::pervasive::unreached(),
        }
    }

    /// The kernel of a state that is `Ready`, or the error to stop with.
    pub fn ready_or_error(&self) -> (r: Result<&Kernel<C>, LifecycleError>)
        ensures
            match r {
                Ok(kernel) => *self == KernelState::Ready(*kernel),
                Err(e) => !(self is Ready) && e == LifecycleError::NotReady,
            },
    {
        match self {
            KernelState::Ready(kernel) => Ok(kernel),
            _ => Err(LifecycleError::NotReady),
        }
    }

    pub fn try_as_ready(&self) -> (r: Option<&Kernel<C>>)
        ensures
            match r {
                Some(kernel) => *self == KernelState::Ready(*kernel),
                None => !(self is Ready),
            },
    {
        match self {
            KernelState::Ready(kernel) => Some(kernel),
            _ => None,
        }
    }

    /// The state as it is written in a dump, `depth` levels deep.
    pub fn debug_text(&self, depth: usize) -> (r: String)
        requires
            depth + 4 < usize::MAX,
        ensures
            r@ == self.spec_debug(depth as nat),
    {
        match self {
            KernelState::Uninit => String::from_str("Uninit"),
            KernelState::Init1(console) => {
                let inner = debug_console_text(console, depth + 1);
                wrapped_text("Init1", inner.as_str(), depth)
            },
            KernelState::Init2(args) => {
                let inner = args.debug_text(depth + 1);
                wrapped_text("Init2", inner.as_str(), depth)
            },
            KernelState::Ready(kernel) => {
                let inner = kernel.debug_text(depth + 1);
                wrapped_text("Ready", inner.as_str(), depth)
            },
        }
    }
}

/// The kernel that holds `console`.
pub closed spec fn kernel_with<C: Console>(console: Option<C>) -> Kernel<C> {
    Kernel { console }
}

/// How a state with another console relates to the state it was made from.
pub proof fn lemma_with_console<C: Console>(state: KernelState<C>, console: Option<C>)
    ensures
        state.with_console(console).rank() == state.rank(),
        !(state is Uninit) ==> state.with_console(console).spec_console() == console,
        state is Uninit ==> state.with_console(console) == state,
        state.with_console(state.spec_console()) == state,
        forall|other: Option<C>|
            (#[trigger] state.with_console(other)).with_console(console) == state.with_console(
                console,
            ),
{
}

/// A dump of a state shows the label of its console, and nothing else of it.
pub proof fn lemma_debug_shows_label<C: Console>(state: KernelState<C>, console: C, depth: nat)
    requires
        state.spec_console() matches Some(held) && held.spec_label()@ == console.spec_label()@,
    ensures
        state.with_console(Some(console)).spec_debug(depth) == state.spec_debug(depth),
{
}

/// What writing `lines` to the registered console does to a state: nothing
/// where no console is registered, and else what [`wrote_lines`] says of the
/// console, the rest of the state staying as it is.
pub open spec fn printed<C: Console>(
    before: KernelState<C>,
    lines: Seq<Seq<char>>,
    after: KernelState<C>,
) -> bool {
    match before.spec_console() {
        None => after == before,
        Some(console) => {
            &&& after.spec_console() is Some
            &&& after == before.with_console(after.spec_console())
            &&& wrote_lines(console, lines, after.spec_console()->0)
        },
    }
}

impl<C: Console> KernelCell<C> {
    /// The state that the cell holds.
    pub closed spec fn state(&self) -> KernelState<C> {
        self.inner
    }

    /// A cell that holds `Uninit`.
    pub fn new() -> (r: Self)
        ensures
            r.state() is Uninit,
    {
        KernelCell { inner: KernelState::Uninit }
    }

    pub fn get(&self) -> (r: &KernelState<C>)
        ensures
            *r == self.state(),
    {
        &self.inner
    }

    /// Moves the kernel on to `state`, which must be the state that follows
    /// the one it is in.
    pub fn promote(&mut self, state: KernelState<C>)
        requires
            old(self).state().precedes(state),
        ensures
            final(self).state() == state,
    {
        self.inner = state;
    }

    /// The registered console, for writing to it.
    pub fn console_mut(&mut self) -> (r: Option<&mut C>)
        ensures
            match r {
                Some(c) => {
                    &&& old(self).state().spec_console() == Some(*c)
                    &&& final(self).state() == old(self).state().with_console(Some(*final(c)))
                },
                None => old(self).state().spec_console() is None && final(self).state() == old(
                    self,
                ).state(),
            },
    {
        self.inner.console_mut()
    }

    /// Moves the kernel from `Init2` on to `Ready`, the console going over to
    /// the kernel.
    fn complete(&mut self)
        requires
            old(self).state() is Init2,
        ensures
            final(self).state() == KernelState::Ready(
                kernel_with(old(self).state().spec_console()),
            ),
    {
        let console = match &mut self.inner {
            KernelState::Init2(args) => args.console.take(),
            _ => None,
        };
        self.inner = KernelState::Ready(Kernel { console });
    }
}

/// Writing no line leaves a state as it is.
pub proof fn lemma_printed_nothing<C: Console>(state: KernelState<C>)
    ensures
        printed(state, Seq::<Seq<char>>::empty(), state),
{
    if state.spec_console() is Some {
        lemma_wrote_no_line(state.spec_console()->0);
        lemma_with_console(state, state.spec_console());
    }
}

/// One more line written extends what was written line by line.
pub proof fn lemma_printed_join<C: Console>(
    before: KernelState<C>,
    lines: Seq<Seq<char>>,
    mid: KernelState<C>,
    text: Seq<char>,
    after: KernelState<C>,
)
    requires
        printed(before, lines, mid),
        printed(mid, seq![text], after),
    ensures
        printed(before, lines.push(text), after),
{
    if before.spec_console() is Some {
        lemma_with_console(before, mid.spec_console());
        lemma_with_console(mid, after.spec_console());
        lemma_wrote_lines_join(
            before.spec_console()->0,
            lines,
            mid.spec_console()->0,
            text,
            after.spec_console()->0,
        );
    }
}

/// The kernel goes through its states in their order and never back: of the
/// states that a cell holds one after the other, from `Uninit` on, each is
/// the one that its place in the row says, so that there are four at most
/// and the last of four is `Ready`.
pub proof fn lemma_lifecycle_is_linear<C: Console>(states: Seq<KernelState<C>>)
    requires
        states.len() > 0,
        states[0] is Uninit,
        forall|i: int| 0 <= i < states.len() - 1 ==> (#[trigger] states[i]).precedes(states[i + 1]),
    ensures
        forall|i: int| 0 <= i < states.len() ==> (#[trigger] states[i]).rank() == i,
        states.len() <= 4,
        states.len() == 4 ==> states[3] is Ready,
{
    assert forall|i: int| 0 <= i < states.len() implies (#[trigger] states[i]).rank() == i by {
        lemma_rank_is_place(states, i);
    }
    if states.len() > 4 {
        lemma_rank_is_place(states, 4);
    }
    if states.len() == 4 {
        lemma_rank_is_place(states, 3);
    }
}

proof fn lemma_rank_is_place<C: Console>(states: Seq<KernelState<C>>, i: int)
    requires
        states.len() > 0,
        states[0] is Uninit,
        forall|k: int| 0 <= k < states.len() - 1 ==> (#[trigger] states[k]).precedes(states[k + 1]),
        0 <= i < states.len(),
    ensures
        states[i].rank() == i,
    decreases i,
{
    if i > 0 {
        lemma_rank_is_place(states, i - 1);
        assert(states[i - 1].precedes(states[i]));
    }
}

/// The state of the kernel that `cell` holds.
pub fn kernel<C: Console>(cell: &KernelCell<C>) -> (r: &KernelState<C>)
    ensures
        *r == cell.state(),
{
    cell.get()
}

/// Why a step of the lifecycle was refused, or failed.
#[derive(Debug)]
pub enum LifecycleError {
    /// Initialisation was begun, or completed, a second time.
    CalledTwice,
    /// Initialisation was to be completed before it was begun.
    CalledBeforeInit,
    /// The kernel was to run before initialisation was completed.
    RunBeforeInit,
    /// The kernel was asked for before it was ready.
    NotReady,
    /// The architecture could not bring memory up.
    Memory(&'static str),
}

impl LifecycleError {
    pub open spec fn spec_message(&self) -> Seq<char> {
        match self {
            LifecycleError::CalledTwice => "Kernel::init() called more than once"@,
            LifecycleError::CalledBeforeInit => "Kernel::init2() called before init1()"@,
            LifecycleError::RunBeforeInit => "Kernel::run() called before Kernel::init()"@,
            LifecycleError::NotReady => "Kernel is not ready"@,
            LifecycleError::Memory(_) => "Failed to initialize memory"@,
        }
    }

    /// The words to stop with.
    pub fn message(&self) -> (r: &'static str)
        ensures
            r@ == self.spec_message(),
    {
        match self {
            LifecycleError::CalledTwice => "Kernel::init() called more than once",
            LifecycleError::CalledBeforeInit => "Kernel::init2() called before init1()",
            LifecycleError::RunBeforeInit => "Kernel::run() called before Kernel::init()",
            LifecycleError::NotReady => "Kernel is not ready",
            LifecycleError::Memory(_) => "Failed to initialize memory",
        }
    }
}

/// What a panic was about: where it happened, if that is known, and why.
pub struct PanicReport {
    pub location: Option<String>,
    pub message: String,
}

/// The lines that completing initialisation writes.
pub open spec fn init_lines(boot_info: arch::BootInfo) -> Seq<Seq<char>> {
    seq![
        dbg_line("Kernel initialization started..."@),
        dbg_line("Boot info: "@ + boot_info.spec_debug(0)),
        dbg_line("Kernel initialization completed."@),
    ]
}

/// What completing initialisation with `args` leaves behind: the kernel is
/// ready, and its console is that of `args` after the lines of
/// [`init_lines`] were written to it.
pub open spec fn completed<C: Console>(
    args: KernelArgs<arch::BootInfo, C>,
    after: KernelState<C>,
) -> bool {
    &&& after is Ready
    &&& match args.console {
        None => after.spec_console() is None,
        Some(console) => {
            &&& after.spec_console() is Some
            &&& wrote_lines(console, init_lines(args.boot_info), after.spec_console()->0)
        },
    }
}

/// The lines that a dump after a panic consists of.
pub open spec fn dump_lines<C: Console>(info: PanicReport, state: KernelState<C>) -> Seq<Seq<char>> {
    let head = seq![err_line("!!! Kernel panic !!!"@)];
    let place = match info.location {
        Some(location) => seq![raw_line("At: "@ + location@)],
        None => Seq::<Seq<char>>::empty(),
    };
    let tail = seq![
        raw_line("Reason: "@ + info.message@),
        raw_line("Kernel State: "@ + state.spec_debug(0)),
    ];
    head + place + tail
}

impl<C: Console> Kernel<C> {
    /// Begins initialisation: registers a console, if there is one, for
    /// early messages.
    pub fn init1(cell: &mut KernelCell<C>, console: Option<C>)
        requires
            old(cell).state() is Uninit,
        ensures
            final(cell).state() == KernelState::Init1(console),
    {
        cell.promote(KernelState::Init1(console));
    }

    /// Completes initialisation: records the boot arguments, has the
    /// architecture bring memory up, and makes the kernel ready. The console
    /// of `args` takes the place of the one registered before.
    ///
    /// The architecture that the kernel is built for brings memory up on
    /// every boot description, so the call succeeds; [`Kernel::conclude`]
    /// says what happens where an architecture fails.
    pub fn init2(cell: &mut KernelCell<C>, args: KernelArgs<arch::BootInfo, C>) -> (r: Result<
        (),
        &'static str,
    >)
        requires
            old(cell).state() is Init1,
        ensures
            r is Ok,
            completed(args, final(cell).state()),
    {
        let ghost recorded = KernelState::Init2(args);
        let ghost none = Seq::<Seq<char>>::empty();
        let ghost line1 = dbg_line("Kernel initialization started..."@);
        let ghost line2 = dbg_line("Boot info: "@ + args.boot_info.spec_debug(0));
        let ghost line3 = dbg_line("Kernel initialization completed."@);
        cell.promote(KernelState::Init2(args));
        klog(cell, "Kernel initialization started...");
        let ghost started = cell.state();
        proof {
            lemma_printed_nothing(recorded);
            lemma_printed_join(recorded, none, recorded, line1, started);
            lemma_with_console(recorded, started.spec_console());
        }
        let text = match cell.get() {
            KernelState::Init2(held) => {
                let mut text = String::from_str("Boot info: ");
                let boot_info = held.boot_info.debug_text(0);
                text.append(boot_info.as_str());
                text
            },
            _ => vstd::pervasive::unreached(),
        };
        klog(cell, text.as_str());
        let ghost described = cell.state();
        proof {
            lemma_printed_join(recorded, none.push(line1), started, line2, described);
            lemma_with_console(recorded, described.spec_console());
        }
        let memory = match cell.get() {
            KernelState::Init2(held) => arch::Impl::init_memory(&held.boot_info),
            _ => vstd::pervasive::unreached(),
        };
        let r = Kernel::conclude(cell, memory);
        proof {
            let start = KernelState::Ready(kernel_with(args.console));
            let lines = none.push(line1).push(line2);
            let ready = KernelState::Ready(kernel_with(described.spec_console()));
            assert(printed(start, lines, ready));
            lemma_printed_join(start, lines, ready, line3, cell.state());
            assert(lines.push(line3) =~= init_lines(args.boot_info));
        }
        r
    }

    /// The last step of completing initialisation, `memory` being what the
    /// architecture made of the boot description. With memory up the kernel
    /// becomes ready, keeps the console and drops the memory objects, and
    /// says so on the console. Without, the kernel stays as it is and the
    /// error of the architecture is returned.
    pub fn conclude(
        cell: &mut KernelCell<C>,
        memory: Result<(arch::aarch64::mem::MemoryMapper, arch::aarch64::mem::FrameAllocator), &'static str>,
    ) -> (r: Result<(), &'static str>)
        requires
            old(cell).state() is Init2,
        ensures
            match memory {
                Ok(_) => {
                    &&& r is Ok
                    &&& printed(
                        KernelState::Ready(kernel_with(old(cell).state().spec_console())),
                        seq![dbg_line("Kernel initialization completed."@)],
                        final(cell).state(),
                    )
                },
                Err(e) => r == Err::<(), &'static str>(e) && final(cell).state() == old(cell).state(),
            },
    {
        match memory {
            Ok(_) => {
                cell.complete();
                klog(cell, "Kernel initialization completed.");
                Ok(())
            },
            Err(e) => Err(e),
        }
    }

    /// Begins initialisation unless it was begun before.
    pub fn try_init1(cell: &mut KernelCell<C>, console: Option<C>) -> (r: Result<
        (),
        LifecycleError,
    >)
        ensures
            r is Ok <==> old(cell).state() is Uninit,
            r is Ok ==> final(cell).state() == KernelState::Init1(console),
            r is Err ==> r == Err::<(), LifecycleError>(LifecycleError::CalledTwice)
                && final(cell).state() == old(cell).state(),
    {
        if matches!(cell.get(), KernelState::Uninit) {
            Kernel::init1(cell, console);
            Ok(())
        } else {
            Err(LifecycleError::CalledTwice)
        }
    }

    /// Completes initialisation if it was begun and not completed before.
    pub fn try_init2(cell: &mut KernelCell<C>, args: KernelArgs<arch::BootInfo, C>) -> (r: Result<
        (),
        LifecycleError,
    >)
        ensures
            r is Ok <==> old(cell).state() is Init1,
            r is Ok ==> completed(args, final(cell).state()),
            r matches Err(e) ==> {
                &&& final(cell).state() == old(cell).state()
                &&& e == if old(cell).state() is Uninit {
                    LifecycleError::CalledBeforeInit
                } else {
                    LifecycleError::CalledTwice
                }
            },
    {
        match cell.get() {
            KernelState::Init1(_) => match Kernel::init2(cell, args) {
                Ok(()) => Ok(()),
                Err(e) => Err(LifecycleError::Memory(e)),
            },
            KernelState::Uninit => Err(LifecycleError::CalledBeforeInit),
            _ => Err(LifecycleError::CalledTwice),
        }
    }

    /// Enters the main loop of a kernel that is ready. There is no main loop
    /// yet: the call announces it and returns the words to stop with.
    pub fn run(cell: &mut KernelCell<C>) -> (failure: &'static str)
        requires
            old(cell).state() is Ready,
        ensures
            failure@ == "Unimplemented: Kernel main loop"@,
            printed(
                old(cell).state(),
                seq![dbg_line("Kernel main loop starting..."@)],
                final(cell).state(),
            ),
    {
        klog(cell, "Kernel main loop starting...");
        "Unimplemented: Kernel main loop"
    }

    /// Enters the main loop if the kernel is ready, and says in either case
    /// why the kernel has to stop.
    pub fn try_run(cell: &mut KernelCell<C>) -> (r: LifecycleFailure)
        ensures
            old(cell).state() is Ready ==> {
                &&& r == LifecycleFailure::Unimplemented
                &&& printed(
                    old(cell).state(),
                    seq![dbg_line("Kernel main loop starting..."@)],
                    final(cell).state(),
                )
            },
            !(old(cell).state() is Ready) ==> {
                &&& r == LifecycleFailure::Misuse(LifecycleError::RunBeforeInit)
                &&& final(cell).state() == old(cell).state()
            },
    {
        if cell.get().is_ready() {
            let _ = Kernel::run(cell);
            LifecycleFailure::Unimplemented
        } else {
            LifecycleFailure::Misuse(LifecycleError::RunBeforeInit)
        }
    }

    /// Writes what is known of a panic to the registered console: where and
    /// why it happened, and the state of the kernel. Without a console
    /// nothing is written.
    pub fn panic_dump(cell: &mut KernelCell<C>, info: &PanicReport)
        ensures
            printed(old(cell).state(), dump_lines(*info, old(cell).state()), final(cell).state()),
    {
        if kernel(cell).console().is_none() {
            // No console available; cannot print panic information
            return ;
        }
        let ghost start = cell.state();
        let ghost none = Seq::<Seq<char>>::empty();
        let ghost head = err_line("!!! Kernel panic !!!"@);
        kerr(cell, "!!! Kernel panic !!!");
        proof {
            lemma_printed_nothing(start);
            lemma_printed_join(start, none, start, head, cell.state());
        }
        let ghost written = none.push(head);
        let ghost marked = cell.state();
        if let Some(location) = &info.location {
            let mut text = String::from_str("At: ");
            text.append(location.as_str());
            kraw(cell, text.as_str());
            proof {
                lemma_printed_join(
                    start,
                    none.push(head),
                    marked,
                    raw_line("At: "@ + location@),
                    cell.state(),
                );
                written = none.push(head).push(raw_line("At: "@ + location@));
            }
        }
        let ghost placed = cell.state();
        let mut reason = String::from_str("Reason: ");
        reason.append(info.message.as_str());
        kraw(cell, reason.as_str());
        let ghost reasoned = cell.state();
        let mut dump = String::from_str("Kernel State: ");
        let state = kernel(cell).debug_text(0);
        dump.append(state.as_str());
        kraw(cell, dump.as_str());
        proof {
            let line3 = raw_line("Reason: "@ + info.message@);
            let line4 = raw_line("Kernel State: "@ + start.spec_debug(0));
            lemma_printed_join(start, written, placed, line3, reasoned);
            lemma_with_console(start, reasoned.spec_console());
            crate::console::lemma_wrote_lines(
                start.spec_console()->0,
                written.push(line3),
                reasoned.spec_console()->0,
            );
            lemma_debug_shows_label(start, reasoned.spec_console()->0, 0);
            lemma_printed_join(start, written.push(line3), reasoned, line4, cell.state());
            assert(written.push(line3).push(line4) =~= dump_lines(*info, start));
        }
    }
}

/// Why the kernel has to stop once it was asked to run.
#[derive(Debug)]
pub enum LifecycleFailure {
    /// The main loop does not exist yet.
    Unimplemented,
    /// The kernel was not ready.
    Misuse(LifecycleError),
}

impl LifecycleFailure {
    pub open spec fn spec_message(&self) -> Seq<char> {
        match self {
            LifecycleFailure::Unimplemented => "Unimplemented: Kernel main loop"@,
            LifecycleFailure::Misuse(e) => e.spec_message(),
        }
    }

    /// The words to stop with.
    pub fn message(&self) -> (r: &'static str)
        ensures
            r@ == self.spec_message(),
    {
        match self {
            LifecycleFailure::Unimplemented => "Unimplemented: Kernel main loop",
            LifecycleFailure::Misuse(e) => e.message(),
        }
    }
}

} // verus!
