//! The REPL front end as a state machine.
//!
//! [`Repl`] holds everything the user interface shows and decides: the
//! transcript, the raw UART output, the input line, the status message, the
//! run state, the bytes still to be typed into the emulated UART, the
//! selected prelude and stack, and the readings of the memory gauges.
//!
//! The emulated COR24 machine lives with the caller. [`Repl::update`] takes a
//! message and answers with [`Command`]s for the caller to carry out on the
//! machine and the page; the caller reports back what the machine did through
//! [`Repl::load_binary`], [`Repl::feed`] and [`Repl::finish_tick`].
use vstd::prelude::*;
use vstd::utf8::*;
use vstd::string::*;
use crate::config::{PreludeTier, StackSize};
use crate::number::{decimal, hex_padded, push_decimal, push_hex_padded};
use crate::text::{
    chars_of, demo_input, demo_input_of, push_chars, push_str, push_utf8_all, str_eq,
    submitted_chars, submitted_text,
};

verus! {

/// Instructions the machine runs per tick.
pub const BATCH_SIZE: u64 = 50_000;

/// Instructions the machine may spend per tick taking in queued input.
pub const FEED_BUDGET: u32 = 10_000;

/// Instructions the machine runs after each poll of the UART while input is fed.
pub const FEED_BATCH: u32 = 50;

/// Address of the UART status register; bit 0 is set while the CPU has not
/// yet taken the previous byte.
pub const UART_STATUS_ADDR: u32 = 0xFF0101;

/// The register that holds the stack pointer.
pub const SP_REGISTER: u8 = 4;

/// Milliseconds to wait before the next tick while the interpreter is busy.
pub const TICK_RETRY_MS: u32 = 25;

/// Heap cells of the interpreter.
pub const HEAP_SIZE: u32 = 32768;

/// Symbol table entries of the interpreter.
pub const MAX_SYMBOLS: u32 = 512;

/// Bytes of the interpreter's string pool.
pub const STR_POOL_SIZE: u32 = 8192;

/// The label of the interpreter's heap allocation pointer.
pub const HEAP_NEXT_LABEL: &'static str = "_heap_next";

/// The label of the interpreter's symbol count.
pub const SYM_COUNT_LABEL: &'static str = "_sym_count";

/// The label of the interpreter's string pool allocation pointer.
pub const STR_POOL_NEXT_LABEL: &'static str = "_str_pool_next";

/// How input and output are laid out.
#[derive(Clone, Copy, Debug, PartialEq, Eq, Structural)]
pub enum ViewMode {
    /// One input line; output interleaved with what was typed.
    Cli,
    /// A multi-line editor over the raw UART output.
    Split,
}

/// A key pressed in the one-line input.
pub struct KeyPress {
    pub key: String,
    pub shift: bool,
}

/// A program that can be loaded into the input with its prelude and stack.
pub struct Demo {
    pub title: String,
    pub description: String,
    pub source: String,
    pub prelude: PreludeTier,
    pub stack: StackSize,
    pub category: String,
}

/// What the user or the page asks of the REPL.
pub enum Msg {
    Init,
    Tick,
    InputChanged(String),
    Eval,
    SetPrelude(PreludeTier),
    SetStack(StackSize),
    Reset,
    LoadDemo(usize),
    ToggleView,
    ToggleSwitch,
    ClearAll,
    PauseResume,
    CliKeyDown(KeyPress),
}

/// Work for the caller, to be done in the order given.
#[derive(Clone, Copy, Debug, PartialEq, Eq, Structural)]
pub enum Command {
    /// Assemble the interpreter for the current prelude and report the result
    /// to [`Repl::load_binary`]; where that gives a stack pointer, program the
    /// machine with it, resume it and schedule a tick.
    Load,
    /// Resume the machine.
    Resume,
    /// Deliver a `Tick` message soon.
    ScheduleTick,
    /// Deliver an `Eval` message.
    SendEval,
    /// Keep the browser from acting on the key press.
    PreventDefault,
    /// Set the machine's switch S2 to the given state.
    SetButton(bool),
    /// Clear the machine's UART output.
    ClearUartOutput,
    /// Run one tick: feed input with [`Repl::feed`], run a batch of
    /// [`BATCH_SIZE`] instructions, and report with [`Repl::finish_tick`].
    RunTick,
}

/// The answer to a message.
pub struct Update {
    /// Whether the page has to be drawn again.
    pub render: bool,
    /// Work for the caller.
    pub commands: Vec<Command>,
}

/// What assembling the interpreter gave.
pub struct Assembled {
    /// The assembler's error messages, first error first.
    pub errors: Vec<String>,
    /// The size of the assembled image.
    pub n_bytes: usize,
    /// The addresses of the interpreter's memory counters, where the
    /// assembler's label table names them.
    pub heap_next: Option<u32>,
    pub sym_count: Option<u32>,
    pub str_pool_next: Option<u32>,
}

/// Why the machine stopped running a batch.
#[derive(Clone, Copy, Debug, PartialEq, Eq, Structural)]
pub enum StopKind {
    CycleLimit,
    Halted,
    InvalidInstruction(u8),
    Breakpoint(u32),
    Paused,
}

/// What the machine showed after a batch.
pub struct TickReport {
    /// The LED register, where the batch changed it.
    pub led: Option<u8>,
    /// The words at the memory counters' addresses, where those are known.
    pub heap_word: Option<u32>,
    pub sym_word: Option<u32>,
    pub str_pool_word: Option<u32>,
    /// The stack pointer.
    pub sp: u32,
    /// The program counter.
    pub pc: u32,
    /// Why the batch ended.
    pub stop: StopKind,
}

/// What the caller does after a tick.
pub struct TickOutcome {
    /// Schedule another tick after [`TICK_RETRY_MS`].
    pub retry: bool,
    /// The CPU went idle: its load reading drops to zero.
    pub cpu_idle: bool,
}

/// One step of feeding queued input to the UART.
pub struct FeedStep {
    /// The byte to hand to the UART, if the CPU was ready for one.
    pub byte: Option<u8>,
    /// The feed budget left after the step's batch of [`FEED_BATCH`] instructions.
    pub budget: u32,
    /// Feeding stops for this tick: a whole line went out.
    pub stop: bool,
}

/// The state of the REPL front end.
pub struct Repl {
    output: String,
    transcript: String,
    uart_seen: usize,
    input: String,
    status: String,
    running: bool,
    loaded: bool,
    waiting_for_input: bool,
    uart_tx_queue: std::collections::VecDeque<u8>,
    prelude: PreludeTier,
    stack_size: StackSize,
    led_on: bool,
    switch_pressed: bool,
    view_mode: ViewMode,
    selected_demo: Option<usize>,
    addr_heap_next: Option<u32>,
    addr_sym_count: Option<u32>,
    addr_str_pool_next: Option<u32>,
    heap_used: u32,
    sym_used: u32,
    str_pool_used: u32,
    stack_depth: u32,
    demos: Vec<Demo>,
}

/// The model of a [`Repl`]: its fields, strings as characters and the input
/// queue as bytes.
#[verifier::ext_equal]
pub struct ReplView {
    /// Everything the machine has written to its UART.
    pub output: Seq<char>,
    /// The machine's output interleaved with the input that was evaluated.
    pub transcript: Seq<char>,
    /// How many bytes of UART output are already in the transcript.
    pub uart_seen: usize,
    pub input: Seq<char>,
    pub status: Seq<char>,
    pub running: bool,
    pub loaded: bool,
    pub waiting_for_input: bool,
    /// Bytes still to be typed into the UART.
    pub uart_tx_queue: Seq<u8>,
    pub prelude: PreludeTier,
    pub stack_size: StackSize,
    pub led_on: bool,
    pub switch_pressed: bool,
    pub view_mode: ViewMode,
    pub selected_demo: Option<usize>,
    pub addr_heap_next: Option<u32>,
    pub addr_sym_count: Option<u32>,
    pub addr_str_pool_next: Option<u32>,
    pub heap_used: u32,
    pub sym_used: u32,
    pub str_pool_used: u32,
    pub stack_depth: u32,
    pub demos: Seq<Demo>,
}

impl View for Repl {
    type V = ReplView;

    closed spec fn view(&self) -> ReplView {
        ReplView {
            output: self.output@,
            transcript: self.transcript@,
            uart_seen: self.uart_seen,
            input: self.input@,
            status: self.status@,
            running: self.running,
            loaded: self.loaded,
            waiting_for_input: self.waiting_for_input,
            uart_tx_queue: self.uart_tx_queue@,
            prelude: self.prelude,
            stack_size: self.stack_size,
            led_on: self.led_on,
            switch_pressed: self.switch_pressed,
            view_mode: self.view_mode,
            selected_demo: self.selected_demo,
            addr_heap_next: self.addr_heap_next,
            addr_sym_count: self.addr_sym_count,
            addr_str_pool_next: self.addr_str_pool_next,
            heap_used: self.heap_used,
            sym_used: self.sym_used,
            str_pool_used: self.str_pool_used,
            stack_depth: self.stack_depth,
            demos: self.demos@,
        }
    }
}

// ---------------------------------------------------------------------------
// The model of each operation
// ---------------------------------------------------------------------------

/// The state a fresh REPL starts in, before its interpreter is loaded.
pub open spec fn initial_state(demos: Seq<Demo>) -> ReplView {
    ReplView {
        output: seq![],
        transcript: seq![],
        uart_seen: 0,
        input: "(+ 1 2)"@,
        status: "Assembling interpreter..."@,
        running: false,
        loaded: false,
        waiting_for_input: false,
        uart_tx_queue: seq![],
        prelude: PreludeTier::Standard,
        stack_size: StackSize::ThreeKb,
        led_on: false,
        switch_pressed: false,
        view_mode: ViewMode::Cli,
        selected_demo: None,
        addr_heap_next: None,
        addr_sym_count: None,
        addr_str_pool_next: None,
        heap_used: 0,
        sym_used: 0,
        str_pool_used: 0,
        stack_depth: 0,
        demos,
    }
}

/// `s` with the input queue replaced by `q`.
pub open spec fn with_queue(s: ReplView, q: Seq<u8>) -> ReplView {
    ReplView { uart_tx_queue: q, ..s }
}

/// `s` with the transcript replaced by `t`.
pub open spec fn with_transcript(s: ReplView, t: Seq<char>) -> ReplView {
    ReplView { transcript: t, ..s }
}

/// The other view mode.
pub open spec fn toggled(m: ViewMode) -> ViewMode {
    match m {
        ViewMode::Cli => ViewMode::Split,
        ViewMode::Split => ViewMode::Cli,
    }
}

/// Whether a key press in the one-line input submits it: Enter without Shift.
pub open spec fn is_submit_key(k: KeyPress) -> bool {
    k.key@ == "Enter"@ && !k.shift
}

/// Whether loading demo `d` needs another interpreter image: its prelude or
/// its stack differs from the one in use.
pub open spec fn demo_needs_reload(s: ReplView, d: Demo) -> bool {
    d.prelude != s.prelude || d.stack != s.stack_size
}

/// The state after the REPL takes a message, before any command is carried out.
pub open spec fn after_update(s: ReplView, msg: Msg) -> ReplView {
    match msg {
        Msg::Init => s,
        Msg::Tick => s,
        Msg::InputChanged(v) => ReplView { input: v@, ..s },
        Msg::Eval => if !s.loaded {
            s
        } else {
            let text = submitted_text(s.input);
            ReplView {
                transcript: s.transcript + text,
                uart_tx_queue: s.uart_tx_queue + encode_utf8(text),
                status: "Evaluating..."@,
                waiting_for_input: false,
                running: true,
                input: if s.view_mode == ViewMode::Cli {
                    seq![]
                } else {
                    s.input
                },
                ..s
            }
        },
        Msg::CliKeyDown(_) => s,
        Msg::SetPrelude(t) => if t != s.prelude {
            ReplView { prelude: t, running: false, ..s }
        } else {
            s
        },
        Msg::SetStack(z) => if z != s.stack_size {
            ReplView { stack_size: z, running: false, ..s }
        } else {
            s
        },
        Msg::Reset => ReplView { running: false, ..s },
        Msg::LoadDemo(i) => if i < s.demos.len() {
            let d = s.demos[i as int];
            ReplView {
                selected_demo: Some(i),
                input: demo_input(d.source@),
                prelude: d.prelude,
                stack_size: d.stack,
                running: if demo_needs_reload(s, d) {
                    false
                } else {
                    s.running
                },
                view_mode: ViewMode::Split,
                ..s
            }
        } else {
            s
        },
        Msg::ToggleView => ReplView { view_mode: toggled(s.view_mode), ..s },
        Msg::ToggleSwitch => ReplView { switch_pressed: !s.switch_pressed, ..s },
        Msg::ClearAll => ReplView {
            output: seq![],
            transcript: seq![],
            uart_seen: 0,
            input: seq![],
            selected_demo: None,
            ..s
        },
        Msg::PauseResume => if s.running {
            ReplView { running: false, status: "Paused."@, ..s }
        } else if s.loaded {
            ReplView { running: true, waiting_for_input: false, status: "Running..."@, ..s }
        } else {
            s
        },
    }
}

/// The commands the REPL answers a message with.
pub open spec fn update_commands(s: ReplView, msg: Msg) -> Seq<Command> {
    match msg {
        Msg::Init => seq![Command::Load],
        Msg::Tick => if s.running {
            seq![Command::RunTick]
        } else {
            seq![]
        },
        Msg::InputChanged(_) => seq![],
        Msg::Eval => if s.loaded && !s.running {
            seq![Command::Resume, Command::ScheduleTick]
        } else {
            seq![]
        },
        Msg::CliKeyDown(k) => if is_submit_key(k) {
            seq![Command::PreventDefault, Command::SendEval]
        } else {
            seq![]
        },
        Msg::SetPrelude(t) => if t != s.prelude {
            seq![Command::Load]
        } else {
            seq![]
        },
        Msg::SetStack(z) => if z != s.stack_size {
            seq![Command::Load]
        } else {
            seq![]
        },
        Msg::Reset => seq![Command::Load],
        Msg::LoadDemo(i) => if i < s.demos.len() && demo_needs_reload(s, s.demos[i as int]) {
            seq![Command::Load]
        } else {
            seq![]
        },
        Msg::ToggleView => seq![],
        Msg::ToggleSwitch => seq![Command::SetButton(!s.switch_pressed)],
        Msg::ClearAll => seq![Command::ClearUartOutput],
        Msg::PauseResume => if !s.running && s.loaded {
            seq![Command::Resume, Command::ScheduleTick]
        } else {
            seq![]
        },
    }
}

/// Whether the page is drawn again after a message.
pub open spec fn update_renders(s: ReplView, msg: Msg) -> bool {
    match msg {
        Msg::Tick => s.running,
        Msg::InputChanged(_) => false,
        Msg::CliKeyDown(_) => false,
        _ => true,
    }
}

/// The status shown once the interpreter is loaded.
pub open spec fn loaded_status(n_bytes: usize, prelude: PreludeTier, stack: StackSize) -> Seq<
    char,
> {
    "Loaded "@ + decimal(n_bytes as nat) + " bytes ("@ + prelude.spec_label() + ", "@
        + stack.spec_label() + " stack)."@
}

/// The state after assembling the interpreter gave `a`.
pub open spec fn after_load(s: ReplView, a: Assembled) -> ReplView {
    if a.errors@.len() > 0 {
        ReplView { status: "Assembly failed: "@ + a.errors@[0]@, loaded: false, ..s }
    } else {
        ReplView {
            addr_heap_next: a.heap_next,
            addr_sym_count: a.sym_count,
            addr_str_pool_next: a.str_pool_next,
            output: seq![],
            transcript: seq![],
            uart_seen: 0,
            uart_tx_queue: seq![],
            loaded: true,
            waiting_for_input: false,
            led_on: false,
            switch_pressed: false,
            heap_used: 0,
            sym_used: 0,
            str_pool_used: 0,
            stack_depth: 0,
            status: loaded_status(a.n_bytes, s.prelude, s.stack_size),
            running: true,
            ..s
        }
    }
}

/// `a - b`, or zero where `b` is the larger.
pub open spec fn saturating_sub(a: u32, b: u32) -> u32 {
    if a >= b {
        (a - b) as u32
    } else {
        0
    }
}

/// Whether UART output ends in the interpreter's prompt `> `.
pub open spec fn ends_with_prompt(out: Seq<char>) -> bool {
    out.len() >= 2 && out[out.len() - 2] == '>' && out[out.len() - 1] == ' '
}

/// The characters of UART output `uart` past its first `seen` bytes.
pub open spec fn unseen_output(uart: Seq<char>, seen: usize) -> Seq<char> {
    let b = encode_utf8(uart);
    decode_utf8(b.subrange(seen as int, b.len() as int))
}

/// The state after a batch, with the gauges, the LED, the transcript and the
/// raw output brought up to date, before the stop reason is acted on.
pub open spec fn after_sampling(s: ReplView, r: TickReport, uart: Seq<char>) -> ReplView {
    let n = encode_utf8(uart).len();
    let grew = n > s.uart_seen;
    ReplView {
        led_on: match r.led {
            Some(v) => v & 1 != 0,
            None => s.led_on,
        },
        heap_used: match r.heap_word {
            Some(v) => v,
            None => s.heap_used,
        },
        sym_used: match r.sym_word {
            Some(v) => v,
            None => s.sym_used,
        },
        str_pool_used: match r.str_pool_word {
            Some(v) => v,
            None => s.str_pool_used,
        },
        stack_depth: saturating_sub(s.stack_size.spec_initial_sp(), r.sp),
        transcript: if grew {
            s.transcript + unseen_output(uart, s.uart_seen)
        } else {
            s.transcript
        },
        uart_seen: if grew {
            n as usize
        } else {
            s.uart_seen
        },
        output: uart,
        ..s
    }
}

/// Whether the interpreter sits at its prompt with nothing left to type.
pub open spec fn at_prompt(s: ReplView) -> bool {
    s.uart_tx_queue.len() == 0 && ends_with_prompt(s.output)
}

/// The status shown when the CPU met an instruction it does not know.
pub open spec fn invalid_instruction_status(op: u8, pc: u32) -> Seq<char> {
    "Invalid instruction 0x"@ + hex_padded(op as nat, 2) + " at PC=0x"@ + hex_padded(
        pc as nat,
        6,
    )
}

/// The status shown when the CPU reached a breakpoint.
pub open spec fn breakpoint_status(addr: u32) -> Seq<char> {
    "Breakpoint at 0x"@ + hex_padded(addr as nat, 6)
}

/// The state after a tick whose batch the machine reported as `r`, its UART
/// output being `uart`.
pub open spec fn after_tick(s: ReplView, r: TickReport, uart: Seq<char>) -> ReplView {
    let t = after_sampling(s, r, uart);
    match r.stop {
        StopKind::CycleLimit => if at_prompt(t) {
            ReplView { running: false, waiting_for_input: true, status: "Ready."@, ..t }
        } else {
            t
        },
        StopKind::Halted => ReplView {
            running: false,
            waiting_for_input: false,
            status: "Program finished."@,
            ..t
        },
        StopKind::InvalidInstruction(op) => ReplView {
            running: false,
            status: invalid_instruction_status(op, r.pc),
            ..t
        },
        StopKind::Breakpoint(a) => ReplView { running: false, status: breakpoint_status(a), ..t },
        StopKind::Paused => ReplView { running: false, status: "Paused."@, ..t },
    }
}

/// One step of feeding input from queue `q` with `budget` left, the UART
/// status register reading `status`: the queue after the step, the byte sent,
/// the budget left, and whether feeding stops.
pub open spec fn feed_step(q: Seq<u8>, budget: u32, status: u8) -> (Seq<u8>, Option<u8>, u32, bool) {
    let left = saturating_sub(budget, FEED_BATCH);
    if status & 1 != 0 {
        (q, None, left, false)
    } else {
        (q.drop_first(), Some(q[0]), left, q[0] == 10)
    }
}

/// Whether the caller ticks again soon: the interpreter is still busy.
pub open spec fn tick_retries(s: ReplView, r: TickReport, uart: Seq<char>) -> bool {
    r.stop == StopKind::CycleLimit && !at_prompt(after_sampling(s, r, uart))
}

/// Whether the CPU went idle: it waits at the prompt or the program ended.
pub open spec fn tick_idles(s: ReplView, r: TickReport, uart: Seq<char>) -> bool {
    ||| (r.stop == StopKind::CycleLimit && at_prompt(after_sampling(s, r, uart)))
    ||| r.stop == StopKind::Halted
}

// ---------------------------------------------------------------------------
// The operations
// ---------------------------------------------------------------------------

/// Appends the UART output past its first `seen` bytes to `transcript`.
fn append_unseen(transcript: &mut String, uart: &str, seen: usize)
    requires
        is_char_boundary(uart.spec_bytes(), seen as int),
        seen <= uart.spec_bytes().len(),
    ensures
        final(transcript)@ == old(transcript)@ + unseen_output(uart@, seen),
{
    let (_, tail) = uart.split_at(seen);
    proof {
        broadcast use vstd::utf8::encode_utf8_decode_utf8;

        let b = encode_utf8(uart@);
        assert(tail.spec_bytes() =~= b.subrange(seen as int, b.len() as int));
        assert(tail@ == decode_utf8(encode_utf8(tail@)));
    }
    push_str(transcript, tail);
}

impl Repl {
    /// A fresh REPL with the given demo programs, in the state
    /// [`initial_state`] describes. The caller sends it `Msg::Init` next.
    pub fn create(demos: Vec<Demo>) -> (r: Repl)
        ensures
            r@ == initial_state(demos@),
    {
        let r = Repl {
            output: String::new(),
            transcript: String::new(),
            uart_seen: 0,
            input: String::from_str("(+ 1 2)"),
            status: String::from_str("Assembling interpreter..."),
            running: false,
            loaded: false,
            waiting_for_input: false,
            uart_tx_queue: std::collections::VecDeque::new(),
            prelude: PreludeTier::Standard,
            stack_size: StackSize::ThreeKb,
            led_on: false,
            switch_pressed: false,
            view_mode: ViewMode::Cli,
            selected_demo: None,
            addr_heap_next: None,
            addr_sym_count: None,
            addr_str_pool_next: None,
            heap_used: 0,
            sym_used: 0,
            str_pool_used: 0,
            stack_depth: 0,
            demos,
        };
        assert(r@ =~= initial_state(demos@));
        r
    }

    /// Types each non-blank line of the input into the UART queue, each
    /// followed by a newline, as UTF-8.
    fn send_input(&mut self)
        ensures
            final(self)@ == with_queue(
                old(self)@,
                old(self)@.uart_tx_queue + encode_utf8(submitted_text(old(self)@.input)),
            ),
    {
        let text = submitted_chars(self.input.as_str());
        push_utf8_all(&mut self.uart_tx_queue, &text);
        assert(self@ =~= with_queue(
            old(self)@,
            old(self)@.uart_tx_queue + encode_utf8(submitted_text(old(self)@.input)),
        ));
    }

    /// Echoes each non-blank line of the input to the transcript.
    fn echo_input(&mut self)
        ensures
            final(self)@ == with_transcript(
                old(self)@,
                old(self)@.transcript + submitted_text(old(self)@.input),
            ),
    {
        let text = submitted_chars(self.input.as_str());
        push_chars(&mut self.transcript, &text);
        assert(self@ =~= with_transcript(
            old(self)@,
            old(self)@.transcript + submitted_text(old(self)@.input),
        ));
    }

    /// Takes a message: changes the state as [`after_update`] says and
    /// answers with [`update_commands`] and [`update_renders`].
    #[verifier::rlimit(60)]
    pub fn update(&mut self, msg: Msg) -> (r: Update)
        ensures
            final(self)@ == after_update(old(self)@, msg),
            r.commands@ == update_commands(old(self)@, msg),
            r.render == update_renders(old(self)@, msg),
    {
        let ghost s = self@;
        match msg {
            Msg::Init => Update { render: true, commands: vec![Command::Load] },
            Msg::Tick => {
                if !self.running {
                    Update { render: false, commands: vec![] }
                } else {
                    Update { render: true, commands: vec![Command::RunTick] }
                }
            },
            Msg::InputChanged(value) => {
                self.input = value;
                assert(self@ =~= after_update(s, Msg::InputChanged(value)));
                Update { render: false, commands: vec![] }
            },
            Msg::Eval => {
                if !self.loaded {
                    return Update { render: true, commands: vec![] };
                }
                self.echo_input();
                self.send_input();
                self.status = String::from_str("Evaluating...");
                self.waiting_for_input = false;
                let mut commands: Vec<Command> = vec![];
                if !self.running {
                    commands.push(Command::Resume);
                    self.running = true;
                    commands.push(Command::ScheduleTick);
                }
                if self.view_mode == ViewMode::Cli {
                    self.input = String::new();
                }
                assert(self@ =~= after_update(s, Msg::Eval));
                assert(commands@ =~= update_commands(s, Msg::Eval));
                Update { render: true, commands }
            },
            Msg::CliKeyDown(e) => {
                if str_eq(e.key.as_str(), "Enter") && !e.shift {
                    Update {
                        render: false,
                        commands: vec![Command::PreventDefault, Command::SendEval],
                    }
                } else {
                    Update { render: false, commands: vec![] }
                }
            },
            Msg::SetPrelude(tier) => {
                if tier != self.prelude {
                    self.prelude = tier;
                    self.running = false;
                    assert(self@ =~= after_update(s, Msg::SetPrelude(tier)));
                    Update { render: true, commands: vec![Command::Load] }
                } else {
                    Update { render: true, commands: vec![] }
                }
            },
            Msg::SetStack(size) => {
                if size != self.stack_size {
                    self.stack_size = size;
                    self.running = false;
                    assert(self@ =~= after_update(s, Msg::SetStack(size)));
                    Update { render: true, commands: vec![Command::Load] }
                } else {
                    Update { render: true, commands: vec![] }
                }
            },
            Msg::Reset => {
                self.running = false;
                assert(self@ =~= after_update(s, Msg::Reset));
                Update { render: true, commands: vec![Command::Load] }
            },
            Msg::LoadDemo(index) => {
                if index < self.demos.len() {
                    let input = demo_input_of(self.demos[index].source.as_str());
                    let prelude = self.demos[index].prelude;
                    let stack = self.demos[index].stack;
                    let reload = prelude != self.prelude || stack != self.stack_size;
                    self.selected_demo = Some(index);
                    self.input = input;
                    self.prelude = prelude;
                    self.stack_size = stack;
                    self.view_mode = ViewMode::Split;
                    if reload {
                        self.running = false;
                        assert(self@ =~= after_update(s, Msg::LoadDemo(index)));
                        Update { render: true, commands: vec![Command::Load] }
                    } else {
                        assert(self@ =~= after_update(s, Msg::LoadDemo(index)));
                        Update { render: true, commands: vec![] }
                    }
                } else {
                    Update { render: true, commands: vec![] }
                }
            },
            Msg::ToggleView => {
                self.view_mode = match self.view_mode {
                    ViewMode::Cli => ViewMode::Split,
                    ViewMode::Split => ViewMode::Cli,
                };
                assert(self@ =~= after_update(s, Msg::ToggleView));
                Update { render: true, commands: vec![] }
            },
            Msg::ToggleSwitch => {
                self.switch_pressed = !self.switch_pressed;
                assert(self@ =~= after_update(s, Msg::ToggleSwitch));
                Update { render: true, commands: vec![Command::SetButton(self.switch_pressed)] }
            },
            Msg::ClearAll => {
                self.output = String::new();
                self.transcript = String::new();
                self.uart_seen = 0;
                self.input = String::new();
                self.selected_demo = None;
                assert(self@ =~= after_update(s, Msg::ClearAll));
                Update { render: true, commands: vec![Command::ClearUartOutput] }
            },
            Msg::PauseResume => {
                if self.running {
                    self.running = false;
                    self.status = String::from_str("Paused.");
                    assert(self@ =~= after_update(s, Msg::PauseResume));
                    Update { render: true, commands: vec![] }
                } else if self.loaded {
                    self.running = true;
                    self.waiting_for_input = false;
                    self.status = String::from_str("Running...");
                    assert(self@ =~= after_update(s, Msg::PauseResume));
                    Update { render: true, commands: vec![Command::Resume, Command::ScheduleTick] }
                } else {
                    Update { render: true, commands: vec![] }
                }
            },
        }
    }

    /// Takes what assembling the interpreter gave. On success the REPL starts
    /// afresh and the stack pointer to start the machine with comes back; on
    /// failure only the status and the loaded flag change.
    pub fn load_binary(&mut self, assembled: Assembled) -> (sp: Option<u32>)
        ensures
            final(self)@ == after_load(old(self)@, assembled),
            sp == (if assembled.errors@.len() > 0 {
                None
            } else {
                Some(old(self)@.stack_size.spec_initial_sp())
            }),
    {
        let ghost s = self@;
        if assembled.errors.len() > 0 {
            let mut status = String::from_str("Assembly failed: ");
            push_str(&mut status, assembled.errors[0].as_str());
            self.status = status;
            self.loaded = false;
            assert(self@ =~= after_load(s, assembled));
            return None;
        }
        self.addr_heap_next = assembled.heap_next;
        self.addr_sym_count = assembled.sym_count;
        self.addr_str_pool_next = assembled.str_pool_next;
        self.output = String::new();
        self.transcript = String::new();
        self.uart_seen = 0;
        self.uart_tx_queue = std::collections::VecDeque::new();
        self.loaded = true;
        self.waiting_for_input = false;
        self.led_on = false;
        self.switch_pressed = false;
        self.heap_used = 0;
        self.sym_used = 0;
        self.str_pool_used = 0;
        self.stack_depth = 0;
        let mut status = String::from_str("Loaded ");
        push_decimal(&mut status, assembled.n_bytes as u64);
        push_str(&mut status, " bytes (");
        push_str(&mut status, self.prelude.label());
        push_str(&mut status, ", ");
        push_str(&mut status, self.stack_size.label());
        push_str(&mut status, " stack).");
        self.status = status;
        self.running = true;
        assert(self@ =~= after_load(s, assembled));
        Some(self.stack_size.initial_sp())
    }

    /// Whether a tick feeds another byte: input is queued and budget is left.
    pub fn wants_feed(&self, budget: u32) -> (r: bool)
        ensures
            r == (self@.uart_tx_queue.len() > 0 && budget > 0),
    {
        self.uart_tx_queue.len() > 0 && budget > 0
    }

    /// One step of feeding input, given the UART status register. While the
    /// CPU has not taken the previous byte nothing is sent; else the first
    /// queued byte goes out, and feeding stops after a newline. Each step
    /// costs a batch of [`FEED_BATCH`] instructions.
    pub fn feed(&mut self, budget: u32, uart_status: u8) -> (step: FeedStep)
        requires
            old(self)@.uart_tx_queue.len() > 0,
            budget > 0,
        ensures
            (final(self)@.uart_tx_queue, step.byte, step.budget, step.stop) == feed_step(
                old(self)@.uart_tx_queue,
                budget,
                uart_status,
            ),
            final(self)@ == with_queue(old(self)@, final(self)@.uart_tx_queue),
    {
        let left = budget.saturating_sub(FEED_BATCH);
        if uart_status & 1 != 0 {
            assert(self@ =~= with_queue(self@, self@.uart_tx_queue));
            return FeedStep { byte: None, budget: left, stop: false };
        }
        let ghost s = self@;
        let byte = self.uart_tx_queue.pop_front().unwrap();
        assert(self@ =~= with_queue(s, s.uart_tx_queue.drop_first()));
        FeedStep { byte: Some(byte), budget: left, stop: byte == 10 }
    }

    /// Brings the LED, the gauges, the transcript and the raw output up to
    /// date with a batch's report.
    #[verifier::rlimit(60)]
    fn sample(&mut self, report: &TickReport, uart: &str)
        requires
            uart.spec_bytes().len() > old(self)@.uart_seen ==> is_char_boundary(
                uart.spec_bytes(),
                old(self)@.uart_seen as int,
            ),
        ensures
            final(self)@ == after_sampling(old(self)@, *report, uart@),
    {
        let ghost s = self@;
        if let Some(v) = report.led {
            self.led_on = v & 1 != 0;
        }
        if let Some(v) = report.heap_word {
            self.heap_used = v;
        }
        if let Some(v) = report.sym_word {
            self.sym_used = v;
        }
        if let Some(v) = report.str_pool_word {
            self.str_pool_used = v;
        }
        self.stack_depth = self.stack_size.initial_sp().saturating_sub(report.sp);
        let n = uart.as_bytes().len();
        if n > self.uart_seen {
            append_unseen(&mut self.transcript, uart, self.uart_seen);
            self.uart_seen = n;
        }
        self.output = uart.to_owned();
        assert(self@ =~= after_sampling(s, *report, uart@));
    }

    /// Takes what the machine showed after a tick's batch, its UART output
    /// being `uart`: changes the state as [`after_tick`] says, and tells the
    /// caller whether to tick again and whether the CPU went idle.
    pub fn finish_tick(&mut self, report: TickReport, uart: &str) -> (r: TickOutcome)
        requires
            uart.spec_bytes().len() > old(self)@.uart_seen ==> is_char_boundary(
                uart.spec_bytes(),
                old(self)@.uart_seen as int,
            ),
        ensures
            final(self)@ == after_tick(old(self)@, report, uart@),
            r.retry == tick_retries(old(self)@, report, uart@),
            r.cpu_idle == tick_idles(old(self)@, report, uart@),
    {
        let ghost s = self@;
        self.sample(&report, uart);
        let cs = chars_of(self.output.as_str());
        let prompt = cs.len() >= 2 && cs[cs.len() - 2] == '>' && cs[cs.len() - 1] == ' ';
        let mut outcome = TickOutcome { retry: false, cpu_idle: false };
        match report.stop {
            StopKind::CycleLimit => {
                if self.uart_tx_queue.len() == 0 && prompt {
                    self.running = false;
                    self.waiting_for_input = true;
                    outcome.cpu_idle = true;
                    self.status = String::from_str("Ready.");
                } else {
                    outcome.retry = true;
                }
            },
            StopKind::Halted => {
                self.running = false;
                self.waiting_for_input = false;
                outcome.cpu_idle = true;
                self.status = String::from_str("Program finished.");
            },
            StopKind::InvalidInstruction(op) => {
                self.running = false;
                let mut status = String::from_str("Invalid instruction 0x");
                push_hex_padded(&mut status, op as u64, 2);
                push_str(&mut status, " at PC=0x");
                push_hex_padded(&mut status, report.pc as u64, 6);
                self.status = status;
            },
            StopKind::Breakpoint(addr) => {
                self.running = false;
                let mut status = String::from_str("Breakpoint at 0x");
                push_hex_padded(&mut status, addr as u64, 6);
                self.status = status;
            },
            StopKind::Paused => {
                self.running = false;
                self.status = String::from_str("Paused.");
            },
        }
        assert(self@ =~= after_tick(s, report, uart@));
        outcome
    }
}

impl Repl {
    /// The raw UART output.
    pub fn output(&self) -> (r: &str)
        ensures
            r@ == self@.output,
    {
        self.output.as_str()
    }

    /// The transcript: output interleaved with evaluated input.
    pub fn transcript(&self) -> (r: &str)
        ensures
            r@ == self@.transcript,
    {
        self.transcript.as_str()
    }

    /// The text in the input.
    pub fn input(&self) -> (r: &str)
        ensures
            r@ == self@.input,
    {
        self.input.as_str()
    }

    /// The status message.
    pub fn status(&self) -> (r: &str)
        ensures
            r@ == self@.status,
    {
        self.status.as_str()
    }

    /// Whether the machine is running batches.
    pub fn is_running(&self) -> (r: bool)
        ensures
            r == self@.running,
    {
        self.running
    }

    /// Whether an interpreter image is loaded.
    pub fn is_loaded(&self) -> (r: bool)
        ensures
            r == self@.loaded,
    {
        self.loaded
    }

    /// Whether the interpreter waits at its prompt.
    pub fn is_waiting_for_input(&self) -> (r: bool)
        ensures
            r == self@.waiting_for_input,
    {
        self.waiting_for_input
    }

    /// The selected prelude.
    pub fn prelude(&self) -> (r: PreludeTier)
        ensures
            r == self@.prelude,
    {
        self.prelude
    }

    /// The selected stack size.
    pub fn stack_size(&self) -> (r: StackSize)
        ensures
            r == self@.stack_size,
    {
        self.stack_size
    }

    /// Whether LED D2 is lit.
    pub fn led_on(&self) -> (r: bool)
        ensures
            r == self@.led_on,
    {
        self.led_on
    }

    /// Whether switch S2 is pressed.
    pub fn switch_pressed(&self) -> (r: bool)
        ensures
            r == self@.switch_pressed,
    {
        self.switch_pressed
    }

    /// The layout in use.
    pub fn view_mode(&self) -> (r: ViewMode)
        ensures
            r == self@.view_mode,
    {
        self.view_mode
    }

    /// The demo last loaded, if any.
    pub fn selected_demo(&self) -> (r: Option<usize>)
        ensures
            r == self@.selected_demo,
    {
        self.selected_demo
    }

    /// Heap cells in use at the last reading.
    pub fn heap_used(&self) -> (r: u32)
        ensures
            r == self@.heap_used,
    {
        self.heap_used
    }

    /// Symbols in use at the last reading.
    pub fn sym_used(&self) -> (r: u32)
        ensures
            r == self@.sym_used,
    {
        self.sym_used
    }

    /// String pool bytes in use at the last reading.
    pub fn str_pool_used(&self) -> (r: u32)
        ensures
            r == self@.str_pool_used,
    {
        self.str_pool_used
    }

    /// Stack bytes in use at the last reading.
    pub fn stack_depth(&self) -> (r: u32)
        ensures
            r == self@.stack_depth,
    {
        self.stack_depth
    }

    /// How many bytes of UART output are in the transcript.
    pub fn uart_seen(&self) -> (r: usize)
        ensures
            r == self@.uart_seen,
    {
        self.uart_seen
    }

    /// The address of the heap allocation pointer, where known.
    pub fn heap_address(&self) -> (r: Option<u32>)
        ensures
            r == self@.addr_heap_next,
    {
        self.addr_heap_next
    }

    /// The address of the symbol count, where known.
    pub fn sym_count_address(&self) -> (r: Option<u32>)
        ensures
            r == self@.addr_sym_count,
    {
        self.addr_sym_count
    }

    /// The address of the string pool allocation pointer, where known.
    pub fn str_pool_address(&self) -> (r: Option<u32>)
        ensures
            r == self@.addr_str_pool_next,
    {
        self.addr_str_pool_next
    }

    /// The demo programs on offer.
    pub fn demos(&self) -> (r: &Vec<Demo>)
        ensures
            r@ == self@.demos,
    {
        &self.demos
    }

    /// The bytes still to be typed into the UART, first byte first.
    pub fn pending_input(&self) -> (r: Vec<u8>)
        ensures
            r@ == self@.uart_tx_queue,
    {
        let mut r: Vec<u8> = Vec::new();
        let mut i: usize = 0;
        while i < self.uart_tx_queue.len()
            invariant
                i <= self.uart_tx_queue@.len(),
                r@ == self.uart_tx_queue@.take(i as int),
            decreases self.uart_tx_queue@.len() - i,
        {
            r.push(self.uart_tx_queue[i]);
            assert(self.uart_tx_queue@.take(i + 1) =~= self.uart_tx_queue@.take(i as int).push(
                self.uart_tx_queue@[i as int],
            ));
            i += 1;
        }
        assert(self.uart_tx_queue@.take(self.uart_tx_queue@.len() as int) =~= self.uart_tx_queue@);
        r
    }
}

} // verus!
