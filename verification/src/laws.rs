//! Properties of the REPL that span its operations.
use vstd::prelude::*;
use vstd::utf8::*;
use crate::config::{all_stack_sizes, all_tiers, PreludeTier, StackSize};
use crate::number::{decimal, demo_index_of, lemma_decimal_digits, parses_as_usize, unsigned_digits};
use crate::repl::{
    after_load, after_tick, after_update, demo_needs_reload, feed_step, initial_state,
    is_submit_key, saturating_sub, tick_idles, tick_retries, update_commands, update_renders,
    Assembled, Command, Demo, KeyPress, Msg, ReplView, StopKind, TickReport, ViewMode,
    FEED_BATCH, FEED_BUDGET,
};
use crate::text::{
    demo_input, is_white_space, lemma_encode_utf8_concat, lines, split_lines, submitted_text,
    echo_lines, echo_line, is_blank,
};
use crate::view::{
    demos_of_tier, eval_disabled, gauge_level, is_group, is_prelude_options, is_stack_options,
    output_text, pause_label, show_spinner, DemoGroup, GaugeLevel, SelectOption,
};

verus! {

/// The run flags agree: the machine only runs with an interpreter loaded,
/// and it never waits at the prompt while it runs.
pub open spec fn consistent(s: ReplView) -> bool {
    &&& s.running ==> s.loaded
    &&& s.waiting_for_input ==> !s.running
}

/// The transcript has taken in all of the raw UART output.
pub open spec fn caught_up(s: ReplView) -> bool {
    s.uart_seen == encode_utf8(s.output).len()
}

/// A fresh REPL is consistent and caught up, with the Standard prelude and the
/// three-kilobyte stack selected.
pub proof fn law_initial_state(demos: Seq<Demo>)
    ensures
        consistent(initial_state(demos)),
        caught_up(initial_state(demos)),
        initial_state(demos).prelude == PreludeTier::Standard,
        initial_state(demos).stack_size == StackSize::ThreeKb,
{
    assert(encode_utf8(Seq::<char>::empty()) =~= Seq::<u8>::empty());
}

/// Every message keeps the run flags consistent.
pub proof fn law_update_keeps_consistent(s: ReplView, msg: Msg)
    requires
        consistent(s),
    ensures
        consistent(after_update(s, msg)),
{
}

/// Every message keeps the transcript caught up with the raw output.
pub proof fn law_update_keeps_caught_up(s: ReplView, msg: Msg)
    requires
        caught_up(s),
    ensures
        caught_up(after_update(s, msg)),
{
    assert(encode_utf8(Seq::<char>::empty()) =~= Seq::<u8>::empty());
}

/// Every message but `Init` that asks for a reload has stopped the machine first.
pub proof fn law_reload_stops_machine(s: ReplView, msg: Msg)
    requires
        update_commands(s, msg).contains(Command::Load),
        !(msg is Init),
    ensures
        !after_update(s, msg).running,
{
    match msg {
        Msg::Tick => {
            assert(!update_commands(s, msg).contains(Command::Load)) by {
                if s.running {
                    assert(update_commands(s, msg) =~= seq![Command::RunTick]);
                    assert(update_commands(s, msg)[0] != Command::Load);
                }
            }
        },
        Msg::Eval => {
            if s.loaded && !s.running {
                assert(update_commands(s, msg)[0] != Command::Load);
                assert(update_commands(s, msg)[1] != Command::Load);
            }
        },
        Msg::CliKeyDown(k) => {
            if is_submit_key(k) {
                assert(update_commands(s, msg)[0] != Command::Load);
                assert(update_commands(s, msg)[1] != Command::Load);
            }
        },
        Msg::ToggleSwitch => {
            assert(update_commands(s, msg)[0] != Command::Load);
        },
        Msg::ClearAll => {
            assert(update_commands(s, msg)[0] != Command::Load);
        },
        Msg::PauseResume => {
            if !s.running && s.loaded {
                assert(update_commands(s, msg)[0] != Command::Load);
                assert(update_commands(s, msg)[1] != Command::Load);
            }
        },
        _ => {},
    }
}

/// Loading keeps the run flags consistent when the machine was stopped first
/// (as every reload but `Init`'s is), and a successful load leaves the
/// transcript caught up with the (empty) output.
pub proof fn law_load_keeps_consistent(s: ReplView, a: Assembled)
    requires
        consistent(s),
        !s.running,
    ensures
        consistent(after_load(s, a)),
        a.errors@.len() == 0 ==> caught_up(after_load(s, a)),
        a.errors@.len() == 0 ==> after_load(s, a).running && after_load(s, a).uart_tx_queue.len()
            == 0,
{
    assert(encode_utf8(Seq::<char>::empty()) =~= Seq::<u8>::empty());
}

/// Every tick keeps the run flags consistent.
pub proof fn law_tick_keeps_consistent(s: ReplView, r: TickReport, uart: Seq<char>)
    requires
        consistent(s),
    ensures
        consistent(after_tick(s, r, uart)),
{
}

/// What evaluating types into the UART is exactly the UTF-8 encoding of what
/// it echoes into the transcript; nothing else changes in either.
pub proof fn law_eval_sends_what_it_echoes(s: ReplView)
    requires
        s.loaded,
    ensures
        ({
            let t = after_update(s, Msg::Eval);
            let echoed = t.transcript.subrange(s.transcript.len() as int, t.transcript.len() as int);
            &&& t.transcript.take(s.transcript.len() as int) == s.transcript
            &&& t.uart_tx_queue == s.uart_tx_queue + encode_utf8(echoed)
            &&& echoed == submitted_text(s.input)
        }),
{
    let t = after_update(s, Msg::Eval);
    assert(t.transcript.subrange(s.transcript.len() as int, t.transcript.len() as int)
        =~= submitted_text(s.input));
    assert(t.transcript.take(s.transcript.len() as int) =~= s.transcript);
}

/// Evaluating without an interpreter loaded changes nothing and asks for nothing.
pub proof fn law_eval_needs_interpreter(s: ReplView)
    requires
        !s.loaded,
    ensures
        after_update(s, Msg::Eval) == s,
        update_commands(s, Msg::Eval).len() == 0,
{
}

/// Switching the layout twice restores it, and switching changes nothing else.
pub proof fn law_toggle_view_twice(s: ReplView)
    ensures
        after_update(after_update(s, Msg::ToggleView), Msg::ToggleView) == s,
        after_update(s, Msg::ToggleView).view_mode != s.view_mode,
{
    assert(after_update(after_update(s, Msg::ToggleView), Msg::ToggleView) =~= s);
}

/// Pressing the switch twice restores it; each press tells the machine the
/// switch's new state.
pub proof fn law_toggle_switch_twice(s: ReplView)
    ensures
        after_update(after_update(s, Msg::ToggleSwitch), Msg::ToggleSwitch) == s,
        update_commands(s, Msg::ToggleSwitch) == seq![
            Command::SetButton(after_update(s, Msg::ToggleSwitch).switch_pressed),
        ],
{
    assert(after_update(after_update(s, Msg::ToggleSwitch), Msg::ToggleSwitch) =~= s);
}

/// Pausing a running interpreter and resuming it brings it back to running.
pub proof fn law_pause_then_resume(s: ReplView)
    requires
        consistent(s),
        s.running,
    ensures
        ({
            let p = after_update(s, Msg::PauseResume);
            let q = after_update(p, Msg::PauseResume);
            &&& !p.running
            &&& p.status == "Paused."@
            &&& q.running
            &&& q.status == "Running..."@
            &&& update_commands(p, Msg::PauseResume) == seq![Command::Resume, Command::ScheduleTick]
        }),
{
}

/// Selecting the prelude or stack already in use changes nothing and reloads nothing.
pub proof fn law_same_setting_is_no_op(s: ReplView)
    ensures
        after_update(s, Msg::SetPrelude(s.prelude)) == s,
        update_commands(s, Msg::SetPrelude(s.prelude)).len() == 0,
        after_update(s, Msg::SetStack(s.stack_size)) == s,
        update_commands(s, Msg::SetStack(s.stack_size)).len() == 0,
{
}

/// Loading a demo only prepares it: its source, without its `;;` comment
/// header, goes into the input; its prelude and stack are selected; nothing
/// is typed into the UART until the user evaluates; and the interpreter is
/// reloaded only when the prelude or the stack changes. A demo for the prelude
/// and stack already in use keeps the machine, the transcript and the output.
pub proof fn law_demo_waits_for_eval(s: ReplView, i: usize)
    requires
        i < s.demos.len(),
    ensures
        ({
            let d = s.demos[i as int];
            let t = after_update(s, Msg::LoadDemo(i));
            &&& t.uart_tx_queue == s.uart_tx_queue
            &&& t.transcript == s.transcript
            &&& t.output == s.output
            &&& t.input == demo_input(d.source@)
            &&& t.prelude == d.prelude
            &&& t.stack_size == d.stack
            &&& t.selected_demo == Some(i)
            &&& t.view_mode == ViewMode::Split
            &&& update_commands(s, Msg::LoadDemo(i)) == (if demo_needs_reload(s, d) {
                seq![Command::Load]
            } else {
                seq![]
            })
            &&& !demo_needs_reload(s, d) ==> t.running == s.running && t.loaded == s.loaded
        }),
{
}

/// The demo selector's placeholder (the empty value) loads nothing.
pub proof fn law_demo_placeholder_is_no_op(s: ReplView)
    requires
        s.demos.len() <= usize::MAX,
    ensures
        demo_index_of(""@) == usize::MAX,
        after_update(s, Msg::LoadDemo(demo_index_of(""@))) == s,
        update_commands(s, Msg::LoadDemo(demo_index_of(""@))).len() == 0,
        update_renders(s, Msg::LoadDemo(demo_index_of(""@))),
{
    reveal_strlit("");
    assert(unsigned_digits(""@) =~= ""@);
}

/// The transcript only grows: no message but `ClearAll` takes anything from
/// it, and neither does feeding nor a tick.
pub proof fn law_transcript_only_grows(s: ReplView, msg: Msg, r: TickReport, uart: Seq<char>)
    requires
        !(msg is ClearAll),
    ensures
        after_update(s, msg).transcript.take(s.transcript.len() as int) == s.transcript,
        after_update(s, msg).transcript.len() >= s.transcript.len(),
        after_tick(s, r, uart).transcript.take(s.transcript.len() as int) == s.transcript,
        after_tick(s, r, uart).transcript.len() >= s.transcript.len(),
{
    assert(after_update(s, msg).transcript.take(s.transcript.len() as int) =~= s.transcript);
    assert(after_tick(s, r, uart).transcript.take(s.transcript.len() as int) =~= s.transcript);
}

/// When the machine's UART output extends what the REPL last saw, a tick
/// copies exactly the new characters into the transcript, shows the whole
/// output, and leaves the transcript caught up.
pub proof fn law_tick_copies_new_output(s: ReplView, r: TickReport, uart: Seq<char>)
    requires
        caught_up(s),
        encode_utf8(uart).len() <= usize::MAX,
        s.output.len() <= uart.len(),
        uart.take(s.output.len() as int) == s.output,
    ensures
        after_tick(s, r, uart).transcript == s.transcript + uart.skip(s.output.len() as int),
        after_tick(s, r, uart).output == uart,
        caught_up(after_tick(s, r, uart)),
{
    broadcast use vstd::utf8::encode_utf8_decode_utf8;

    let rest = uart.skip(s.output.len() as int);
    assert(uart =~= s.output + rest);
    lemma_encode_utf8_concat(s.output, rest);
    let b = encode_utf8(uart);
    assert(b.subrange(s.uart_seen as int, b.len() as int) =~= encode_utf8(rest));
    if rest.len() > 0 {
        assert(encode_utf8(rest).len() > 0);
    } else {
        assert(rest =~= Seq::<char>::empty());
        assert(s.transcript + rest =~= s.transcript);
    }
}

/// After any tick the stack gauge never reads more than the whole stack
/// below the initial stack pointer.
pub proof fn law_stack_depth_bounded(s: ReplView, r: TickReport, uart: Seq<char>)
    ensures
        after_tick(s, r, uart).stack_depth <= s.stack_size.spec_initial_sp(),
        r.sp <= s.stack_size.spec_initial_sp() ==> after_tick(s, r, uart).stack_depth
            == s.stack_size.spec_initial_sp() - r.sp,
{
}

/// What a tick's feeding does, step by step as [`Repl::feed`] specifies it
/// ([`feed_step`]), while [`Repl::wants_feed`] holds: input is queued and
/// budget is left. `statuses[k]` is what the UART status register reads at
/// the `k`-th poll; with fewer readings than polls this describes the first
/// polls. The result: the bytes sent, the queue left, and the steps taken.
pub open spec fn feed_run(q: Seq<u8>, budget: u32, statuses: Seq<u8>) -> (Seq<u8>, Seq<u8>, nat)
    decreases statuses.len(),
{
    if q.len() == 0 || budget == 0 || statuses.len() == 0 {
        (seq![], q, 0)
    } else {
        let (q2, b, left, stop) = feed_step(q, budget, statuses[0]);
        let out: Seq<u8> = match b {
            Some(x) => seq![x],
            None => seq![],
        };
        if stop {
            (out, q2, 1)
        } else {
            let (sent, rest, n) = feed_run(q2, left, statuses.drop_first());
            (out + sent, rest, n + 1)
        }
    }
}

/// A tick's feeding sends queued bytes in order and loses none (what was
/// sent, then what is left, is what was queued), sends at most one line (a
/// newline only as the last byte sent), and takes at most one step per
/// [`FEED_BATCH`] instructions of budget, started or not.
pub proof fn law_feed_run(q: Seq<u8>, budget: u32, statuses: Seq<u8>)
    ensures
        ({
            let (sent, rest, n) = feed_run(q, budget, statuses);
            &&& sent + rest == q
            &&& forall|j: int| 0 <= j < sent.len() - 1 ==> #[trigger] sent[j] != 10
            &&& n == 0 || (n - 1) * FEED_BATCH < budget
        }),
    decreases statuses.len(),
{
    if q.len() == 0 || budget == 0 || statuses.len() == 0 {
        assert(seq![] + q =~= q);
    } else {
        let (q2, b, left, stop) = feed_step(q, budget, statuses[0]);
        let out: Seq<u8> = match b {
            Some(x) => seq![x],
            None => seq![],
        };
        if stop {
            assert(out + q2 =~= q);
        } else {
            law_feed_run(q2, left, statuses.drop_first());
            let (sent, rest, n) = feed_run(q2, left, statuses.drop_first());
            assert(out + sent + rest =~= out + (sent + rest));
            if statuses[0] & 1 == 0 {
                assert(out + q2 =~= q);
                assert(q[0] != 10);
            } else {
                assert(out + q2 =~= q2);
            }
            let all = out + sent;
            assert forall|j: int| 0 <= j < all.len() - 1 implies #[trigger] all[j] != 10 by {
                if j < out.len() {
                    assert(all[j] == out[j]);
                } else {
                    assert(all[j] == sent[j - out.len()]);
                }
            }
            if n > 0 {
                assert((n - 1) * FEED_BATCH < left);
                assert(n * FEED_BATCH < budget);
            }
        }
    }
}

/// With the full budget, a tick's feeding takes at most
/// `FEED_BUDGET / FEED_BATCH` steps.
pub proof fn law_feed_run_bounded(q: Seq<u8>, statuses: Seq<u8>)
    ensures
        feed_run(q, FEED_BUDGET, statuses).2 <= FEED_BUDGET / FEED_BATCH,
{
    law_feed_run(q, FEED_BUDGET, statuses);
}

/// Every feed step spends budget, so a tick's feeding ends after at most
/// `FEED_BUDGET / FEED_BATCH` steps.
pub proof fn law_feed_budget_shrinks(budget: u32)
    requires
        budget > 0,
    ensures
        saturating_sub(budget, FEED_BATCH) < budget,
        budget >= FEED_BATCH ==> saturating_sub(budget, FEED_BATCH) == budget - FEED_BATCH,
{
}

/// Each option of the prelude selector that [`Repl::view_model`] lists reads
/// back as its own tier, in selector order, and exactly the tier in use is
/// selected.
pub proof fn law_view_model_prelude_options(opts: Seq<SelectOption>, current: PreludeTier)
    requires
        is_prelude_options(opts, current),
    ensures
        forall|i: int|
            0 <= i < opts.len() ==> PreludeTier::spec_from_select_value(#[trigger] opts[i].value@)
                == all_tiers()[i] && (opts[i].selected <==> all_tiers()[i] == current),
{
    assert forall|i: int| 0 <= i < opts.len() implies PreludeTier::spec_from_select_value(
        #[trigger] opts[i].value@,
    ) == all_tiers()[i] by {
        law_prelude_select_round_trip(all_tiers()[i]);
    }
}

/// Each option of the stack selector that [`Repl::view_model`] lists reads
/// back as its own size, and exactly the size in use is selected.
pub proof fn law_view_model_stack_options(opts: Seq<SelectOption>, current: StackSize)
    requires
        is_stack_options(opts, current),
    ensures
        forall|i: int|
            0 <= i < opts.len() ==> StackSize::spec_from_select_value(#[trigger] opts[i].value@)
                == all_stack_sizes()[i] && (opts[i].selected <==> all_stack_sizes()[i] == current),
{
    assert forall|i: int| 0 <= i < opts.len() implies StackSize::spec_from_select_value(
        #[trigger] opts[i].value@,
    ) == all_stack_sizes()[i] by {
        law_stack_select_round_trip(all_stack_sizes()[i]);
    }
}

/// Each demo option that [`Repl::view_model`] lists reads back, through the
/// demo selector's parsing, as the position of its demo.
pub proof fn law_view_model_demo_options(
    g: DemoGroup,
    demos: Seq<Demo>,
    t: PreludeTier,
    selected: Option<usize>,
)
    requires
        is_group(g, demos, t, selected),
    ensures
        forall|j: int|
            0 <= j < g.options@.len() ==> demo_index_of(#[trigger] g.options@[j].value@)
                == demos_of_tier(demos, t)[j],
{
    assert forall|j: int| 0 <= j < g.options@.len() implies demo_index_of(
        #[trigger] g.options@[j].value@,
    ) == demos_of_tier(demos, t)[j] by {
        law_demo_index_round_trip(demos_of_tier(demos, t)[j]);
    }
}

/// The prelude selector reads back the tier each of its options stands for.
pub proof fn law_prelude_select_round_trip(t: PreludeTier)
    ensures
        PreludeTier::spec_from_select_value(t.spec_select_value()) == t,
{
    reveal_strlit("bare");
    reveal_strlit("minimal");
    reveal_strlit("standard");
    reveal_strlit("full");
    reveal_strlit("scheme");
    assert("bare"@.len() == 4);
    assert("minimal"@.len() == 7);
    assert("standard"@.len() == 8);
    assert("full"@.len() == 4);
    assert("scheme"@.len() == 6);
    assert("bare"@[0] != "full"@[0]);
}

/// The stack selector reads back the size each of its options stands for.
pub proof fn law_stack_select_round_trip(z: StackSize)
    ensures
        StackSize::spec_from_select_value(z.spec_select_value()) == z,
{
    reveal_strlit("3");
    reveal_strlit("8");
    assert("3"@[0] != "8"@[0]);
}

/// The demo selector reads back the position each demo option carries.
pub proof fn law_demo_index_round_trip(i: usize)
    ensures
        demo_index_of(decimal(i as nat)) == i,
{
    lemma_decimal_digits(i as nat);
    assert(unsigned_digits(decimal(i as nat)) == decimal(i as nat));
    assert(parses_as_usize(decimal(i as nat)));
}

/// The rank of a gauge level: green, yellow, red.
pub open spec fn level_rank(l: GaugeLevel) -> int {
    match l {
        GaugeLevel::Green => 0,
        GaugeLevel::Yellow => 1,
        GaugeLevel::Red => 2,
    }
}

/// A fuller gauge never shows a lower level.
pub proof fn law_gauge_level_monotone(a: u32, b: u32, total: u32)
    requires
        a <= b,
    ensures
        level_rank(gauge_level(a, total)) <= level_rank(gauge_level(b, total)),
{
    assert(a * 100 <= b * 100) by (nonlinear_arith)
        requires
            a <= b,
    ;
}

// ---------------------------------------------------------------------------
// What each operation is for, stated over its inputs
// ---------------------------------------------------------------------------

/// A demo whose prelude or stack differs from the one in use is loaded on a
/// freshly assembled interpreter: the machine stops and a reload is asked for,
/// with the demo's prelude and stack selected.
pub proof fn law_demo_with_other_settings_reloads(s: ReplView, i: usize)
    requires
        i < s.demos.len(),
        s.demos[i as int].prelude != s.prelude || s.demos[i as int].stack != s.stack_size,
    ensures
        update_commands(s, Msg::LoadDemo(i)) == seq![Command::Load],
        !after_update(s, Msg::LoadDemo(i)).running,
        after_update(s, Msg::LoadDemo(i)).prelude == s.demos[i as int].prelude,
        after_update(s, Msg::LoadDemo(i)).stack_size == s.demos[i as int].stack,
{
}

/// A demo for the prelude and stack already in use keeps the machine: no
/// reload, and the run state, transcript and output are untouched.
pub proof fn law_demo_with_same_settings_keeps_machine(s: ReplView, i: usize)
    requires
        i < s.demos.len(),
        s.demos[i as int].prelude == s.prelude,
        s.demos[i as int].stack == s.stack_size,
    ensures
        update_commands(s, Msg::LoadDemo(i)).len() == 0,
        after_update(s, Msg::LoadDemo(i)).running == s.running,
        after_update(s, Msg::LoadDemo(i)).loaded == s.loaded,
        after_update(s, Msg::LoadDemo(i)).transcript == s.transcript,
        after_update(s, Msg::LoadDemo(i)).output == s.output,
        after_update(s, Msg::LoadDemo(i)).uart_tx_queue == s.uart_tx_queue,
{
}

/// After a batch that used up its cycles, the REPL waits for input exactly
/// when nothing is left to type and the UART output ends in the prompt: its
/// last two characters are `>` and a space. Then the machine stops, the
/// status is "Ready." and the CPU is idle; otherwise the tick is retried and
/// the run state and status stay as they were.
pub proof fn law_ready_only_at_prompt(s: ReplView, r: TickReport, uart: Seq<char>)
    requires
        r.stop == StopKind::CycleLimit,
    ensures
        ({
            let t = after_tick(s, r, uart);
            let prompt = uart.len() >= 2 && uart[uart.len() - 2] == '>' && uart[uart.len() - 1]
                == ' ';
            &&& (prompt && s.uart_tx_queue.len() == 0) ==> {
                &&& t.waiting_for_input
                &&& !t.running
                &&& t.status == "Ready."@
                &&& !tick_retries(s, r, uart)
                &&& tick_idles(s, r, uart)
            }
            &&& !(prompt && s.uart_tx_queue.len() == 0) ==> {
                &&& t.waiting_for_input == s.waiting_for_input
                &&& t.running == s.running
                &&& t.status == s.status
                &&& tick_retries(s, r, uart)
                &&& !tick_idles(s, r, uart)
            }
        }),
{
}

/// A batch that halted, paused, or met an invalid instruction or a breakpoint
/// stops the machine and is not retried; only a halt leaves the CPU idle and
/// ends the wait for input, and it reports "Program finished.".
pub proof fn law_tick_stops(s: ReplView, r: TickReport, uart: Seq<char>)
    requires
        r.stop != StopKind::CycleLimit,
    ensures
        !after_tick(s, r, uart).running,
        !tick_retries(s, r, uart),
        tick_idles(s, r, uart) == (r.stop == StopKind::Halted),
        r.stop == StopKind::Halted ==> after_tick(s, r, uart).status == "Program finished."@
            && !after_tick(s, r, uart).waiting_for_input,
        r.stop == StopKind::Paused ==> after_tick(s, r, uart).status == "Paused."@,
{
}

/// A tick reads the LED from bit 0 of its register where the batch changed
/// it, takes the memory counters it was given, and shows the UART output.
pub proof fn law_tick_samples(s: ReplView, r: TickReport, uart: Seq<char>)
    ensures
        after_tick(s, r, uart).led_on == (match r.led {
            Some(v) => v % 2 == 1,
            None => s.led_on,
        }),
        r.heap_word is Some ==> after_tick(s, r, uart).heap_used == r.heap_word->0,
        r.sym_word is Some ==> after_tick(s, r, uart).sym_used == r.sym_word->0,
        r.str_pool_word is Some ==> after_tick(s, r, uart).str_pool_used == r.str_pool_word->0,
        after_tick(s, r, uart).output == uart,
{
    if let Some(v) = r.led {
        assert((v & 1 != 0) == (v % 2 == 1)) by (bit_vector);
    }
}

proof fn lemma_split_lines_single(x: Seq<char>)
    requires
        forall|i: int| 0 <= i < x.len() ==> #[trigger] x[i] != '\n',
    ensures
        split_lines(x) == (Seq::<Seq<char>>::empty(), x),
    decreases x.len(),
{
    if x.len() > 0 {
        assert forall|i: int| 0 <= i < x.drop_last().len() implies #[trigger] x.drop_last()[i]
            != '\n' by {
            assert(x.drop_last()[i] == x[i]);
        }
        lemma_split_lines_single(x.drop_last());
        assert(x[x.len() - 1] != '\n');
        assert(x.drop_last().push(x.last()) =~= x);
    }
}

proof fn lemma_submitted_single_line(x: Seq<char>)
    requires
        x.len() > 0,
        forall|i: int| 0 <= i < x.len() ==> #[trigger] x[i] != '\n',
    ensures
        submitted_text(x) == echo_line(x),
{
    lemma_split_lines_single(x);
    assert(lines(x) =~= seq![x]);
    assert(seq![x].drop_last() =~= Seq::<Seq<char>>::empty());
    assert(echo_lines(Seq::<Seq<char>>::empty()) =~= Seq::<char>::empty());
    assert(Seq::<char>::empty() + echo_line(x) =~= echo_line(x));
}

/// A one-line input that holds any character that is not whitespace is
/// submitted whole, leading and trailing spaces included, with a newline.
pub proof fn law_nonblank_line_is_submitted(x: Seq<char>, k: int)
    requires
        0 <= k < x.len(),
        !is_white_space(x[k]),
        forall|i: int| 0 <= i < x.len() ==> #[trigger] x[i] != '\n',
    ensures
        submitted_text(x) == x.push('\n'),
{
    lemma_submitted_single_line(x);
    assert(!is_blank(x));
}

/// A one-line input made only of whitespace submits nothing.
pub proof fn law_blank_line_is_dropped(x: Seq<char>)
    requires
        forall|i: int| 0 <= i < x.len() ==> #[trigger] is_white_space(x[i]),
        forall|i: int| 0 <= i < x.len() ==> #[trigger] x[i] != '\n',
    ensures
        submitted_text(x) == Seq::<char>::empty(),
{
    if x.len() > 0 {
        lemma_submitted_single_line(x);
    } else {
        assert(split_lines(x) == (Seq::<Seq<char>>::empty(), x));
    }
}

/// Which characters count as whitespace: the ASCII blanks do, printable
/// ASCII characters other than the space do not.
pub proof fn law_white_space_ascii(c: char)
    ensures
        (c == ' ' || c == '\t' || c == '\n' || c == '\r' || (c as u32) == 0x0B || (c as u32)
            == 0x0C) ==> is_white_space(c),
        (0x21 <= (c as u32) <= 0x7E) ==> !is_white_space(c),
{
}

/// Evaluation is refused exactly while the interpreter is busy or missing: a
/// loaded REPL that is stopped, or waiting at its prompt, accepts input; an
/// unloaded one, or one that runs and does not wait, refuses it.
pub proof fn law_eval_enabled_exactly_when_idle(s: ReplView)
    ensures
        (s.loaded && !s.running) ==> !eval_disabled(s),
        (s.loaded && s.waiting_for_input) ==> !eval_disabled(s),
        !s.loaded ==> eval_disabled(s),
        (s.running && !s.waiting_for_input) ==> eval_disabled(s),
{
}

/// After pausing a running interpreter, or after its program halted, the user
/// can evaluate again.
pub proof fn law_eval_enabled_after_pause_or_halt(s: ReplView, r: TickReport, uart: Seq<char>)
    requires
        consistent(s),
        s.running,
        r.stop == StopKind::Halted,
    ensures
        !eval_disabled(after_update(s, Msg::PauseResume)),
        !eval_disabled(after_tick(s, r, uart)),
{
}

/// The page shows the transcript in the one-line layout and the raw output in
/// the split one; the busy indicator shows while the interpreter runs without
/// waiting; the pause button reads "Pause" while it runs.
pub proof fn law_view_shows(s: ReplView)
    ensures
        s.view_mode == ViewMode::Cli ==> output_text(s) == s.transcript,
        s.view_mode == ViewMode::Split ==> output_text(s) == s.output,
        show_spinner(s) == (s.running && !s.waiting_for_input),
        pause_label(s.running) == (if s.running {
            "Pause"@
        } else {
            "Resume"@
        }),
{
}

/// A successful load starts afresh: LED off, switch released, gauges at
/// zero, nothing queued, transcript and output empty, the machine running
/// the new interpreter, the memory counters' addresses those assembled.
pub proof fn law_successful_load_starts_afresh(s: ReplView, a: Assembled)
    requires
        a.errors@.len() == 0,
    ensures
        ({
            let t = after_load(s, a);
            &&& !t.led_on
            &&& !t.switch_pressed
            &&& t.heap_used == 0 && t.sym_used == 0 && t.str_pool_used == 0 && t.stack_depth == 0
            &&& t.uart_tx_queue.len() == 0
            &&& t.transcript.len() == 0 && t.output.len() == 0 && t.uart_seen == 0
            &&& t.loaded && t.running && !t.waiting_for_input
            &&& t.addr_heap_next == a.heap_next && t.addr_sym_count == a.sym_count
                && t.addr_str_pool_next == a.str_pool_next
            &&& t.prelude == s.prelude && t.stack_size == s.stack_size
            &&& t.input == s.input
        }),
{
}

/// A failed load reports the first assembler error, marks the interpreter
/// as not loaded, and keeps the transcript, output, queue and input.
pub proof fn law_failed_load_reports_first_error(s: ReplView, a: Assembled)
    requires
        a.errors@.len() > 0,
    ensures
        ({
            let t = after_load(s, a);
            &&& !t.loaded
            &&& t.status == "Assembly failed: "@ + a.errors@[0]@
            &&& t.transcript == s.transcript && t.output == s.output
            &&& t.uart_tx_queue == s.uart_tx_queue && t.input == s.input
            &&& t.running == s.running && t.led_on == s.led_on
        }),
{
}

/// Evaluating on a loaded interpreter sets it running, no longer waiting,
/// with status "Evaluating..."; the one-line layout clears the input, the
/// split layout keeps it; a stopped machine is resumed and ticked.
pub proof fn law_eval_effects(s: ReplView)
    requires
        s.loaded,
    ensures
        ({
            let t = after_update(s, Msg::Eval);
            &&& t.running && !t.waiting_for_input
            &&& t.status == "Evaluating..."@
            &&& (s.view_mode == ViewMode::Cli ==> t.input.len() == 0)
            &&& (s.view_mode == ViewMode::Split ==> t.input == s.input)
            &&& update_commands(s, Msg::Eval) == (if s.running {
                Seq::<Command>::empty()
            } else {
                seq![Command::Resume, Command::ScheduleTick]
            })
        }),
{
    assert(seq![Command::Resume, Command::ScheduleTick].len() == 2);
}

/// Enter without Shift in the one-line input submits it; any other key does
/// nothing. A key press never changes the state nor redraws the page.
pub proof fn law_enter_submits(s: ReplView, k: KeyPress)
    ensures
        after_update(s, Msg::CliKeyDown(k)) == s,
        !update_renders(s, Msg::CliKeyDown(k)),
        (k.key@ == "Enter"@ && !k.shift) ==> update_commands(s, Msg::CliKeyDown(k)) == seq![
            Command::PreventDefault,
            Command::SendEval,
        ],
        !(k.key@ == "Enter"@ && !k.shift) ==> update_commands(s, Msg::CliKeyDown(k)).len() == 0,
{
}

/// Clearing empties the transcript, the raw output, the input and the demo
/// selection, forgets what UART output was seen, and clears the machine's
/// UART output too.
pub proof fn law_clear_all(s: ReplView)
    ensures
        after_update(s, Msg::ClearAll).transcript.len() == 0,
        after_update(s, Msg::ClearAll).output.len() == 0,
        after_update(s, Msg::ClearAll).input.len() == 0,
        after_update(s, Msg::ClearAll).uart_seen == 0,
        after_update(s, Msg::ClearAll).selected_demo is None,
        after_update(s, Msg::ClearAll).running == s.running,
        update_commands(s, Msg::ClearAll) == seq![Command::ClearUartOutput],
{
}

/// The gauge levels in percent: below 60 green, below 85 yellow, else red.
pub proof fn law_gauge_thresholds(used: u32, total: u32)
    requires
        total > 0,
    ensures
        used * 100 < 60 * total ==> gauge_level(used, total) == GaugeLevel::Green,
        60 * total <= used * 100 < 85 * total ==> gauge_level(used, total) == GaugeLevel::Yellow,
        85 * total <= used * 100 ==> gauge_level(used, total) == GaugeLevel::Red,
        gauge_level(0, total) == GaugeLevel::Green,
{
}

proof fn lemma_split_lines_after_newline(a: Seq<char>, b: Seq<char>)
    requires
        a.len() > 0,
        a.last() == '\n',
    ensures
        split_lines(a + b) == (split_lines(a).0 + split_lines(b).0, split_lines(b).1),
        split_lines(a).1.len() == 0,
    decreases b.len(),
{
    assert((a + seq![]).len() == a.len());
    if b.len() == 0 {
        assert(a + b =~= a);
        assert(split_lines(a).0 + Seq::<Seq<char>>::empty() =~= split_lines(a).0);
    } else {
        lemma_split_lines_after_newline(a, b.drop_last());
        assert((a + b).drop_last() =~= a + b.drop_last());
        assert((a + b).last() == b.last());
        let (da, oa) = split_lines(a);
        let (db, ob) = split_lines(b.drop_last());
        if b.last() == '\n' {
            assert((da + db).push(crate::text::strip_cr(ob)) =~= da + db.push(crate::text::strip_cr(ob)));
        }
    }
    assert(split_lines(a).1 == Seq::<char>::empty()) by {
        assert(a.drop_last().push(a.last()) =~= a);
    }
}

proof fn lemma_echo_lines_concat(x: Seq<Seq<char>>, y: Seq<Seq<char>>)
    ensures
        echo_lines(x + y) == echo_lines(x) + echo_lines(y),
    decreases y.len(),
{
    if y.len() == 0 {
        assert(x + y =~= x);
        assert(echo_lines(x) + Seq::<char>::empty() =~= echo_lines(x));
    } else {
        lemma_echo_lines_concat(x, y.drop_last());
        assert((x + y).drop_last() =~= x + y.drop_last());
        assert((x + y).last() == y.last());
        assert(echo_lines(x) + echo_lines(y.drop_last()) + echo_line(y.last()) =~= echo_lines(x)
            + (echo_lines(y.drop_last()) + echo_line(y.last())));
    }
}

/// Input made of a part that ends with a newline followed by more input
/// submits what the first part submits, then what the rest submits: lines
/// are taken one by one, in order.
pub proof fn law_submitted_text_splits_at_newlines(a: Seq<char>, b: Seq<char>)
    requires
        a.len() > 0,
        a.last() == '\n',
    ensures
        submitted_text(a + b) == submitted_text(a) + submitted_text(b),
{
    lemma_split_lines_after_newline(a, b);
    let (da, oa) = split_lines(a);
    let (db, ob) = split_lines(b);
    assert(lines(a) == da);
    if ob.len() == 0 {
        assert(lines(a + b) == da + db);
    } else {
        assert(lines(a + b) =~= da + db.push(ob));
        assert(lines(b) == db.push(ob));
    }
    lemma_echo_lines_concat(da, lines(b));
}

/// A non-blank line ended by a newline, or by a carriage return and a
/// newline, is submitted as the line and one newline.
pub proof fn law_line_ending_is_normalised(x: Seq<char>, k: int)
    requires
        0 <= k < x.len(),
        !is_white_space(x[k]),
        forall|i: int| 0 <= i < x.len() ==> #[trigger] x[i] != '\n',
        x.last() != '\r',
    ensures
        submitted_text(x.push('\n')) == x.push('\n'),
        submitted_text(x + seq!['\r', '\n']) == x.push('\n'),
{
    lemma_split_lines_single(x);
    assert(x.push('\n').drop_last() =~= x);
    assert(crate::text::strip_cr(x) == x);
    assert(lines(x.push('\n')) =~= seq![x]);
    let y = x.push('\r');
    assert forall|i: int| 0 <= i < y.len() implies #[trigger] y[i] != '\n' by {
        if i < x.len() {
            assert(y[i] == x[i]);
        }
    }
    lemma_split_lines_single(y);
    assert((x + seq!['\r', '\n']).drop_last() =~= y);
    assert(crate::text::strip_cr(y) =~= x);
    assert(lines(x + seq!['\r', '\n']) =~= seq![x]);
    assert(seq![x].drop_last() =~= Seq::<Seq<char>>::empty());
    assert(echo_lines(Seq::<Seq<char>>::empty()) =~= Seq::<char>::empty());
    assert(!is_blank(x));
    assert(Seq::<char>::empty() + x.push('\n') =~= x.push('\n'));
}

/// Choosing another prelude or stack stops the machine and reloads the
/// interpreter with the new setting; a reset reloads the same one.
pub proof fn law_setting_change_reloads(s: ReplView, t: PreludeTier, z: StackSize)
    ensures
        t != s.prelude ==> update_commands(s, Msg::SetPrelude(t)) == seq![Command::Load]
            && !after_update(s, Msg::SetPrelude(t)).running && after_update(
            s,
            Msg::SetPrelude(t),
        ).prelude == t,
        z != s.stack_size ==> update_commands(s, Msg::SetStack(z)) == seq![Command::Load]
            && !after_update(s, Msg::SetStack(z)).running && after_update(
            s,
            Msg::SetStack(z),
        ).stack_size == z,
        update_commands(s, Msg::Reset) == seq![Command::Load],
        !after_update(s, Msg::Reset).running,
        update_commands(s, Msg::Init) == seq![Command::Load],
{
}

/// A tick message runs a tick only while the machine runs; otherwise it does
/// nothing and draws nothing. Typing changes only the input, without a redraw.
pub proof fn law_tick_and_typing(s: ReplView, v: String)
    ensures
        s.running ==> update_commands(s, Msg::Tick) == seq![Command::RunTick] && update_renders(
            s,
            Msg::Tick,
        ),
        !s.running ==> update_commands(s, Msg::Tick).len() == 0 && !update_renders(s, Msg::Tick),
        after_update(s, Msg::Tick) == s,
        after_update(s, Msg::InputChanged(v)).input == v@,
        after_update(s, Msg::InputChanged(v)).transcript == s.transcript,
        after_update(s, Msg::InputChanged(v)).uart_tx_queue == s.uart_tx_queue,
        !update_renders(s, Msg::InputChanged(v)),
        update_commands(s, Msg::InputChanged(v)).len() == 0,
{
}

/// The input a demo gives neither starts nor ends with whitespace, and never
/// starts with a `;;` comment line.
pub proof fn law_demo_input_is_trimmed(source: Seq<char>)
    ensures
        demo_input(source).len() > 0 ==> !is_white_space(demo_input(source)[0]) && !is_white_space(
            demo_input(source).last(),
        ),
{
    lemma_trim_ends(crate::text::strip_comment_header(source));
}

proof fn lemma_trim_start_front(s: Seq<char>)
    ensures
        crate::text::trim_start(s).len() > 0 ==> !is_white_space(crate::text::trim_start(s)[0]),
        crate::text::trim_start(s).len() <= s.len(),
        crate::text::trim_start(s) =~= s.skip(s.len() - crate::text::trim_start(s).len()),
    decreases s.len(),
{
    if s.len() > 0 && is_white_space(s[0]) {
        lemma_trim_start_front(s.drop_first());
        let t = crate::text::trim_start(s.drop_first());
        assert(s.drop_first().skip(s.drop_first().len() - t.len()) =~= s.skip(s.len() - t.len()));
    } else {
        assert(s.skip(0) =~= s);
    }
}

proof fn lemma_trim_end_back(s: Seq<char>)
    ensures
        crate::text::trim_end(s).len() > 0 ==> !is_white_space(crate::text::trim_end(s).last()),
        crate::text::trim_end(s) =~= s.take(crate::text::trim_end(s).len() as int),
        crate::text::trim_end(s).len() <= s.len(),
    decreases s.len(),
{
    if s.len() > 0 && is_white_space(s.last()) {
        lemma_trim_end_back(s.drop_last());
        let t = crate::text::trim_end(s.drop_last());
        assert(s.drop_last().take(t.len() as int) =~= s.take(t.len() as int));
    } else {
        assert(s.take(s.len() as int) =~= s);
    }
}

proof fn lemma_trim_ends(s: Seq<char>)
    ensures
        crate::text::trim(s).len() > 0 ==> !is_white_space(crate::text::trim(s)[0])
            && !is_white_space(crate::text::trim(s).last()),
{
    let a = crate::text::trim_start(s);
    lemma_trim_start_front(s);
    lemma_trim_end_back(a);
    let b = crate::text::trim_end(a);
    if b.len() > 0 {
        assert(b[0] == a[0]);
    }
}

} // verus!
