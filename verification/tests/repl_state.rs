use web_tml24c::config::{PreludeTier, StackSize};
use web_tml24c::repl::{
    Assembled, Command, Demo, KeyPress, Msg, Repl, StopKind, TickReport, ViewMode, FEED_BATCH,
};

fn demo(title: &str, source: &str, prelude: PreludeTier, stack: StackSize) -> Demo {
    Demo {
        title: title.to_string(),
        description: String::new(),
        source: source.to_string(),
        prelude,
        stack,
        category: "Language".to_string(),
    }
}

fn demos() -> Vec<Demo> {
    vec![
        demo("tco", ";; tail calls\n(countdown 10)\n", PreludeTier::Minimal, StackSize::EightKb),
        demo("macros", "  (let ((x 1)) x)  \n", PreludeTier::Standard, StackSize::ThreeKb),
        demo("lazy", "(lazy-take 3 nat)", PreludeTier::Full, StackSize::EightKb),
        demo("bottles", "(bottles 5)", PreludeTier::Standard, StackSize::ThreeKb),
    ]
}

fn ok_assembly(n_bytes: usize) -> Assembled {
    Assembled {
        errors: vec![],
        n_bytes,
        heap_next: Some(0x1000),
        sym_count: Some(0x1004),
        str_pool_next: None,
    }
}

fn loaded_repl() -> Repl {
    let mut r = Repl::create(demos());
    let u = r.update(Msg::Init);
    assert_eq!(u.commands, vec![Command::Load]);
    assert_eq!(r.load_binary(ok_assembly(4096)), Some(0xFEEC00));
    r
}

fn report(stop: StopKind) -> TickReport {
    TickReport { led: None, heap_word: None, sym_word: None, str_pool_word: None, sp: 0xFEEC00, pc: 0, stop }
}

#[test]
fn fresh_repl_defaults() {
    let r = Repl::create(demos());
    assert_eq!(r.input(), "(+ 1 2)");
    assert_eq!(r.status(), "Assembling interpreter...");
    assert_eq!(r.prelude(), PreludeTier::Standard);
    assert_eq!(r.stack_size(), StackSize::ThreeKb);
    assert_eq!(r.view_mode(), ViewMode::Cli);
    assert!(!r.is_running());
    assert!(!r.is_loaded());
    assert_eq!(r.selected_demo(), None);
}

#[test]
fn load_success_and_status() {
    let r = loaded_repl();
    assert!(r.is_loaded());
    assert!(r.is_running());
    assert_eq!(r.status(), "Loaded 4096 bytes (Standard, 3 KB stack).");
    assert_eq!(r.heap_address(), Some(0x1000));
    assert_eq!(r.sym_count_address(), Some(0x1004));
    assert_eq!(r.str_pool_address(), None);
    assert_eq!(r.transcript(), "");
    assert_eq!(r.uart_seen(), 0);
}

#[test]
fn load_with_eight_kb_stack_gives_its_stack_pointer() {
    let mut r = loaded_repl();
    let u = r.update(Msg::SetStack(StackSize::EightKb));
    assert_eq!(u.commands, vec![Command::Load]);
    assert!(!r.is_running());
    assert_eq!(r.load_binary(ok_assembly(7)), Some(0xFF0000));
    assert_eq!(r.status(), "Loaded 7 bytes (Standard, 8 KB stack).");
}

#[test]
fn load_failure_reports_first_error() {
    let mut r = Repl::create(demos());
    let sp = r.load_binary(Assembled {
        errors: vec!["line 3: unknown mnemonic".to_string(), "line 9: bad label".to_string()],
        n_bytes: 0,
        heap_next: None,
        sym_count: None,
        str_pool_next: None,
    });
    assert_eq!(sp, None);
    assert!(!r.is_loaded());
    assert_eq!(r.status(), "Assembly failed: line 3: unknown mnemonic");
}

#[test]
fn eval_echoes_and_sends_non_blank_lines() {
    let mut r = loaded_repl();
    r.update(Msg::InputChanged("(+ 1 2)\n\n   \r\n(car '(1))\r\n".to_string()));
    let u = r.update(Msg::Eval);
    assert!(u.render);
    // Already running: no resume.
    assert_eq!(u.commands, vec![]);
    assert_eq!(r.transcript(), "(+ 1 2)\n(car '(1))\n");
    assert_eq!(r.pending_input(), b"(+ 1 2)\n(car '(1))\n".to_vec());
    assert_eq!(r.status(), "Evaluating...");
    assert_eq!(r.input(), "");
}

#[test]
fn eval_resumes_a_stopped_machine() {
    let mut r = loaded_repl();
    r.finish_tick(report(StopKind::Halted), "");
    assert!(!r.is_running());
    let u = r.update(Msg::Eval);
    assert_eq!(u.commands, vec![Command::Resume, Command::ScheduleTick]);
    assert!(r.is_running());
}

#[test]
fn eval_in_split_view_keeps_input() {
    let mut r = loaded_repl();
    r.update(Msg::ToggleView);
    r.update(Msg::InputChanged("(define x 1)\n(+ x 1)".to_string()));
    r.update(Msg::Eval);
    assert_eq!(r.input(), "(define x 1)\n(+ x 1)");
    assert_eq!(r.transcript(), "(define x 1)\n(+ x 1)\n");
}

#[test]
fn eval_sends_utf8() {
    let mut r = loaded_repl();
    r.update(Msg::InputChanged("(display \"é€😀\")".to_string()));
    r.update(Msg::Eval);
    let mut expected = "(display \"é€😀\")".as_bytes().to_vec();
    expected.push(b'\n');
    assert_eq!(r.pending_input(), expected);
}

#[test]
fn eval_keeps_carriage_return_on_unterminated_line() {
    let mut r = loaded_repl();
    r.update(Msg::InputChanged("a\r".to_string()));
    r.update(Msg::Eval);
    assert_eq!(r.transcript(), "a\r\n");
}

#[test]
fn eval_of_only_unicode_blank_lines_sends_nothing() {
    let mut r = loaded_repl();
    r.update(Msg::InputChanged("\u{3000}\n\u{00A0}\t\n".to_string()));
    r.update(Msg::Eval);
    assert_eq!(r.transcript(), "");
    assert!(r.pending_input().is_empty());
}

#[test]
fn eval_without_interpreter_does_nothing() {
    let mut r = Repl::create(demos());
    let u = r.update(Msg::Eval);
    assert!(u.render);
    assert!(u.commands.is_empty());
    assert_eq!(r.input(), "(+ 1 2)");
    assert_eq!(r.transcript(), "");
    assert!(r.pending_input().is_empty());
}

#[test]
fn feed_waits_while_uart_busy() {
    let mut r = loaded_repl();
    r.update(Msg::Eval);
    assert!(r.wants_feed(10_000));
    let step = r.feed(10_000, 0x01);
    assert_eq!(step.byte, None);
    assert!(!step.stop);
    assert_eq!(step.budget, 10_000 - FEED_BATCH);
    assert_eq!(r.pending_input().len(), 8);
}

#[test]
fn feed_sends_bytes_in_order_and_stops_after_newline() {
    let mut r = loaded_repl();
    r.update(Msg::InputChanged("ab\ncd".to_string()));
    r.update(Msg::Eval);
    let mut sent = Vec::new();
    let mut budget = 10_000;
    while r.wants_feed(budget) {
        let step = r.feed(budget, 0x00);
        budget = step.budget;
        sent.push(step.byte.unwrap());
        if step.stop {
            break;
        }
    }
    assert_eq!(sent, b"ab\n".to_vec());
    assert_eq!(r.pending_input(), b"cd\n".to_vec());
    assert_eq!(budget, 10_000 - 3 * 50);
}

#[test]
fn feed_budget_saturates() {
    let mut r = loaded_repl();
    r.update(Msg::Eval);
    let step = r.feed(30, 0x00);
    assert_eq!(step.budget, 0);
    assert!(!r.wants_feed(0));
}

#[test]
fn tick_at_prompt_becomes_ready() {
    let mut r = loaded_repl();
    let out = r.finish_tick(report(StopKind::CycleLimit), "tml24c\n> ");
    assert!(!out.retry);
    assert!(out.cpu_idle);
    assert!(!r.is_running());
    assert!(r.is_waiting_for_input());
    assert_eq!(r.status(), "Ready.");
    assert_eq!(r.transcript(), "tml24c\n> ");
    assert_eq!(r.output(), "tml24c\n> ");
    assert_eq!(r.uart_seen(), 9);
}

#[test]
fn tick_busy_retries() {
    let mut r = loaded_repl();
    let out = r.finish_tick(report(StopKind::CycleLimit), "compu");
    assert!(out.retry);
    assert!(!out.cpu_idle);
    assert!(r.is_running());
    assert_eq!(r.status(), "Loaded 4096 bytes (Standard, 3 KB stack).");
}

#[test]
fn tick_with_queued_input_is_not_ready_even_at_prompt() {
    let mut r = loaded_repl();
    r.update(Msg::Eval);
    let out = r.finish_tick(report(StopKind::CycleLimit), "> ");
    assert!(out.retry);
    assert!(r.is_running());
}

#[test]
fn transcript_interleaves_echo_and_output() {
    let mut r = loaded_repl();
    r.finish_tick(report(StopKind::CycleLimit), "> ");
    r.update(Msg::Eval);
    r.finish_tick(report(StopKind::CycleLimit), "> 3\n> ");
    assert_eq!(r.transcript(), "> (+ 1 2)\n3\n> ");
    assert_eq!(r.output(), "> 3\n> ");
}

#[test]
fn transcript_copies_multibyte_output_once() {
    let mut r = loaded_repl();
    r.finish_tick(report(StopKind::CycleLimit), "é");
    r.finish_tick(report(StopKind::CycleLimit), "é→x");
    assert_eq!(r.transcript(), "é→x");
    assert_eq!(r.uart_seen(), "é→x".len());
}

#[test]
fn tick_halted_invalid_breakpoint_paused() {
    let mut r = loaded_repl();
    let out = r.finish_tick(report(StopKind::Halted), "bye\n");
    assert!(out.cpu_idle && !out.retry);
    assert_eq!(r.status(), "Program finished.");
    assert!(!r.is_running());

    let mut r = loaded_repl();
    let mut rep = report(StopKind::InvalidInstruction(0x0A));
    rep.pc = 0x1234;
    let out = r.finish_tick(rep, "");
    assert!(!out.cpu_idle && !out.retry);
    assert_eq!(r.status(), "Invalid instruction 0x0A at PC=0x001234");

    let mut r = loaded_repl();
    r.finish_tick(report(StopKind::Breakpoint(0xFEED)), "");
    assert_eq!(r.status(), "Breakpoint at 0x00FEED");

    let mut r = loaded_repl();
    r.finish_tick(report(StopKind::Breakpoint(0xABCDEF1)), "");
    assert_eq!(r.status(), "Breakpoint at 0xABCDEF1");

    let mut r = loaded_repl();
    r.finish_tick(report(StopKind::Paused), "");
    assert_eq!(r.status(), "Paused.");
    assert!(!r.is_running());
}

#[test]
fn tick_samples_led_gauges_and_stack() {
    let mut r = loaded_repl();
    let rep = TickReport {
        led: Some(3),
        heap_word: Some(120),
        sym_word: Some(40),
        str_pool_word: Some(9),
        sp: 0xFEEB00,
        pc: 0,
        stop: StopKind::CycleLimit,
    };
    r.finish_tick(rep, "");
    assert!(r.led_on());
    assert_eq!(r.heap_used(), 120);
    assert_eq!(r.sym_used(), 40);
    assert_eq!(r.str_pool_used(), 9);
    assert_eq!(r.stack_depth(), 256);
    let rep = TickReport { led: Some(2), heap_word: None, sym_word: None, str_pool_word: None, sp: 0xFFFFFF, pc: 0, stop: StopKind::CycleLimit };
    r.finish_tick(rep, "");
    assert!(!r.led_on());
    assert_eq!(r.heap_used(), 120);
    assert_eq!(r.stack_depth(), 0);
}

#[test]
fn tick_when_stopped_does_nothing() {
    let mut r = Repl::create(demos());
    let u = r.update(Msg::Tick);
    assert!(!u.render);
    assert!(u.commands.is_empty());
    let mut r = loaded_repl();
    let u = r.update(Msg::Tick);
    assert!(u.render);
    assert_eq!(u.commands, vec![Command::RunTick]);
}

#[test]
fn toggle_view_and_switch() {
    let mut r = loaded_repl();
    r.update(Msg::ToggleView);
    assert_eq!(r.view_mode(), ViewMode::Split);
    r.update(Msg::ToggleView);
    assert_eq!(r.view_mode(), ViewMode::Cli);
    let u = r.update(Msg::ToggleSwitch);
    assert_eq!(u.commands, vec![Command::SetButton(true)]);
    assert!(r.switch_pressed());
    let u = r.update(Msg::ToggleSwitch);
    assert_eq!(u.commands, vec![Command::SetButton(false)]);
}

#[test]
fn clear_all() {
    let mut r = loaded_repl();
    r.finish_tick(report(StopKind::CycleLimit), "> ");
    r.update(Msg::LoadDemo(1));
    let u = r.update(Msg::ClearAll);
    assert_eq!(u.commands, vec![Command::ClearUartOutput]);
    assert_eq!(r.transcript(), "");
    assert_eq!(r.output(), "");
    assert_eq!(r.input(), "");
    assert_eq!(r.uart_seen(), 0);
    assert_eq!(r.selected_demo(), None);
}

#[test]
fn pause_and_resume() {
    let mut r = loaded_repl();
    let u = r.update(Msg::PauseResume);
    assert!(u.commands.is_empty());
    assert!(!r.is_running());
    assert_eq!(r.status(), "Paused.");
    let u = r.update(Msg::PauseResume);
    assert_eq!(u.commands, vec![Command::Resume, Command::ScheduleTick]);
    assert!(r.is_running());
    assert_eq!(r.status(), "Running...");
    let mut fresh = Repl::create(demos());
    let u = fresh.update(Msg::PauseResume);
    assert!(u.commands.is_empty());
    assert!(!fresh.is_running());
}

#[test]
fn set_prelude_reloads_only_on_change() {
    let mut r = loaded_repl();
    let u = r.update(Msg::SetPrelude(PreludeTier::Standard));
    assert!(u.commands.is_empty());
    assert!(r.is_running());
    let u = r.update(Msg::SetPrelude(PreludeTier::Full));
    assert_eq!(u.commands, vec![Command::Load]);
    assert_eq!(r.prelude(), PreludeTier::Full);
    assert!(!r.is_running());
    let u = r.update(Msg::Reset);
    assert_eq!(u.commands, vec![Command::Load]);
}

#[test]
fn load_demo_selects_tier_stack_and_split_view() {
    let mut r = loaded_repl();
    r.finish_tick(report(StopKind::CycleLimit), "> ");
    // Same prelude and stack as in use: no reload, machine and transcript kept.
    let u = r.update(Msg::LoadDemo(1));
    assert!(u.render);
    assert!(u.commands.is_empty());
    assert_eq!(r.input(), "(let ((x 1)) x)");
    assert_eq!(r.selected_demo(), Some(1));
    assert_eq!(r.view_mode(), ViewMode::Split);
    assert_eq!(r.transcript(), "> ");
    assert!(r.is_waiting_for_input());
    assert!(r.pending_input().is_empty());
    // Another prelude and stack: reload, comment header stripped.
    let u = r.update(Msg::LoadDemo(0));
    assert_eq!(u.commands, vec![Command::Load]);
    assert!(!r.is_running());
    assert_eq!(r.prelude(), PreludeTier::Minimal);
    assert_eq!(r.stack_size(), StackSize::EightKb);
    assert_eq!(r.input(), "(countdown 10)");
    assert!(r.pending_input().is_empty());
}

#[test]
fn load_demo_with_other_stack_only_reloads() {
    let mut r = loaded_repl();
    let u = r.update(Msg::LoadDemo(2));
    assert_eq!(u.commands, vec![Command::Load]);
    let u = r.update(Msg::LoadDemo(2));
    assert!(u.commands.is_empty());
}

#[test]
fn load_demo_out_of_range_changes_nothing() {
    let mut r = loaded_repl();
    let u = r.update(Msg::LoadDemo(usize::MAX));
    assert!(u.render);
    assert!(u.commands.is_empty());
    assert_eq!(r.selected_demo(), None);
    assert_eq!(r.view_mode(), ViewMode::Cli);
}

#[test]
fn enter_submits_shift_enter_does_not() {
    let mut r = loaded_repl();
    let u = r.update(Msg::CliKeyDown(KeyPress { key: "Enter".to_string(), shift: false }));
    assert!(!u.render);
    assert_eq!(u.commands, vec![Command::PreventDefault, Command::SendEval]);
    let u = r.update(Msg::CliKeyDown(KeyPress { key: "Enter".to_string(), shift: true }));
    assert!(u.commands.is_empty());
    let u = r.update(Msg::CliKeyDown(KeyPress { key: "a".to_string(), shift: false }));
    assert!(u.commands.is_empty());
}

#[test]
fn input_changed_does_not_render() {
    let mut r = loaded_repl();
    let u = r.update(Msg::InputChanged("(list 1 2)".to_string()));
    assert!(!u.render);
    assert_eq!(r.input(), "(list 1 2)");
}

#[test]
fn eval_sends_exactly_what_it_echoes() {
    let mut r = loaded_repl();
    r.update(Msg::ToggleView);
    r.update(Msg::InputChanged("  (λ x)\r\n\n(+ 1 2)\n\u{2003}\n(car '(ü))".to_string()));
    r.update(Msg::Eval);
    assert_eq!(r.pending_input(), r.transcript().as_bytes().to_vec());
    assert_eq!(r.transcript(), "  (λ x)\n(+ 1 2)\n(car '(ü))\n");
}

#[test]
fn reload_after_ticks_starts_afresh() {
    let mut r = loaded_repl();
    r.update(Msg::Eval);
    r.finish_tick(report(StopKind::CycleLimit), "> 3\n> ");
    r.update(Msg::ToggleSwitch);
    let u = r.update(Msg::Reset);
    assert_eq!(u.commands, vec![Command::Load]);
    assert!(!r.is_running());
    assert_eq!(r.load_binary(ok_assembly(10)), Some(0xFEEC00));
    assert_eq!(r.transcript(), "");
    assert_eq!(r.output(), "");
    assert!(r.pending_input().is_empty());
    assert!(!r.switch_pressed());
    assert_eq!(r.stack_depth(), 0);
    assert!(r.is_running());
}
