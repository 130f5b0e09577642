use web_tml24c::config::{PreludeTier, StackSize};
use web_tml24c::number::{decimal_string, parse_demo_index, push_hex_padded};
use web_tml24c::repl::{Assembled, Demo, Msg, Repl, StopKind, TickReport, ViewMode};
use web_tml24c::text::{demo_input_of, str_eq, submitted_chars, trimmed};
use web_tml24c::view::{level_of, view_gauge, GaugeLevel};

fn demo(title: &str, prelude: PreludeTier, stack: StackSize) -> Demo {
    Demo {
        title: title.to_string(),
        description: String::new(),
        source: format!("({})", title),
        prelude,
        stack,
        category: "Language".to_string(),
    }
}

fn catalogue() -> Vec<Demo> {
    vec![
        demo("tco", PreludeTier::Minimal, StackSize::EightKb),
        demo("macros", PreludeTier::Standard, StackSize::ThreeKb),
        demo("threading", PreludeTier::Full, StackSize::ThreeKb),
        demo("strings", PreludeTier::Standard, StackSize::ThreeKb),
        demo("lazy", PreludeTier::Full, StackSize::EightKb),
    ]
}

fn loaded() -> Repl {
    let mut r = Repl::create(catalogue());
    r.update(Msg::Init);
    r.load_binary(Assembled { errors: vec![], n_bytes: 100, heap_next: None, sym_count: None, str_pool_next: None });
    r
}

#[test]
fn gauge_levels_follow_percent_thresholds() {
    assert_eq!(level_of(0, 0), GaugeLevel::Green);
    assert_eq!(level_of(59, 100), GaugeLevel::Green);
    assert_eq!(level_of(3, 5), GaugeLevel::Yellow);
    assert_eq!(level_of(84, 100), GaugeLevel::Yellow);
    assert_eq!(level_of(17, 20), GaugeLevel::Red);
    assert_eq!(level_of(500, 100), GaugeLevel::Red);
    assert_eq!(level_of(u32::MAX, u32::MAX), GaugeLevel::Red);
    assert_eq!(GaugeLevel::Yellow.css_class(), "gauge-yellow");
}

#[test]
fn gauge_text_and_fields() {
    let g = view_gauge("Heap", 1234, 32768);
    assert_eq!(g.label, "Heap");
    assert_eq!(g.text, "1234/32768");
    assert_eq!(g.level, GaugeLevel::Green);
}

#[test]
fn view_model_of_fresh_repl() {
    let r = Repl::create(catalogue());
    let v = r.view_model();
    assert!(v.eval_disabled);
    assert!(!v.show_spinner);
    assert_eq!(v.pause_label, "Resume");
    assert_eq!(v.view_toggle_label, "Split");
    assert_eq!(v.led_class, "led led-off");
    assert_eq!(v.switch_class, "switch switch-off");
    assert_eq!(v.input, "(+ 1 2)");
    assert_eq!(v.status, "Assembling interpreter...");
    assert!(v.no_demo_selected);
    let values: Vec<&str> = v.prelude_options.iter().map(|o| o.value.as_str()).collect();
    assert_eq!(values, vec!["bare", "minimal", "standard", "full", "scheme"]);
    let selected: Vec<bool> = v.prelude_options.iter().map(|o| o.selected).collect();
    assert_eq!(selected, vec![false, false, true, false, false]);
    assert_eq!(v.stack_options[0].label, "3 KB");
    assert!(v.stack_options[0].selected);
    assert_eq!(v.stack_options[1].value, "8");
    assert_eq!(v.gauges.len(), 4);
    assert_eq!(v.gauges[3].label, "Stack");
    assert_eq!(v.gauges[3].total, 3072);
    assert_eq!(v.prelude_description, PreludeTier::Standard.description());
}

#[test]
fn view_model_demo_groups() {
    let mut r = loaded();
    r.update(Msg::LoadDemo(4));
    let v = r.view_model();
    let labels: Vec<&str> = v.demo_groups.iter().map(|g| g.label.as_str()).collect();
    assert_eq!(labels, vec!["Minimal prelude", "Standard prelude", "Full prelude"]);
    let full = &v.demo_groups[2];
    assert_eq!(full.options.len(), 2);
    assert_eq!(full.options[0].value, "2");
    assert_eq!(full.options[0].label, "threading");
    assert!(!full.options[0].selected);
    assert_eq!(full.options[1].value, "4");
    assert_eq!(full.options[1].label, "lazy [8K]");
    assert!(full.options[1].selected);
    assert_eq!(v.demo_groups[0].options[0].label, "tco [8K]");
    assert!(!v.no_demo_selected);
    assert_eq!(v.view_mode, ViewMode::Split);
    assert_eq!(v.view_toggle_label, "CLI");
}

#[test]
fn view_model_output_follows_layout() {
    let mut r = loaded();
    r.finish_tick(
        TickReport { led: Some(1), heap_word: None, sym_word: None, str_pool_word: None, sp: 0xFEEC00, pc: 0, stop: StopKind::CycleLimit },
        "> ",
    );
    r.update(Msg::Eval);
    let v = r.view_model();
    assert_eq!(v.output_text, "> (+ 1 2)\n");
    assert!(v.eval_disabled);
    assert!(v.show_spinner);
    assert_eq!(v.pause_label, "Pause");
    assert_eq!(v.led_class, "led led-on");
    r.update(Msg::ToggleView);
    assert_eq!(r.view_model().output_text, "> ");
}

#[test]
fn view_model_ready_enables_eval() {
    let mut r = loaded();
    r.finish_tick(
        TickReport { led: None, heap_word: None, sym_word: None, str_pool_word: None, sp: 0xFEEC00, pc: 0, stop: StopKind::CycleLimit },
        "> ",
    );
    let v = r.view_model();
    assert!(!v.eval_disabled);
    assert!(!v.show_spinner);
}

#[test]
fn select_values_round_trip() {
    for t in PreludeTier::all() {
        assert_eq!(PreludeTier::from_select_value(t.select_value()), t);
    }
    for z in StackSize::all() {
        assert_eq!(StackSize::from_select_value(z.select_value()), z);
    }
    assert_eq!(PreludeTier::from_select_value("nonsense"), PreludeTier::Standard);
    assert_eq!(PreludeTier::from_select_value(""), PreludeTier::Standard);
    assert_eq!(StackSize::from_select_value("3"), StackSize::ThreeKb);
    assert_eq!(StackSize::from_select_value("16"), StackSize::ThreeKb);
}

#[test]
fn stack_settings() {
    assert_eq!(StackSize::ThreeKb.initial_sp(), 0xFEEC00);
    assert_eq!(StackSize::EightKb.initial_sp(), 0xFF0000);
    assert_eq!(StackSize::ThreeKb.bytes(), 3072);
    assert_eq!(StackSize::EightKb.bytes(), 8192);
    assert_eq!(StackSize::EightKb.label(), "8 KB");
    assert_eq!(PreludeTier::Scheme.label(), "Scheme");
}

#[test]
fn demo_index_parsing() {
    assert_eq!(parse_demo_index("3"), 3);
    assert_eq!(parse_demo_index("+7"), 7);
    assert_eq!(parse_demo_index("007"), 7);
    assert_eq!(parse_demo_index(""), usize::MAX);
    assert_eq!(parse_demo_index("+"), usize::MAX);
    assert_eq!(parse_demo_index(" 3"), usize::MAX);
    assert_eq!(parse_demo_index("12a"), usize::MAX);
    assert_eq!(parse_demo_index("-1"), usize::MAX);
    assert_eq!(parse_demo_index("99999999999999999999999"), usize::MAX);
    for i in [0usize, 9, 10, 16, 12345, usize::MAX - 1] {
        assert_eq!(parse_demo_index(&decimal_string(i as u64)), i);
        assert_eq!(parse_demo_index(&i.to_string()), i.to_string().parse::<usize>().unwrap_or(usize::MAX));
    }
    for s in ["", "+", "0", "+12", "1x", "18446744073709551616", "٣"] {
        assert_eq!(parse_demo_index(s), s.parse::<usize>().unwrap_or(usize::MAX));
    }
}

#[test]
fn number_rendering() {
    assert_eq!(decimal_string(0), "0");
    assert_eq!(decimal_string(1234567890), "1234567890");
    assert_eq!(decimal_string(u64::MAX), u64::MAX.to_string());
    let mut s = String::new();
    push_hex_padded(&mut s, 0xA, 2);
    assert_eq!(s, "0A");
    let mut s = String::new();
    push_hex_padded(&mut s, 0xFF0101, 6);
    assert_eq!(s, "FF0101");
    let mut s = String::new();
    push_hex_padded(&mut s, 0, 6);
    assert_eq!(s, "000000");
    let mut s = String::new();
    push_hex_padded(&mut s, 0x123456789, 6);
    assert_eq!(s, format!("{:06X}", 0x123456789u64));
}

#[test]
fn trimming_matches_str_trim() {
    for s in ["  (a)\n\t", "\u{3000}x\u{00A0}", "", "   ", "a b", "\u{85}y\u{2028}"] {
        assert_eq!(trimmed(s), s.trim());
    }
}

#[test]
fn submitted_text_matches_lines() {
    for s in ["a\r\nb", "a\r", "\n", "", "x\n\ny\n", "  \n(q)\r\n\r\n", "a\rb\nc"] {
        let expected: String = s
            .lines()
            .filter(|l| !l.trim().is_empty())
            .map(|l| format!("{}\n", l))
            .collect();
        let got: String = submitted_chars(s).into_iter().collect();
        assert_eq!(got, expected, "input {:?}", s);
    }
}

#[test]
fn string_equality() {
    assert!(str_eq("Enter", "Enter"));
    assert!(!str_eq("Enter", "enter"));
    assert!(!str_eq("Ent", "Enter"));
}

#[test]
fn demo_comment_header_is_stripped() {
    assert_eq!(demo_input_of(";; TCO demo\n;; countdown\n\n(countdown 10)\n"), "(countdown 10)");
    assert_eq!(demo_input_of(";;only a header"), "");
    assert_eq!(demo_input_of("(a)\n;; trailing note\n"), "(a)\n;; trailing note");
    assert_eq!(demo_input_of("  ;; indented is code text\n(b)"), ";; indented is code text\n(b)");
    assert_eq!(demo_input_of("; single\n(c)"), "; single\n(c)");
    assert_eq!(demo_input_of(";;\r\n(d)\r\n"), "(d)");
    assert_eq!(demo_input_of(""), "");
}
