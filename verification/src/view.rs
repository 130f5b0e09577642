//! What the page shows of a [`Repl`]: the selectors' options, the demo
//! groups, the button labels, the hardware widgets and the memory gauges.
//! The page draws this model; the model holds every decision it needs.
use vstd::prelude::*;
use crate::config::{all_stack_sizes, all_tiers, PreludeTier, StackSize};
use crate::number::{decimal, decimal_string, push_decimal};
use crate::repl::{Demo, Repl, ReplView, ViewMode, HEAP_SIZE, MAX_SYMBOLS, STR_POOL_SIZE};
use crate::text::push_str;
use vstd::string::StringExecFns;

verus! {

/// How full a gauge is.
#[derive(Clone, Copy, Debug, PartialEq, Eq, Structural)]
pub enum GaugeLevel {
    Green,
    Yellow,
    Red,
}

/// The level of a gauge showing `used` of `total`: green below 60 percent,
/// yellow below 85 percent, red from there on; an empty total reads as 0
/// percent.
pub open spec fn gauge_level(used: u32, total: u32) -> GaugeLevel {
    if total == 0 || used * 100 < 60 * total {
        GaugeLevel::Green
    } else if used * 100 < 85 * total {
        GaugeLevel::Yellow
    } else {
        GaugeLevel::Red
    }
}

impl GaugeLevel {
    pub open spec fn spec_css_class(self) -> Seq<char> {
        match self {
            GaugeLevel::Green => "gauge-green"@,
            GaugeLevel::Yellow => "gauge-yellow"@,
            GaugeLevel::Red => "gauge-red"@,
        }
    }

    /// The style class that colors the gauge.
    pub fn css_class(self) -> (r: &'static str)
        ensures
            r@ == self.spec_css_class(),
    {
        match self {
            GaugeLevel::Green => "gauge-green",
            GaugeLevel::Yellow => "gauge-yellow",
            GaugeLevel::Red => "gauge-red",
        }
    }
}

/// The level of a gauge (see [`gauge_level`]).
pub fn level_of(used: u32, total: u32) -> (r: GaugeLevel)
    ensures
        r == gauge_level(used, total),
{
    let u = used as u64;
    let t = total as u64;
    if t == 0 || u * 100 < 60 * t {
        GaugeLevel::Green
    } else if u * 100 < 85 * t {
        GaugeLevel::Yellow
    } else {
        GaugeLevel::Red
    }
}

/// A memory gauge.
pub struct Gauge {
    pub label: &'static str,
    pub used: u32,
    pub total: u32,
    pub level: GaugeLevel,
    /// `used/total`, in decimal.
    pub text: String,
}

/// The text of a gauge: `used/total`.
pub open spec fn gauge_text(used: u32, total: u32) -> Seq<char> {
    decimal(used as nat) + "/"@ + decimal(total as nat)
}

/// Whether `g` shows `used` of `total` under `label`.
pub open spec fn shows(g: Gauge, label: Seq<char>, used: u32, total: u32) -> bool {
    &&& g.label@ == label
    &&& g.used == used
    &&& g.total == total
    &&& g.level == gauge_level(used, total)
    &&& g.text@ == gauge_text(used, total)
}

/// The gauge for `used` of `total` under `label`.
pub fn view_gauge(label: &'static str, used: u32, total: u32) -> (g: Gauge)
    ensures
        shows(g, label@, used, total),
{
    let mut text = decimal_string(used as u64);
    push_str(&mut text, "/");
    push_decimal(&mut text, total as u64);
    Gauge { label, used, total, level: level_of(used, total), text }
}

/// An option of a selector.
pub struct SelectOption {
    pub value: String,
    pub label: String,
    pub selected: bool,
}

/// A group of demo options under a heading.
pub struct DemoGroup {
    pub label: String,
    pub options: Vec<SelectOption>,
}

/// The positions of the demos below `n` that use prelude `t`, in order.
pub open spec fn tier_indices(demos: Seq<Demo>, t: PreludeTier, n: nat) -> Seq<usize>
    decreases n,
{
    if n == 0 {
        seq![]
    } else {
        let p = tier_indices(demos, t, (n - 1) as nat);
        if demos[n - 1].prelude == t {
            p.push((n - 1) as usize)
        } else {
            p
        }
    }
}

/// The positions of the demos that use prelude `t`, in order.
pub open spec fn demos_of_tier(demos: Seq<Demo>, t: PreludeTier) -> Seq<usize> {
    tier_indices(demos, t, demos.len())
}

/// The option that stands for a demo: its position as value, its title
/// (with a note where it needs the large stack) as label.
pub open spec fn demo_label(d: Demo) -> Seq<char> {
    if d.stack == StackSize::EightKb {
        d.title@ + " [8K]"@
    } else {
        d.title@
    }
}

/// The tiers among the first `k` that some demo uses, in selector order.
pub open spec fn grouped_tiers_upto(demos: Seq<Demo>, k: nat) -> Seq<PreludeTier>
    decreases k,
{
    if k == 0 {
        seq![]
    } else {
        let p = grouped_tiers_upto(demos, (k - 1) as nat);
        let t = all_tiers()[k - 1];
        if demos_of_tier(demos, t).len() > 0 {
            p.push(t)
        } else {
            p
        }
    }
}

/// The tiers that some demo uses, in selector order: one group each.
pub open spec fn grouped_tiers(demos: Seq<Demo>) -> Seq<PreludeTier> {
    grouped_tiers_upto(demos, 5)
}

/// Whether `g` is the group of the demos of tier `t`.
pub open spec fn is_group(g: DemoGroup, demos: Seq<Demo>, t: PreludeTier, selected: Option<usize>) -> bool {
    let idx = demos_of_tier(demos, t);
    &&& g.label@ == t.spec_label() + " prelude"@
    &&& g.options@.len() == idx.len()
    &&& forall|j: int|
        0 <= j < idx.len() ==> {
            let o = #[trigger] g.options@[j];
            &&& o.value@ == decimal(idx[j] as nat)
            &&& o.label@ == demo_label(demos[idx[j] as int])
            &&& o.selected == (selected == Some(idx[j]))
        }
}

fn demo_group(demos: &Vec<Demo>, t: PreludeTier, selected: Option<usize>) -> (g: DemoGroup)
    ensures
        is_group(g, demos@, t, selected),
{
    let mut label = String::from_str(t.label());
    push_str(&mut label, " prelude");
    let mut options: Vec<SelectOption> = Vec::new();
    let mut i: usize = 0;
    while i < demos.len()
        invariant
            i <= demos@.len(),
            options@.len() == tier_indices(demos@, t, i as nat).len(),
            forall|j: int|
                0 <= j < tier_indices(demos@, t, i as nat).len() ==> {
                    let o = #[trigger] options@[j];
                    let k = tier_indices(demos@, t, i as nat)[j];
                    &&& o.value@ == decimal(k as nat)
                    &&& o.label@ == demo_label(demos@[k as int])
                    &&& o.selected == (selected == Some(k))
                },
        decreases demos@.len() - i,
    {
        let d = &demos[i];
        if d.prelude == t {
            let mut l = d.title.clone();
            if d.stack == StackSize::EightKb {
                push_str(&mut l, " [8K]");
            }
            let sel = match selected {
                Some(s) => s == i,
                None => false,
            };
            options.push(SelectOption { value: decimal_string(i as u64), label: l, selected: sel });
        }
        proof {
            let p = tier_indices(demos@, t, i as nat);
            assert(tier_indices(demos@, t, (i + 1) as nat) == (if demos@[i as int].prelude == t {
                p.push(i)
            } else {
                p
            }));
        }
        i += 1;
    }
    DemoGroup { label, options }
}

/// The demo groups: one per tier that some demo uses, in selector order.
pub fn demo_groups(demos: &Vec<Demo>, selected: Option<usize>) -> (r: Vec<DemoGroup>)
    ensures
        r@.len() == grouped_tiers(demos@).len(),
        forall|g: int|
            0 <= g < r@.len() ==> is_group(
                #[trigger] r@[g],
                demos@,
                grouped_tiers(demos@)[g],
                selected,
            ),
{
    let tiers = PreludeTier::all();
    let mut r: Vec<DemoGroup> = Vec::new();
    let mut k: usize = 0;
    while k < tiers.len()
        invariant
            k <= tiers@.len(),
            tiers@ == all_tiers(),
            r@.len() == grouped_tiers_upto(demos@, k as nat).len(),
            forall|g: int|
                0 <= g < r@.len() ==> is_group(
                    #[trigger] r@[g],
                    demos@,
                    grouped_tiers_upto(demos@, k as nat)[g],
                    selected,
                ),
        decreases tiers@.len() - k,
    {
        let t = tiers[k];
        let group = demo_group(demos, t, selected);
        if group.options.len() > 0 {
            r.push(group);
        }
        k += 1;
    }
    r
}

/// The options of the prelude selector, the current tier selected.
pub open spec fn is_prelude_options(r: Seq<SelectOption>, current: PreludeTier) -> bool {
    &&& r.len() == 5
    &&& forall|i: int|
        0 <= i < 5 ==> {
            let o = #[trigger] r[i];
            &&& o.value@ == all_tiers()[i].spec_select_value()
            &&& o.label@ == all_tiers()[i].spec_label()
            &&& o.selected == (all_tiers()[i] == current)
        }
}

/// The options of the stack selector, the current size selected.
pub open spec fn is_stack_options(r: Seq<SelectOption>, current: StackSize) -> bool {
    &&& r.len() == 2
    &&& forall|i: int|
        0 <= i < 2 ==> {
            let o = #[trigger] r[i];
            &&& o.value@ == all_stack_sizes()[i].spec_select_value()
            &&& o.label@ == all_stack_sizes()[i].spec_label()
            &&& o.selected == (all_stack_sizes()[i] == current)
        }
}

/// The options of the prelude selector.
pub fn prelude_options(current: PreludeTier) -> (r: Vec<SelectOption>)
    ensures
        is_prelude_options(r@, current),
{
    let tiers = PreludeTier::all();
    let mut r: Vec<SelectOption> = Vec::new();
    let mut i: usize = 0;
    while i < tiers.len()
        invariant
            i <= tiers@.len(),
            tiers@ == all_tiers(),
            r@.len() == i,
            forall|j: int|
                0 <= j < i ==> {
                    let o = #[trigger] r@[j];
                    &&& o.value@ == all_tiers()[j].spec_select_value()
                    &&& o.label@ == all_tiers()[j].spec_label()
                    &&& o.selected == (all_tiers()[j] == current)
                },
        decreases tiers@.len() - i,
    {
        let t = tiers[i];
        r.push(
            SelectOption {
                value: String::from_str(t.select_value()),
                label: String::from_str(t.label()),
                selected: t == current,
            },
        );
        i += 1;
    }
    r
}

/// The options of the stack selector.
pub fn stack_options(current: StackSize) -> (r: Vec<SelectOption>)
    ensures
        is_stack_options(r@, current),
{
    let sizes = StackSize::all();
    let mut r: Vec<SelectOption> = Vec::new();
    let mut i: usize = 0;
    while i < sizes.len()
        invariant
            i <= sizes@.len(),
            sizes@ == all_stack_sizes(),
            r@.len() == i,
            forall|j: int|
                0 <= j < i ==> {
                    let o = #[trigger] r@[j];
                    &&& o.value@ == all_stack_sizes()[j].spec_select_value()
                    &&& o.label@ == all_stack_sizes()[j].spec_label()
                    &&& o.selected == (all_stack_sizes()[j] == current)
                },
        decreases sizes@.len() - i,
    {
        let z = sizes[i];
        r.push(
            SelectOption {
                value: String::from_str(z.select_value()),
                label: String::from_str(z.label()),
                selected: z == current,
            },
        );
        i += 1;
    }
    r
}

/// Everything the page shows, decided.
pub struct ViewModel {
    pub prelude_options: Vec<SelectOption>,
    pub stack_options: Vec<SelectOption>,
    /// Whether the demo selector shows its placeholder.
    pub no_demo_selected: bool,
    pub demo_groups: Vec<DemoGroup>,
    /// The label of the button that switches layout: the other layout's name.
    pub view_toggle_label: &'static str,
    /// The label of the pause button.
    pub pause_label: &'static str,
    pub prelude_description: &'static str,
    /// The output panel: the transcript in the one-line layout, the raw UART
    /// output in the split layout.
    pub output_text: String,
    pub led_class: &'static str,
    pub switch_class: &'static str,
    /// Heap, symbols, strings and stack, in that order.
    pub gauges: Vec<Gauge>,
    pub view_mode: ViewMode,
    pub input: String,
    /// Whether evaluating is refused for now.
    pub eval_disabled: bool,
    pub show_spinner: bool,
    pub status: String,
}

/// Whether evaluating is refused: the interpreter is busy, or not loaded.
pub open spec fn eval_disabled(s: ReplView) -> bool {
    (!s.waiting_for_input && s.running) || !s.loaded
}

/// Whether the busy indicator shows.
pub open spec fn show_spinner(s: ReplView) -> bool {
    s.running && !s.waiting_for_input
}

/// The label of the layout button: the layout it switches to.
pub open spec fn view_toggle_label(m: ViewMode) -> Seq<char> {
    match m {
        ViewMode::Cli => "Split"@,
        ViewMode::Split => "CLI"@,
    }
}

/// The label of the pause button.
pub open spec fn pause_label(running: bool) -> Seq<char> {
    if running {
        "Pause"@
    } else {
        "Resume"@
    }
}

/// The style classes of LED D2.
pub open spec fn led_class(on: bool) -> Seq<char> {
    if on {
        "led led-on"@
    } else {
        "led led-off"@
    }
}

/// The style classes of switch S2.
pub open spec fn switch_class(pressed: bool) -> Seq<char> {
    if pressed {
        "switch switch-on"@
    } else {
        "switch switch-off"@
    }
}

/// What the output panel shows in a layout.
pub open spec fn output_text(s: ReplView) -> Seq<char> {
    match s.view_mode {
        ViewMode::Cli => s.transcript,
        ViewMode::Split => s.output,
    }
}

/// Whether `g` holds the four memory gauges of `s`.
pub open spec fn is_memory_gauges(g: Seq<Gauge>, s: ReplView) -> bool {
    &&& g.len() == 4
    &&& shows(g[0], "Heap"@, s.heap_used, HEAP_SIZE)
    &&& shows(g[1], "Syms"@, s.sym_used, MAX_SYMBOLS)
    &&& shows(g[2], "Strs"@, s.str_pool_used, STR_POOL_SIZE)
    &&& shows(g[3], "Stack"@, s.stack_depth, s.stack_size.spec_bytes())
}

impl Repl {
    /// Everything the page shows of this state.
    pub fn view_model(&self) -> (v: ViewModel)
        ensures
            is_prelude_options(v.prelude_options@, self@.prelude),
            is_stack_options(v.stack_options@, self@.stack_size),
            v.no_demo_selected == (self@.selected_demo is None),
            v.demo_groups@.len() == grouped_tiers(self@.demos).len(),
            forall|g: int|
                0 <= g < v.demo_groups@.len() ==> is_group(
                    #[trigger] v.demo_groups@[g],
                    self@.demos,
                    grouped_tiers(self@.demos)[g],
                    self@.selected_demo,
                ),
            v.view_toggle_label@ == view_toggle_label(self@.view_mode),
            v.pause_label@ == pause_label(self@.running),
            v.prelude_description@ == self@.prelude.spec_description(),
            v.output_text@ == output_text(self@),
            v.led_class@ == led_class(self@.led_on),
            v.switch_class@ == switch_class(self@.switch_pressed),
            is_memory_gauges(v.gauges@, self@),
            v.view_mode == self@.view_mode,
            v.input@ == self@.input,
            v.eval_disabled == eval_disabled(self@),
            v.show_spinner == show_spinner(self@),
            v.status@ == self@.status,
    {
        let running = self.is_running();
        let waiting = self.is_waiting_for_input();
        let mode = self.view_mode();
        let output_text = match mode {
            ViewMode::Cli => String::from_str(self.transcript()),
            ViewMode::Split => String::from_str(self.output()),
        };
        let mut gauges: Vec<Gauge> = Vec::new();
        gauges.push(view_gauge("Heap", self.heap_used(), HEAP_SIZE));
        gauges.push(view_gauge("Syms", self.sym_used(), MAX_SYMBOLS));
        gauges.push(view_gauge("Strs", self.str_pool_used(), STR_POOL_SIZE));
        gauges.push(view_gauge("Stack", self.stack_depth(), self.stack_size().bytes()));
        ViewModel {
            prelude_options: prelude_options(self.prelude()),
            stack_options: stack_options(self.stack_size()),
            no_demo_selected: self.selected_demo().is_none(),
            demo_groups: demo_groups(self.demos(), self.selected_demo()),
            view_toggle_label: match mode {
                ViewMode::Cli => "Split",
                ViewMode::Split => "CLI",
            },
            pause_label: if running {
                "Pause"
            } else {
                "Resume"
            },
            prelude_description: self.prelude().description(),
            output_text,
            led_class: if self.led_on() {
                "led led-on"
            } else {
                "led led-off"
            },
            switch_class: if self.switch_pressed() {
                "switch switch-on"
            } else {
                "switch switch-off"
            },
            gauges,
            view_mode: mode,
            input: String::from_str(self.input()),
            eval_disabled: (!waiting && running) || !self.is_loaded(),
            show_spinner: running && !waiting,
            status: String::from_str(self.status()),
        }
    }
}

} // verus!
