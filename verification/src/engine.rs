//! The engine: one configuration and one typing-cursor position, and
//! the two decision points of a scheduler cycle. The engine never
//! sleeps and never touches an input device itself; it hands its caller
//! the sampled wait and a fully described action plan, so a stop
//! request is observed at both checkpoints of every cycle.

use vstd::prelude::*;
use vstd::string::StrSliceExecFns;
use crate::config::{AutomationConfig, MOUSE_RANGE_LIMIT};
use crate::motion::{MotionPlan, plan_motion, plan_total_dx, plan_total_dy};
use crate::typing::{
    TypedChunk,
    take_chunk,
    wrapped_start,
    capped_chunk,
    delay_in_range,
    is_fallback_char,
    fallback_char,
};
use crate::selector::{ActionKind, select_action};
use crate::sampling::{random_u64_in, random_i64_in};

verus! {

/// What one scheduler cycle does after its wait, fully described:
/// nothing, a planned motion path, one click, a typed chunk of the
/// configured text, or a single fallback character.
#[derive(Clone, Debug)]
pub enum ActionPlan {
    NoOp,
    Motion(MotionPlan),
    Click,
    Typing(TypedChunk),
    FallbackKey(char),
}

/// The characters of `s`, in order.
pub fn chars_of(s: &str) -> (v: Vec<char>)
    ensures
        v@ == s@,
{
    let n = s.unicode_len();
    let mut v: Vec<char> = Vec::new();
    let mut i: usize = 0;
    while i < n
        invariant
            n == s@.len(),
            i <= n,
            v@ == s@.subrange(0, i as int),
        decreases n - i,
    {
        let c = s.get_char(i);
        v.push(c);
        i = i + 1;
        proof {
            assert(v@ =~= s@.subrange(0, i as int));
        }
    }
    proof {
        assert(v@ =~= s@);
    }
    v
}

/// Draws a per-axis target offset uniformly from `[-range, range]`.
pub fn sample_offset(range: i32) -> (d: i32)
    requires
        0 <= range <= MOUSE_RANGE_LIMIT,
    ensures
        -range <= d <= range,
{
    let v = random_i64_in(-(range as i64), range as i64);
    v as i32
}

/// One engine instance: its configuration and the persisted position of
/// the typing cursor. The cursor outlives single cycles, so consecutive
/// typing actions continue where the previous one stopped.
pub struct AutomationEngine {
    pub config: AutomationConfig,
    pub text_position: usize,
}

impl AutomationEngine {
    /// The engine's invariant: its configuration is valid.
    pub open spec fn wf(self) -> bool {
        self.config.is_valid()
    }

    /// Builds a fresh engine over the given configuration, normalized
    /// so the sampling invariants hold; the typing cursor starts at the
    /// beginning of the text.
    pub fn new(config: AutomationConfig) -> (e: Self)
        ensures
            e.wf(),
            e.text_position == 0,
            config.is_valid() ==> e.config == config,
            e.config.enabled == config.enabled,
            e.config.min_interval_ms == config.min_interval_ms,
            e.config.enable_clicks == config.enable_clicks,
            e.config.enable_keyboard == config.enable_keyboard,
            e.config.keyboard_text == config.keyboard_text,
            e.config.active_apps == config.active_apps,
    {
        AutomationEngine { config: config.normalized(), text_position: 0 }
    }

    /// Flips the master switch off. The scheduler loop observes this at
    /// its next checkpoint; nothing else of the engine changes.
    pub fn stop(&mut self)
        ensures
            final(self).config == (AutomationConfig { enabled: false, ..old(self).config }),
            final(self).text_position == old(self).text_position,
            old(self).wf() ==> final(self).wf(),
    {
        self.config.enabled = false;
    }

    /// Reads the master switch.
    pub fn is_running(&self) -> (r: bool)
        ensures
            r == self.config.enabled,
    {
        self.config.enabled
    }

    /// First checkpoint of a cycle: observes the master switch and,
    /// when the engine is enabled, draws the randomized wait uniformly
    /// from the configured inclusive interval. `None` means the loop
    /// must exit.
    pub fn begin_cycle(&self) -> (r: Option<u64>)
        requires
            self.wf(),
        ensures
            (r is Some) == self.config.enabled,
            r is Some ==> self.config.min_interval_ms <= r->0 <= self.config.max_interval_ms,
    {
        if !self.config.enabled {
            return None;
        }
        Some(random_u64_in(self.config.min_interval_ms, self.config.max_interval_ms))
    }

    /// Second checkpoint of a cycle, after the wait: observes the
    /// master switch again — a stop requested during the sleep yields
    /// `None` and the engine performs no action at all — and otherwise
    /// selects and plans exactly one action from the current snapshot.
    pub fn post_sleep_step(&mut self) -> (r: Option<ActionPlan>)
        requires
            old(self).wf(),
        ensures
            final(self).wf(),
            final(self).config == old(self).config,
            (r is Some) == old(self).config.enabled,
            r is None ==> *final(self) == *old(self),
            r matches Some(plan) ==> ({
                let cfg = old(self).config;
                &&& ((plan is NoOp) <==> (!cfg.enable_clicks && !cfg.enable_keyboard))
                &&& (plan is Click ==> cfg.enable_clicks)
                &&& (plan matches ActionPlan::Motion(m) ==> cfg.enable_clicks && 15 <= m.steps@.len()
                    <= 80 && -cfg.mouse_movement_range <= plan_total_dx(m) <= cfg.mouse_movement_range
                    && -cfg.mouse_movement_range <= plan_total_dy(m) <= cfg.mouse_movement_range)
                &&& ((cfg.enable_keyboard && !cfg.enable_clicks) ==> (plan is Typing || plan
                    is FallbackKey))
                &&& (plan matches ActionPlan::Typing(tc) ==> ({
                    let text = cfg.keyboard_text->0@;
                    &&& cfg.enable_keyboard
                    &&& cfg.keyboard_text is Some
                    &&& text.len() >= 1
                    &&& tc.start as int == wrapped_start(
                        text.len() as int,
                        old(self).text_position as int,
                    )
                    &&& capped_chunk(text, tc.start as int, tc.end as int)
                    &&& tc.start < tc.end <= text.len()
                    &&& tc.chars@ == text.subrange(tc.start as int, tc.end as int)
                    &&& tc.delays@.len() == tc.chars@.len()
                    &&& (forall|k: int| 0 <= k < tc.delays@.len() ==> delay_in_range(
                        tc.chars@[k],
                        #[trigger] tc.delays@[k] as int,
                    ))
                    &&& final(self).text_position == tc.end
                }))
                &&& (plan matches ActionPlan::FallbackKey(ch) ==> cfg.enable_keyboard && (
                cfg.keyboard_text is None || cfg.keyboard_text->0@.len() == 0) && is_fallback_char(
                    ch,
                ))
                &&& (!(plan is Typing) ==> final(self).text_position == old(self).text_position)
            }),
    {
        if !self.config.enabled {
            return None;
        }
        let kind = select_action(self.config.enable_clicks, self.config.enable_keyboard);
        match kind {
            ActionKind::NoOp => Some(ActionPlan::NoOp),
            ActionKind::MoveCursor => {
                let dx = sample_offset(self.config.mouse_movement_range);
                let dy = sample_offset(self.config.mouse_movement_range);
                Some(ActionPlan::Motion(plan_motion(dx, dy)))
            },
            ActionKind::Click => Some(ActionPlan::Click),
            ActionKind::Type => {
                if let Some(t) = &self.config.keyboard_text {
                    if t.as_str().unicode_len() > 0 {
                        let chars = chars_of(t.as_str());
                        let chunk = take_chunk(&chars, self.text_position);
                        self.text_position = chunk.end;
                        return Some(ActionPlan::Typing(chunk));
                    }
                }
                Some(ActionPlan::FallbackKey(fallback_char()))
            },
        }
    }
}

} // verus!
