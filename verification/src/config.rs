//! Engine configuration: enablement, timing bounds, action toggles and
//! the source text for synthesized typing.

use vstd::prelude::*;

verus! {

/// Largest per-axis cursor offset the motion synthesizer accepts; keeps
/// the fixed-point path arithmetic far away from machine limits.
pub const MOUSE_RANGE_LIMIT: i32 = 1_000_000;

/// Configuration of one engine instance. Owned by the engine facade;
/// the scheduler loop and the action selector read snapshots of it.
#[derive(Clone, Debug)]
pub struct AutomationConfig {
    /// Master switch: the scheduler loop exits once it observes `false`.
    pub enabled: bool,
    /// Inclusive lower bound of the randomized wait between actions.
    pub min_interval_ms: u64,
    /// Inclusive upper bound of the randomized wait between actions.
    pub max_interval_ms: u64,
    /// Maximum absolute per-axis offset of a synthesized movement,
    /// symmetric around zero.
    pub mouse_movement_range: i32,
    /// Allows click and cursor-movement actions.
    pub enable_clicks: bool,
    /// Allows typing actions.
    pub enable_keyboard: bool,
    /// Source text for typed output; absent or empty text makes typing
    /// fall back to a single character from a fixed small alphabet.
    pub keyboard_text: Option<String>,
    /// Names of applications the host shell may keep in the foreground;
    /// carried through unchanged, the engine itself never reads it.
    pub active_apps: Vec<String>,
}

impl AutomationConfig {
    /// A configuration the randomized sampling is defined on: ordered
    /// interval bounds and a nonnegative, bounded movement range.
    pub open spec fn is_valid(self) -> bool {
        &&& self.min_interval_ms <= self.max_interval_ms
        &&& 0 <= self.mouse_movement_range <= MOUSE_RANGE_LIMIT
    }

    /// Clamps a configuration so the sampling invariants hold: a reversed
    /// interval ordering collapses onto the lower bound and the movement
    /// range is forced into `[0, MOUSE_RANGE_LIMIT]`. A valid
    /// configuration passes through unchanged.
    pub fn normalized(self) -> (r: Self)
        ensures
            r.is_valid(),
            self.is_valid() ==> r == self,
            r.enabled == self.enabled,
            r.min_interval_ms == self.min_interval_ms,
            r.max_interval_ms == if self.min_interval_ms <= self.max_interval_ms {
                self.max_interval_ms
            } else {
                self.min_interval_ms
            },
            r.mouse_movement_range == if self.mouse_movement_range < 0 {
                0i32
            } else if self.mouse_movement_range > MOUSE_RANGE_LIMIT {
                MOUSE_RANGE_LIMIT
            } else {
                self.mouse_movement_range
            },
            r.enable_clicks == self.enable_clicks,
            r.enable_keyboard == self.enable_keyboard,
            r.keyboard_text == self.keyboard_text,
            r.active_apps == self.active_apps,
    {
        let max_interval_ms = if self.min_interval_ms <= self.max_interval_ms {
            self.max_interval_ms
        } else {
            self.min_interval_ms
        };
        let mouse_movement_range = if self.mouse_movement_range < 0 {
            0
        } else if self.mouse_movement_range > MOUSE_RANGE_LIMIT {
            MOUSE_RANGE_LIMIT
        } else {
            self.mouse_movement_range
        };
        AutomationConfig {
            max_interval_ms,
            mouse_movement_range,
            ..self
        }
    }
}

impl Default for AutomationConfig {
    /// The engine's stock configuration: disabled, waits between 30
    /// seconds and 14 minutes, a five-unit movement range, every action
    /// toggle off and no typing text.
    fn default() -> (r: Self)
        ensures
            r.enabled == false,
            r.min_interval_ms == 30000,
            r.max_interval_ms == 840000,
            r.mouse_movement_range == 5,
            r.enable_clicks == false,
            r.enable_keyboard == false,
            r.keyboard_text is None,
            r.active_apps@.len() == 0,
            r.is_valid(),
    {
        AutomationConfig {
            enabled: false,
            min_interval_ms: 30000,
            max_interval_ms: 840000,
            mouse_movement_range: 5,
            enable_clicks: false,
            enable_keyboard: false,
            keyboard_text: None,
            active_apps: Vec::new(),
        }
    }
}

} // verus!
