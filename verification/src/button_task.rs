//! Network reset button: holding it down for three seconds restores the factory network
//! settings. The task's waits and timers are driven from outside; this module decides
//! what comes next.
use vstd::prelude::*;
use crate::schema::NetworkConfig;

verus! {

/// How long the button has to be held before the reset triggers, in milliseconds.
pub const HOLD_DURATION_MS: u64 = 3000;

/// Contact bounce is ignored for this long after the initial falling edge.
pub const DEBOUNCE_MS: u64 = 30;

/// How often the level is re-checked while the button is held down.
pub const POLL_INTERVAL_MS: u64 = 50;

/// Where the button task is.
#[derive(Debug, Clone, Copy, PartialEq, Eq, Structural)]
pub enum ButtonState {
    /// Waiting for the line to go low.
    Idle,
    /// Line went low; waiting out the debounce time.
    Debounce,
    /// Button held down for `held_ms` so far.
    Holding { held_ms: u64 },
    /// Reset done; waiting for the button to be let go.
    AwaitRelease,
}

/// What the task observed.
#[derive(Debug, Clone, Copy, PartialEq, Eq, Structural)]
pub enum ButtonEvent {
    /// The line went low.
    Pressed,
    /// A sleep ended; the line reads high (`true`) or low.
    Sampled { high: bool },
    /// The line went high again.
    Released,
}

/// What the task does next.
#[derive(Debug, Clone, Copy, PartialEq, Eq, Structural)]
pub enum ButtonAction {
    /// Wait for the line to go low.
    WaitForLow,
    /// Sleep, then sample the line.
    Sleep { ms: u64 },
    /// Restore the default network settings, save and reboot, then wait for the line to
    /// go high.
    ResetNetwork,
    /// Wait for the line to go high.
    WaitForHigh,
}

/// The next state and action of the button task for `event` in state `s`.
pub open spec fn button_next(s: ButtonState, event: ButtonEvent) -> (ButtonState, ButtonAction) {
    match (s, event) {
        (ButtonState::Idle, ButtonEvent::Pressed) => (
            ButtonState::Debounce,
            ButtonAction::Sleep { ms: DEBOUNCE_MS },
        ),
        (ButtonState::Debounce, ButtonEvent::Sampled { high }) => if high {
            (ButtonState::Idle, ButtonAction::WaitForLow)
        } else {
            (ButtonState::Holding { held_ms: DEBOUNCE_MS }, ButtonAction::Sleep { ms: POLL_INTERVAL_MS })
        },
        (ButtonState::Holding { held_ms }, ButtonEvent::Sampled { high }) => if high {
            (ButtonState::Idle, ButtonAction::WaitForLow)
        } else if held_ms + POLL_INTERVAL_MS < HOLD_DURATION_MS {
            (
                ButtonState::Holding { held_ms: (held_ms + POLL_INTERVAL_MS) as u64 },
                ButtonAction::Sleep { ms: POLL_INTERVAL_MS },
            )
        } else {
            (ButtonState::AwaitRelease, ButtonAction::ResetNetwork)
        },
        (ButtonState::AwaitRelease, ButtonEvent::Released) => (
            ButtonState::Idle,
            ButtonAction::WaitForLow,
        ),
        (ButtonState::Idle, _) => (ButtonState::Idle, ButtonAction::WaitForLow),
        (ButtonState::Debounce, _) => (ButtonState::Debounce, ButtonAction::Sleep { ms: DEBOUNCE_MS }),
        (ButtonState::Holding { held_ms }, _) => (
            ButtonState::Holding { held_ms },
            ButtonAction::Sleep { ms: POLL_INTERVAL_MS },
        ),
        (ButtonState::AwaitRelease, _) => (ButtonState::AwaitRelease, ButtonAction::WaitForHigh),
    }
}

/// The reset button: its state and whether it is currently held.
pub struct ResetButton {
    pub state: ButtonState,
    /// The button is pressed and debounced.
    pub held: bool,
}

impl ResetButton {
    /// Well-formed: a hold in progress is flagged as held, has run at least the debounce
    /// time and has not reached the hold duration yet.
    pub open spec fn wf(&self) -> bool {
        match self.state {
            ButtonState::Holding { held_ms } => self.held && DEBOUNCE_MS <= held_ms
                < HOLD_DURATION_MS,
            ButtonState::AwaitRelease => self.held,
            _ => !self.held,
        }
    }

    pub open spec fn spec_held(&self) -> bool {
        self.held
    }

    /// Idle and not held.
    pub fn new() -> (r: Self)
        ensures
            r.wf(),
            r.state == ButtonState::Idle,
            !r.spec_held(),
    {
        ResetButton { state: ButtonState::Idle, held: false }
    }

    /// True while the network reset button is pressed (from the end of the debounce time
    /// until it is let go), so the press can be acknowledged before the reset triggers.
    pub fn network_reset_button_held(&self) -> (r: bool)
        ensures
            r == self.spec_held(),
    {
        self.held
    }

    /// Advance on `event`.
    ///
    /// A press is debounced for 30 ms; a line still low then starts a hold, sampled every
    /// 50 ms. A hold reaching three seconds asks for the network reset and then waits for
    /// release; a line that goes high earlier ends the hold. Events that do not fit the
    /// state change nothing and repeat the state's action.
    pub fn step(&mut self, event: ButtonEvent) -> (r: ButtonAction)
        requires
            old(self).wf(),
        ensures
            final(self).wf(),
            final(self).spec_held() == (match final(self).state {
                ButtonState::Holding { .. } | ButtonState::AwaitRelease => true,
                _ => false,
            }),
            (final(self).state, r) == button_next(old(self).state, event),
    {
        match (self.state, event) {
            (ButtonState::Idle, ButtonEvent::Pressed) => {
                self.state = ButtonState::Debounce;
                ButtonAction::Sleep { ms: DEBOUNCE_MS }
            },
            (ButtonState::Debounce, ButtonEvent::Sampled { high }) => {
                if high {
                    self.state = ButtonState::Idle;
                    ButtonAction::WaitForLow
                } else {
                    self.held = true;
                    self.state = ButtonState::Holding { held_ms: DEBOUNCE_MS };
                    ButtonAction::Sleep { ms: POLL_INTERVAL_MS }
                }
            },
            (ButtonState::Holding { held_ms }, ButtonEvent::Sampled { high }) => {
                if high {
                    self.held = false;
                    self.state = ButtonState::Idle;
                    ButtonAction::WaitForLow
                } else {
                    let held = held_ms + POLL_INTERVAL_MS;
                    if held < HOLD_DURATION_MS {
                        self.state = ButtonState::Holding { held_ms: held };
                        ButtonAction::Sleep { ms: POLL_INTERVAL_MS }
                    } else {
                        self.state = ButtonState::AwaitRelease;
                        ButtonAction::ResetNetwork
                    }
                }
            },
            (ButtonState::AwaitRelease, ButtonEvent::Released) => {
                self.held = false;
                self.state = ButtonState::Idle;
                ButtonAction::WaitForLow
            },
            (ButtonState::Idle, _) => ButtonAction::WaitForLow,
            (ButtonState::Debounce, _) => ButtonAction::Sleep { ms: DEBOUNCE_MS },
            (ButtonState::Holding { .. }, _) => ButtonAction::Sleep { ms: POLL_INTERVAL_MS },
            (ButtonState::AwaitRelease, _) => ButtonAction::WaitForHigh,
        }
    }
}

/// Restore the configured network settings (address mode, address, mask, gateway) to
/// the defaults; the MAC address and the current_* fields are runtime state and stay.
pub fn reset_network_settings(network_config: &mut NetworkConfig, defaults: &NetworkConfig)
    ensures
        final(network_config).ip_config_type == defaults.ip_config_type,
        final(network_config).ip_address == defaults.ip_address,
        final(network_config).subnet_mask == defaults.subnet_mask,
        final(network_config).gateway == defaults.gateway,
        final(network_config).id == old(network_config).id,
        final(network_config).mac_address == old(network_config).mac_address,
        final(network_config).current_ip_address == old(network_config).current_ip_address,
        final(network_config).current_subnet_mask == old(network_config).current_subnet_mask,
        final(network_config).current_gateway == old(network_config).current_gateway,
{
    network_config.ip_config_type = defaults.ip_config_type;
    network_config.ip_address = defaults.ip_address;
    network_config.subnet_mask = defaults.subnet_mask;
    network_config.gateway = defaults.gateway;
}

/// State and last action after `k` polls that all found the line still low, starting
/// from the hold that begins once the debounce time has passed.
pub open spec fn held_low(k: nat) -> (ButtonState, ButtonAction)
    decreases k,
{
    if k == 0 {
        (ButtonState::Holding { held_ms: DEBOUNCE_MS }, ButtonAction::Sleep { ms: POLL_INTERVAL_MS })
    } else {
        button_next(held_low((k - 1) as nat).0, ButtonEvent::Sampled { high: false })
    }
}

/// Holding the button down triggers the reset at the 60th poll after the debounce, once
/// 30 + 60 * 50 = 3030 ms have passed since the press, and not before: every earlier poll
/// only keeps waiting. Letting go before then returns to idle without a reset.
pub proof fn lemma_reset_needs_full_hold(k: nat)
    requires
        k <= 60,
    ensures
        k < 60 ==> held_low(k) == (ButtonState::Holding { held_ms: (30 + 50 * k) as u64 }, ButtonAction::Sleep {
            ms: POLL_INTERVAL_MS,
        }),
        k == 60 ==> held_low(k) == (ButtonState::AwaitRelease, ButtonAction::ResetNetwork),
        k < 60 ==> button_next(held_low(k).0, ButtonEvent::Sampled { high: true }) == (
            ButtonState::Idle,
            ButtonAction::WaitForLow,
        ),
    decreases k,
{
    if k > 0 {
        lemma_reset_needs_full_hold((k - 1) as nat);
    }
}

} // verus!
