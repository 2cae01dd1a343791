use vstd::prelude::*;

verus! {

/// Logic level of a GPIO input pin.
#[derive(Debug, Clone, Copy, PartialEq, Eq, Structural)]
pub enum Level {
    Low,
    High,
}

/// What one poll of the rotary encoder observed.
#[derive(Debug, Clone, Copy, PartialEq, Eq, Structural)]
pub enum RotaryEvent {
    Clockwise,
    CounterClockwise,
    ButtonPress,
    ButtonDoubleClick,
}

/// What a rotation of the encoder controls.
#[derive(Debug, Clone, Copy, PartialEq, Eq, Structural)]
pub enum ControlMode {
    Volume,
    Scroll,
}

/// Two button presses closer together than this (in nanoseconds) form a
/// double click.
pub const DOUBLE_CLICK_WINDOW_NS: u64 = 500_000_000;

impl ControlMode {
    /// The other mode.
    pub open spec fn toggled(self) -> ControlMode {
        match self {
            ControlMode::Volume => ControlMode::Scroll,
            ControlMode::Scroll => ControlMode::Volume,
        }
    }

    /// The other mode; a double click switches to it.
    pub fn toggle(self) -> (m: ControlMode)
        ensures
            m == self.toggled(),
    {
        match self {
            ControlMode::Volume => ControlMode::Scroll,
            ControlMode::Scroll => ControlMode::Volume,
        }
    }
}

/// Time from `earlier` to `later`, zero when `later` comes first
/// (as `Instant::duration_since` measures it).
pub open spec fn elapsed_ns(earlier: u64, later: u64) -> int {
    if later >= earlier {
        later - earlier
    } else {
        0
    }
}

/// A press at `now` completes a double click begun by a press at `last`.
pub open spec fn is_double_click(last: u64, now: u64) -> bool {
    elapsed_ns(last, now) < DOUBLE_CLICK_WINDOW_NS
}

/// The clock line went from high to low since the last sample.
pub open spec fn is_falling_edge(last_clk: Level, clk: Level) -> bool {
    last_clk != clk && clk == Level::Low
}

/// Direction of a detent, read from the data line on the clock's falling edge.
pub open spec fn rotation_direction(dt: Level) -> RotaryEvent {
    if dt == Level::High {
        RotaryEvent::Clockwise
    } else {
        RotaryEvent::CounterClockwise
    }
}

/// The decoding state of the encoder.
pub struct EncoderState {
    pub last_clk: Level,
    pub last_button_press: Option<u64>,
    pub mode: ControlMode,
}

/// One poll of the encoder: the new state and the event it reports.
///
/// `button_press` is `Some(now)` when the switch interrupt fired at time
/// `now` (nanoseconds on a monotonic clock); `clk` and `dt` are the levels
/// of the clock and data lines sampled in this poll. A button press is
/// handled before, and instead of, a rotation.
pub open spec fn poll_transition(
    s: EncoderState,
    button_press: Option<u64>,
    clk: Level,
    dt: Level,
) -> (EncoderState, Option<RotaryEvent>) {
    match button_press {
        Some(now) => {
            if s.last_button_press is Some && is_double_click(s.last_button_press->0, now) {
                (
                    EncoderState { last_button_press: None, mode: s.mode.toggled(), ..s },
                    Some(RotaryEvent::ButtonDoubleClick),
                )
            } else {
                (EncoderState { last_button_press: Some(now), ..s }, Some(RotaryEvent::ButtonPress))
            }
        },
        None => {
            if is_falling_edge(s.last_clk, clk) {
                (EncoderState { last_clk: clk, ..s }, Some(rotation_direction(dt)))
            } else {
                (EncoderState { last_clk: clk, ..s }, None)
            }
        },
    }
}

/// Decoder of a rotary encoder with a push switch: turns samples of the
/// clock, data and switch lines into events, and keeps the control mode
/// that a double click toggles.
pub struct RotaryEncoder {
    last_clk: Level,
    last_button_press: Option<u64>,
    mode: ControlMode,
}

impl View for RotaryEncoder {
    type V = EncoderState;

    closed spec fn view(&self) -> EncoderState {
        EncoderState {
            last_clk: self.last_clk,
            last_button_press: self.last_button_press,
            mode: self.mode,
        }
    }
}

impl RotaryEncoder {
    /// A decoder whose clock line was last seen at `initial_clk`, with no
    /// press recorded, in volume mode.
    pub fn new(initial_clk: Level) -> (e: RotaryEncoder)
        ensures
            e@ == (EncoderState {
                last_clk: initial_clk,
                last_button_press: None,
                mode: ControlMode::Volume,
            }),
    {
        RotaryEncoder { last_clk: initial_clk, last_button_press: None, mode: ControlMode::Volume }
    }

    /// Decodes one poll; see `poll_transition`.
    pub fn poll(&mut self, button_press: Option<u64>, clk: Level, dt: Level) -> (ev: Option<
        RotaryEvent,
    >)
        ensures
            (final(self)@, ev) == poll_transition(old(self)@, button_press, clk, dt),
            button_press is None && !(old(self)@.last_clk == Level::High && clk == Level::Low)
                ==> ev is None,
            button_press is None ==> final(self)@.mode == old(self)@.mode,
            (ev == Some(RotaryEvent::ButtonPress) || ev == Some(RotaryEvent::ButtonDoubleClick))
                ==> button_press is Some,
            button_press is Some ==> (ev == Some(RotaryEvent::ButtonPress) || ev == Some(
                RotaryEvent::ButtonDoubleClick,
            )),
    {
        proof {
            lemma_events_follow_inputs(old(self)@, button_press, clk, dt);
        }
        if let Some(now) = button_press {
            if let Some(last_press) = self.last_button_press {
                if now.saturating_sub(last_press) < DOUBLE_CLICK_WINDOW_NS {
                    self.last_button_press = None;
                    self.mode = self.mode.toggle();
                    return Some(RotaryEvent::ButtonDoubleClick);
                }
            }
            self.last_button_press = Some(now);
            return Some(RotaryEvent::ButtonPress);
        }
        if clk != self.last_clk && clk == Level::Low {
            self.last_clk = clk;
            if dt == Level::High {
                return Some(RotaryEvent::Clockwise);
            } else {
                return Some(RotaryEvent::CounterClockwise);
            }
        }
        self.last_clk = clk;
        None
    }

    /// The current control mode.
    pub fn get_mode(&self) -> (m: ControlMode)
        ensures
            m == self@.mode,
    {
        self.mode
    }
}


/// Toggling the control mode twice gives back the mode one started with.
pub proof fn lemma_toggle_involutive(m: ControlMode)
    ensures
        m.toggled().toggled() == m,
        m.toggled() != m,
{
}

/// A poll changes the control mode exactly when it reports a double click,
/// and then switches to the other mode.
pub proof fn lemma_mode_changes_only_on_double_click(
    s: EncoderState,
    button_press: Option<u64>,
    clk: Level,
    dt: Level,
)
    ensures
        ({
            let (t, ev) = poll_transition(s, button_press, clk, dt);
            &&& (t.mode != s.mode <==> ev == Some(RotaryEvent::ButtonDoubleClick))
            &&& (ev == Some(RotaryEvent::ButtonDoubleClick) ==> t.mode == s.mode.toggled())
        }),
{
}

/// After a single press at `t1`, a second press less than the double-click
/// window later is a double click, and it toggles the mode; one at least the
/// window later is a new single press that leaves the mode alone.
pub proof fn lemma_second_press_timing(
    s: EncoderState,
    t1: u64,
    t2: u64,
    clk1: Level,
    dt1: Level,
    clk2: Level,
    dt2: Level,
)
    requires
        poll_transition(s, Some(t1), clk1, dt1).1 == Some(RotaryEvent::ButtonPress),
        t1 <= t2,
    ensures
        ({
            let (s1, _) = poll_transition(s, Some(t1), clk1, dt1);
            let (s2, ev2) = poll_transition(s1, Some(t2), clk2, dt2);
            &&& (t2 - t1 < DOUBLE_CLICK_WINDOW_NS ==> ev2 == Some(RotaryEvent::ButtonDoubleClick)
                && s2.mode == s.mode.toggled())
            &&& (t2 - t1 >= DOUBLE_CLICK_WINDOW_NS ==> ev2 == Some(RotaryEvent::ButtonPress)
                && s2.mode == s.mode)
        }),
{
}

/// A press that follows a double click is always a single press: three quick
/// presses give one double click, not two.
pub proof fn lemma_press_after_double_click_is_single(
    s: EncoderState,
    t1: u64,
    t2: u64,
    clk1: Level,
    dt1: Level,
    clk2: Level,
    dt2: Level,
)
    requires
        poll_transition(s, Some(t1), clk1, dt1).1 == Some(RotaryEvent::ButtonDoubleClick),
    ensures
        ({
            let (s1, _) = poll_transition(s, Some(t1), clk1, dt1);
            poll_transition(s1, Some(t2), clk2, dt2).1 == Some(RotaryEvent::ButtonPress)
        }),
{
}

/// A rotation is reported only on a falling edge of the clock line in a poll
/// without a button press; its direction follows the data line.
pub proof fn lemma_rotation_only_on_falling_edge(
    s: EncoderState,
    button_press: Option<u64>,
    clk: Level,
    dt: Level,
)
    ensures
        ({
            let (t, ev) = poll_transition(s, button_press, clk, dt);
            &&& (ev == Some(RotaryEvent::Clockwise) || ev == Some(RotaryEvent::CounterClockwise))
                <==> (button_press is None && is_falling_edge(s.last_clk, clk))
            &&& (ev == Some(RotaryEvent::Clockwise) ==> dt == Level::High)
            &&& (ev == Some(RotaryEvent::CounterClockwise) ==> dt == Level::Low)
        }),
{
}

/// Holding the clock line low reports one detent, not one per poll: the
/// poll after a rotation sees no new rotation while the clock stays low.
pub proof fn lemma_one_event_per_detent(s: EncoderState, dt1: Level, dt2: Level)
    requires
        poll_transition(s, None, Level::Low, dt1).1 is Some,
    ensures
        ({
            let (s1, _) = poll_transition(s, None, Level::Low, dt1);
            poll_transition(s1, None, Level::Low, dt2).1 is None
        }),
{
}

/// Polls without a button press never change the mode or the recorded press.
pub proof fn lemma_rotation_keeps_mode_and_press(s: EncoderState, clk: Level, dt: Level)
    ensures
        ({
            let (t, _) = poll_transition(s, None, clk, dt);
            t.mode == s.mode && t.last_button_press == s.last_button_press && t.last_clk == clk
        }),
{
}


/// What each poll reports, in terms of its samples: a poll with a button
/// press reports a press or a double click and nothing else; a poll without
/// one reports a turn exactly when the clock line fell from high to low
/// (clockwise when the data line is high), and otherwise nothing.
pub proof fn lemma_events_follow_inputs(
    s: EncoderState,
    button_press: Option<u64>,
    clk: Level,
    dt: Level,
)
    ensures
        ({
            let (t, ev) = poll_transition(s, button_press, clk, dt);
            &&& button_press is Some ==> (ev == Some(RotaryEvent::ButtonPress) || ev == Some(
                RotaryEvent::ButtonDoubleClick,
            ))
            &&& button_press is None && s.last_clk == Level::High && clk == Level::Low && dt
                == Level::High ==> ev == Some(RotaryEvent::Clockwise)
            &&& button_press is None && s.last_clk == Level::High && clk == Level::Low && dt
                == Level::Low ==> ev == Some(RotaryEvent::CounterClockwise)
            &&& button_press is None && !(s.last_clk == Level::High && clk == Level::Low) ==> ev
                is None
            &&& button_press is None ==> t.mode == s.mode && t.last_clk == clk
                && t.last_button_press == s.last_button_press
        }),
{
}

/// A press at `now` after a press recorded at `last` is a double click
/// exactly when less than half a second passed (no time at all when `now`
/// is earlier); a double click switches the mode and forgets the press, a
/// single press keeps the mode and records `now`.
pub proof fn lemma_press_decoding(s: EncoderState, now: u64, clk: Level, dt: Level)
    ensures
        ({
            let (t, ev) = poll_transition(s, Some(now), clk, dt);
            let quick = match s.last_button_press {
                Some(last) => now < last || now - last < 500_000_000,
                None => false,
            };
            &&& quick ==> ev == Some(RotaryEvent::ButtonDoubleClick) && t.mode != s.mode
                && t.last_button_press is None
            &&& !quick ==> ev == Some(RotaryEvent::ButtonPress) && t.mode == s.mode
                && t.last_button_press == Some(now)
            &&& t.last_clk == s.last_clk
        }),
{
}

} // verus!
