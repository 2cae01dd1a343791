use vstd::prelude::*;

use crate::mpris_client::{TrackInfo, track_changed};
use crate::rotary::{ControlMode, EncoderState, Level, RotaryEvent, poll_transition};

verus! {

/// What the control loop does after an attempt to connect to a player.
#[derive(Debug, Clone, Copy, PartialEq, Eq, Structural)]
pub enum ConnectStep {
    /// Go on to read the track; when `announce` is set, first show that the
    /// connection was made again.
    Proceed { announce: bool },
    /// Start the next round after the reconnect interval; when
    /// `show_waiting` is set, first show that the player is awaited.
    RetryAfterInterval { show_waiting: bool },
    /// Start the next round at once.
    RetryNow,
}

/// How the count of failed connection rounds changes after a connection
/// attempt, and what the loop does next.
pub open spec fn connect_transition(failed_count: i32, connected: bool) -> (i32, ConnectStep) {
    if failed_count > 0 {
        if connected {
            (0, ConnectStep::Proceed { announce: true })
        } else {
            (
                (failed_count + 1) as i32,
                ConnectStep::RetryAfterInterval { show_waiting: failed_count == 1 },
            )
        }
    } else {
        if connected {
            (failed_count, ConnectStep::Proceed { announce: false })
        } else {
            (1, ConnectStep::RetryNow)
        }
    }
}

/// The state that the control loop keeps between rounds.
pub struct SessionState {
    pub connection_failed_count: i32,
    pub last_track: TrackInfo,
}

/// The control loop's memory: how many rounds in a row failed to connect,
/// and the track information last drawn on the screen.
pub struct PlayerSession {
    connection_failed_count: i32,
    last_track: TrackInfo,
}

impl View for PlayerSession {
    type V = SessionState;

    closed spec fn view(&self) -> SessionState {
        SessionState {
            connection_failed_count: self.connection_failed_count,
            last_track: self.last_track,
        }
    }
}

impl PlayerSession {
    #[verifier::type_invariant]
    spec fn count_not_negative(&self) -> bool {
        self.connection_failed_count >= 0
    }

    /// A session before the first round: no failed round, empty track.
    pub fn new() -> (s: PlayerSession)
        ensures
            s@.connection_failed_count == 0,
            s@.last_track.title@ == Seq::<char>::empty(),
            s@.last_track.artist@ == Seq::<char>::empty(),
            s@.last_track.position == 0,
            s@.last_track.length == 0,
            s@.last_track.status@ == Seq::<char>::empty(),
    {
        PlayerSession { connection_failed_count: 0, last_track: TrackInfo::default() }
    }

    /// Rounds in a row that failed to connect.
    pub fn connection_failed_count(&self) -> (c: i32)
        ensures
            c == self@.connection_failed_count,
            c >= 0,
    {
        proof {
            use_type_invariant(self);
        }
        self.connection_failed_count
    }

    /// The track information last drawn on the screen.
    pub fn last_track(&self) -> (t: &TrackInfo)
        ensures
            *t == self@.last_track,
    {
        &self.last_track
    }

    /// Records the outcome of the round's connection attempt and says what
    /// to do next.
    pub fn on_connect(&mut self, connected: bool) -> (step: ConnectStep)
        requires
            !connected && old(self)@.connection_failed_count > 0 ==> old(
                self,
            )@.connection_failed_count < i32::MAX,
        ensures
            (final(self)@.connection_failed_count, step) == connect_transition(
                old(self)@.connection_failed_count,
                connected,
            ),
            final(self)@.last_track == old(self)@.last_track,
            connected ==> final(self)@.connection_failed_count == 0 && step is Proceed,
            !connected && old(self)@.connection_failed_count > 0 ==> step
                == (ConnectStep::RetryAfterInterval {
                show_waiting: old(self)@.connection_failed_count == 1,
            }) && final(self)@.connection_failed_count == old(self)@.connection_failed_count + 1,
            !connected && old(self)@.connection_failed_count == 0 ==> step == ConnectStep::RetryNow
                && final(self)@.connection_failed_count == 1,
    {
        proof {
            use_type_invariant(&*self);
            lemma_failed_rounds_wait(old(self)@.connection_failed_count);
        }
        if self.connection_failed_count > 0 {
            if connected {
                self.connection_failed_count = 0;
                ConnectStep::Proceed { announce: true }
            } else {
                let show_waiting = self.connection_failed_count == 1;
                self.connection_failed_count = self.connection_failed_count + 1;
                ConnectStep::RetryAfterInterval { show_waiting }
            }
        } else {
            if connected {
                ConnectStep::Proceed { announce: false }
            } else {
                self.connection_failed_count = 1;
                ConnectStep::RetryNow
            }
        }
    }

    /// Records the track information read in this round; returns whether
    /// the screen is to be redrawn with it, and then keeps it as the last
    /// track drawn.
    pub fn on_track(&mut self, track: TrackInfo) -> (redraw: bool)
        ensures
            redraw == track_changed(track, old(self)@.last_track),
            final(self)@.last_track == (if redraw {
                track
            } else {
                old(self)@.last_track
            }),
            final(self)@.connection_failed_count == old(self)@.connection_failed_count,
    {
        proof {
            use_type_invariant(&*self);
        }
        if track.differs_from(&self.last_track) {
            self.last_track = track;
            true
        } else {
            false
        }
    }

    /// Records that the track information could not be read: the next round
    /// reconnects and shows that the player is awaited if that fails.
    pub fn on_track_error(&mut self)
        ensures
            final(self)@.connection_failed_count == 1,
            final(self)@.last_track == old(self)@.last_track,
    {
        self.connection_failed_count = 1;
    }
}

/// What a decoded encoder event makes the player or the screen do.
#[derive(Debug, Clone, Copy, PartialEq, Eq, Structural)]
pub enum EncoderAction {
    /// Show the control mode now in force.
    ShowMode(ControlMode),
    PlayPause,
    VolumeUp,
    VolumeDown,
    NextTrack,
    PreviousTrack,
}

/// The action for an event in a control mode.
pub open spec fn spec_action_for(event: RotaryEvent, mode: ControlMode) -> EncoderAction {
    match event {
        RotaryEvent::ButtonDoubleClick => EncoderAction::ShowMode(mode),
        RotaryEvent::ButtonPress => EncoderAction::PlayPause,
        RotaryEvent::Clockwise => match mode {
            ControlMode::Volume => EncoderAction::VolumeUp,
            ControlMode::Scroll => EncoderAction::NextTrack,
        },
        RotaryEvent::CounterClockwise => match mode {
            ControlMode::Volume => EncoderAction::VolumeDown,
            ControlMode::Scroll => EncoderAction::PreviousTrack,
        },
    }
}

/// The action for an encoder event in the mode that the encoder reports
/// after the event: a double click shows the mode, a press toggles play and
/// pause, and a turn changes the volume or the track.
pub fn action_for(event: RotaryEvent, mode: ControlMode) -> (a: EncoderAction)
    ensures
        a == spec_action_for(event, mode),
{
    match event {
        RotaryEvent::ButtonDoubleClick => EncoderAction::ShowMode(mode),
        RotaryEvent::ButtonPress => EncoderAction::PlayPause,
        RotaryEvent::Clockwise => match mode {
            ControlMode::Volume => EncoderAction::VolumeUp,
            ControlMode::Scroll => EncoderAction::NextTrack,
        },
        RotaryEvent::CounterClockwise => match mode {
            ControlMode::Volume => EncoderAction::VolumeDown,
            ControlMode::Scroll => EncoderAction::PreviousTrack,
        },
    }
}

/// The label under which a control mode is announced.
pub open spec fn mode_label_text(mode: ControlMode) -> Seq<char> {
    match mode {
        ControlMode::Volume => "Volume Mode"@,
        ControlMode::Scroll => "Scroll Mode"@,
    }
}

/// The label under which a control mode is announced.
pub fn mode_label(mode: ControlMode) -> (s: &'static str)
    ensures
        s@ == mode_label_text(mode),
{
    match mode {
        ControlMode::Volume => "Volume Mode",
        ControlMode::Scroll => "Scroll Mode",
    }
}


/// Waiting messages shown over `rounds` failed connection rounds in a row,
/// starting with `failed_count` failed rounds behind.
pub open spec fn waiting_messages(failed_count: i32, rounds: nat) -> nat
    decreases rounds,
{
    if rounds == 0 {
        0
    } else {
        let (next, step) = connect_transition(failed_count, false);
        let shown: nat = if step == (ConnectStep::RetryAfterInterval { show_waiting: true }) {
            1
        } else {
            0
        };
        shown + waiting_messages(next, (rounds - 1) as nat)
    }
}

/// A successful connection clears the count of failed rounds.
pub proof fn lemma_connection_clears_failures(failed_count: i32)
    requires
        failed_count >= 0,
    ensures
        connect_transition(failed_count, true).0 == 0,
        connect_transition(failed_count, true).1 is Proceed,
{
}

/// Once two rounds or more have failed, further failures keep quiet.
proof fn lemma_no_more_waiting_messages(failed_count: i32, rounds: nat)
    requires
        failed_count >= 2,
        failed_count + rounds <= i32::MAX,
    ensures
        waiting_messages(failed_count, rounds) == 0,
    decreases rounds,
{
    if rounds > 0 {
        lemma_no_more_waiting_messages((failed_count + 1) as i32, (rounds - 1) as nat);
    }
}

/// While the player stays out of reach, the waiting message is shown once
/// per outage: never in the first failed round (which retries at once), and
/// exactly once over any longer run of failed rounds.
pub proof fn lemma_waiting_shown_once_per_outage(rounds: nat)
    requires
        rounds < i32::MAX,
    ensures
        waiting_messages(0, rounds) == (if rounds >= 2 {
            1nat
        } else {
            0nat
        }),
{
    if rounds >= 1 {
        assert(connect_transition(0, false) == (1i32, ConnectStep::RetryNow));
        assert(waiting_messages(0, rounds) == waiting_messages(1, (rounds - 1) as nat));
    }
    if rounds >= 2 {
        lemma_no_more_waiting_messages(2, (rounds - 2) as nat);
        assert(waiting_messages(1, (rounds - 1) as nat) == 1 + waiting_messages(
            2,
            (rounds - 2) as nat,
        ));
    }
}

/// After the track could not be read, the next round reconnects; if that
/// fails it waits the reconnect interval and shows the waiting message, and
/// if it succeeds it announces the connection.
pub proof fn lemma_read_error_leads_to_reconnect()
    ensures
        connect_transition(1, false) == (2i32, ConnectStep::RetryAfterInterval { show_waiting: true }),
        connect_transition(1, true) == (0i32, ConnectStep::Proceed { announce: true }),
{
}

/// The screen is not redrawn for the track it shows already, nor for a
/// position that moved within the same whole second.
pub proof fn lemma_same_track_not_redrawn(track: TrackInfo, last: TrackInfo)
    requires
        track.title@ == last.title@,
        track.artist@ == last.artist@,
        track.position / 1_000_000 == last.position / 1_000_000,
    ensures
        !track_changed(track, last),
        !track_changed(track, track),
{
}

/// A double click is answered by showing the mode it switched to.
pub proof fn lemma_double_click_shows_new_mode(
    s: EncoderState,
    button_press: Option<u64>,
    clk: Level,
    dt: Level,
)
    requires
        poll_transition(s, button_press, clk, dt).1 == Some(RotaryEvent::ButtonDoubleClick),
    ensures
        spec_action_for(RotaryEvent::ButtonDoubleClick, poll_transition(s, button_press, clk, dt).0.mode)
            == EncoderAction::ShowMode(s.mode.toggled()),
{
}

/// In volume mode a turn changes the volume, and in scroll mode it changes
/// the track, in the direction of the turn.
pub proof fn lemma_turns_follow_mode(event: RotaryEvent)
    requires
        event == RotaryEvent::Clockwise || event == RotaryEvent::CounterClockwise,
    ensures
        spec_action_for(event, ControlMode::Volume) == (if event == RotaryEvent::Clockwise {
            EncoderAction::VolumeUp
        } else {
            EncoderAction::VolumeDown
        }),
        spec_action_for(event, ControlMode::Scroll) == (if event == RotaryEvent::Clockwise {
            EncoderAction::NextTrack
        } else {
            EncoderAction::PreviousTrack
        }),
{
}


/// How each connection attempt is answered: a success goes on (announcing
/// the connection when earlier rounds failed) and clears the count; the
/// first failure retries at once; every later failure counts one more
/// failed round and waits the reconnect interval before retrying, showing
/// the waiting message only the first time.
pub proof fn lemma_failed_rounds_wait(failed_count: i32)
    requires
        failed_count >= 0,
    ensures
        connect_transition(failed_count, true) == (0i32, ConnectStep::Proceed {
            announce: failed_count > 0,
        }),
        failed_count == 0 ==> connect_transition(failed_count, false) == (
            1i32,
            ConnectStep::RetryNow,
        ),
        0 < failed_count < i32::MAX ==> connect_transition(failed_count, false).0 == failed_count
            + 1,
        failed_count > 0 ==> connect_transition(failed_count, false).1
            == (ConnectStep::RetryAfterInterval { show_waiting: failed_count == 1 }),
{
}


/// Clicks act the same in both modes: a single click toggles play and
/// pause, and a double click shows the mode that the encoder reports.
pub proof fn lemma_clicks_ignore_mode(mode: ControlMode)
    ensures
        spec_action_for(RotaryEvent::ButtonPress, mode) == EncoderAction::PlayPause,
        spec_action_for(RotaryEvent::ButtonDoubleClick, mode) == EncoderAction::ShowMode(mode),
{
}

} // verus!
