//! The timer itself: its state, the events that reach it, and what each
//! event makes of the state.

use crate::clock::{is_valid_time, valid_time, wall_clock_seconds, MAX_DURATION, SENTINEL_GAP};
use crate::utils::{
    in_range, lemma_in_range_field_value, lemma_regulated_in_range, lemma_zero_text, make_secs,
    regulate_24, regulate_60, regulated_24, regulated_60, total_seconds, zero_text,
};
use std::time::Instant;
use vstd::prelude::*;

verus! {

/// `std::time::Instant`, the payload of a tick. The timer never looks
/// inside it.
#[verifier::external_type_specification]
#[verifier::external_body]
pub struct ExInstant(Instant);

/// `Clone::clone` of `std::time::Instant`, which the derived `Clone` of
/// `Message` calls. Nothing is claimed of the copy.
pub assume_specification[ <Instant as Clone>::clone ](instant: &Instant) -> (copy: Instant)
;

/// An event that reaches the timer.
#[derive(Debug, Clone)]
pub enum Message {
    /// The heartbeat, once a second.
    Tick(Instant),
    /// The hour field was edited to this text.
    HoursEdited(String),
    /// The minute field was edited to this text.
    MinutesEdited(String),
    /// The second field was edited to this text.
    SecondsEdited(String),
    /// The countdown is to start.
    StartTimer,
    /// The countdown is to stop.
    StopTimer,
    /// The countdown is to stop and the fields are to be cleared.
    ResetTimer,
}

/// What the caller is to do after an event.
#[derive(Debug, Clone, Copy, PartialEq, Eq, Structural)]
pub enum Action {
    /// Nothing: go on waiting for events.
    Continue,
    /// The countdown has run out: power the machine off.
    Shutdown,
}

/// The timer's state as mathematics: the text of the three fields, whether
/// a countdown is running, and the two moments in seconds since the epoch.
pub struct TimerState {
    pub hours: Seq<char>,
    pub minutes: Seq<char>,
    pub seconds: Seq<char>,
    pub countdown: bool,
    pub start_time: int,
    pub finish_time: int,
}

impl TimerState {
    /// The state of a timer created at `now`: fields cleared, idle.
    pub open spec fn initial(now: int) -> TimerState {
        TimerState {
            hours: zero_text(),
            minutes: zero_text(),
            seconds: zero_text(),
            countdown: false,
            start_time: now,
            finish_time: now - SENTINEL_GAP,
        }
    }

    /// The duration that the three fields ask for, in seconds.
    pub open spec fn duration(self) -> nat {
        total_seconds(self.hours, self.minutes, self.seconds)
    }

    /// What every reachable state satisfies. Each field denotes a number in
    /// its range. A running countdown finishes after its start, by no more
    /// than the longest duration; an idle timer's finish time is the
    /// sentinel, one hour before its start.
    pub open spec fn wf(self) -> bool {
        &&& in_range(self.hours, 23)
        &&& in_range(self.minutes, 59)
        &&& in_range(self.seconds, 59)
        &&& valid_time(self.start_time)
        &&& if self.countdown {
            self.start_time < self.finish_time <= self.start_time + MAX_DURATION
        } else {
            self.finish_time == self.start_time - SENTINEL_GAP
        }
    }

    /// The state after `message` has arrived at the moment `now`.
    pub open spec fn step(self, message: Message, now: int) -> TimerState {
        match message {
            Message::Tick(_) => self,
            Message::HoursEdited(text) => TimerState { hours: regulated_24(text@), ..self },
            Message::MinutesEdited(text) => TimerState { minutes: regulated_60(text@), ..self },
            Message::SecondsEdited(text) => TimerState { seconds: regulated_60(text@), ..self },
            Message::StartTimer => if self.duration() > 0 {
                TimerState {
                    countdown: true,
                    start_time: now,
                    finish_time: now + self.duration(),
                    ..self
                }
            } else {
                self
            },
            Message::StopTimer => TimerState {
                countdown: false,
                finish_time: self.start_time - SENTINEL_GAP,
                ..self
            },
            Message::ResetTimer => TimerState::initial(now),
        }
    }

    /// The finish time of a running countdown; an idle timer has none.
    pub open spec fn deadline(self) -> Option<int> {
        if self.countdown {
            Some(self.finish_time)
        } else {
            None
        }
    }

    /// What the caller is to do when `message` arrives at the moment `now`:
    /// power off on a tick at or after the finish time of a running
    /// countdown, and nothing otherwise.
    pub open spec fn action(self, message: Message, now: int) -> Action {
        if message is Tick && self.countdown && now >= self.finish_time {
            Action::Shutdown
        } else {
            Action::Continue
        }
    }
}

/// `message` sets the timer's start to the clock reading, which must then
/// be one a timer can start from.
pub open spec fn restarts(message: Message) -> bool {
    message is StartTimer || message is ResetTimer
}

/// The timer: three text fields, the countdown flag, and the moments the
/// countdown started and is to finish.
pub struct Application {
    hours: String,
    minutes: String,
    seconds: String,
    countdown: bool,
    start_time: i64,
    finish_time: i64,
}

impl View for Application {
    type V = TimerState;

    closed spec fn view(&self) -> TimerState {
        TimerState {
            hours: self.hours@,
            minutes: self.minutes@,
            seconds: self.seconds@,
            countdown: self.countdown,
            start_time: self.start_time as int,
            finish_time: self.finish_time as int,
        }
    }
}

impl Application {
    /// The timer is in a state that `new` and `update` can have left it in.
    pub open spec fn wf(&self) -> bool {
        self@.wf()
    }

    /// A timer created at the clock reading `now`: fields cleared, idle.
    pub fn new_at(now: i64) -> (app: Self)
        requires
            valid_time(now as int),
        ensures
            app.wf(),
            app@ == TimerState::initial(now as int),
    {
        proof {
            reveal_strlit("00");
            assert("00"@ =~= zero_text());
            lemma_zero_text(23);
            lemma_zero_text(59);
        }
        Self {
            hours: "00".to_string(),
            minutes: "00".to_string(),
            seconds: "00".to_string(),
            countdown: false,
            start_time: now,
            finish_time: now - SENTINEL_GAP,
        }
    }

    /// Applies `message`, arriving at the clock reading `now`, and says
    /// what the caller is to do.
    pub fn update_at(&mut self, message: Message, now: i64) -> (action: Action)
        requires
            old(self).wf(),
            restarts(message) ==> valid_time(now as int),
        ensures
            final(self).wf(),
            final(self)@ == old(self)@.step(message, now as int),
            action == old(self)@.action(message, now as int),
    {
        let mut action = Action::Continue;
        match message {
            Message::Tick(_now) => {
                if self.countdown && now >= self.finish_time {
                    action = Action::Shutdown;
                }
            },
            Message::HoursEdited(changed_hours) => {
                proof {
                    lemma_regulated_in_range(changed_hours@);
                }
                self.hours = regulate_24(changed_hours);
            },
            Message::MinutesEdited(changed_minutes) => {
                proof {
                    lemma_regulated_in_range(changed_minutes@);
                }
                self.minutes = regulate_60(changed_minutes);
            },
            Message::SecondsEdited(changed_seconds) => {
                proof {
                    lemma_regulated_in_range(changed_seconds@);
                }
                self.seconds = regulate_60(changed_seconds);
            },
            Message::StartTimer => {
                proof {
                    lemma_in_range_field_value(self.hours@, 23);
                    lemma_in_range_field_value(self.minutes@, 59);
                    lemma_in_range_field_value(self.seconds@, 59);
                }
                let elapsed_secs = make_secs(
                    self.hours.clone(),
                    self.minutes.clone(),
                    self.seconds.clone(),
                );
                if elapsed_secs > 0 {
                    self.start_time = now;
                    self.finish_time = now + elapsed_secs as i64;
                    self.countdown = true;
                }
            },
            Message::StopTimer => {
                self.finish_time = self.start_time - SENTINEL_GAP;
                self.countdown = false;
            },
            Message::ResetTimer => {
                proof {
                    reveal_strlit("00");
                    assert("00"@ =~= zero_text());
                    lemma_zero_text(23);
                    lemma_zero_text(59);
                }
                self.hours = "00".to_string();
                self.minutes = "00".to_string();
                self.seconds = "00".to_string();
                self.start_time = now;
                self.finish_time = now - SENTINEL_GAP;
                self.countdown = false;
            },
        }
        action
    }

    /// A timer created at the present clock reading: fields cleared, idle.
    pub fn new() -> (app: Self)
        ensures
            app.wf(),
            exists|now: i64|
                valid_time(now as int) && app@ == #[trigger] TimerState::initial(now as int),
    {
        Self::new_at(wall_clock_seconds())
    }

    /// A timer created at the clock reading `now` where a timer can start
    /// from it, and `None` where it cannot.
    pub fn new_from_reading(now: i64) -> (created: Option<Self>)
        ensures
            match created {
                Some(app) => valid_time(now as int) && app.wf() && app@ == TimerState::initial(
                    now as int,
                ),
                None => !valid_time(now as int),
            },
    {
        if is_valid_time(now) {
            Some(Self::new_at(now))
        } else {
            None
        }
    }

    /// Applies `message` at the present clock reading and says what the
    /// caller is to do.
    pub fn update(&mut self, message: Message) -> (action: Action)
        requires
            old(self).wf(),
        ensures
            final(self).wf(),
            exists|now: i64|
                {
                    &&& valid_time(now as int)
                    &&& final(self)@ == #[trigger] old(self)@.step(message, now as int)
                    &&& action == old(self)@.action(message, now as int)
                },
            !restarts(message) ==> final(self)@ == old(self)@.step(message, 0),
            !(message is Tick) ==> action == Action::Continue,
    {
        self.update_at(message, wall_clock_seconds())
    }

    /// Applies `message`, arriving at the clock reading `now`, and says
    /// what the caller is to do. Where the message would restart the timer
    /// from a reading that no timer can start from, and only there, the
    /// timer is left as it was and the result is `None`.
    pub fn update_from_reading(&mut self, message: Message, now: i64) -> (outcome: Option<Action>)
        requires
            old(self).wf(),
        ensures
            final(self).wf(),
            outcome is None <==> restarts(message) && !valid_time(now as int),
            match outcome {
                Some(action) => final(self)@ == old(self)@.step(message, now as int) && action
                    == old(self)@.action(message, now as int),
                None => final(self)@ == old(self)@,
            },
    {
        if is_restart(&message) && !is_valid_time(now) {
            None
        } else {
            Some(self.update_at(message, now))
        }
    }

    /// The text of the hour field.
    pub fn hours(&self) -> (text: &str)
        ensures
            text@ == self@.hours,
    {
        self.hours.as_str()
    }

    /// The text of the minute field.
    pub fn minutes(&self) -> (text: &str)
        ensures
            text@ == self@.minutes,
    {
        self.minutes.as_str()
    }

    /// The text of the second field.
    pub fn seconds(&self) -> (text: &str)
        ensures
            text@ == self@.seconds,
    {
        self.seconds.as_str()
    }

    /// Whether a countdown is running.
    pub fn countdown(&self) -> (running: bool)
        ensures
            running == self@.countdown,
    {
        self.countdown
    }

    /// When the timer was last started or reset, in seconds since the epoch.
    pub fn start_time(&self) -> (secs: i64)
        ensures
            secs == self@.start_time,
    {
        self.start_time
    }

    /// When the countdown is to finish, in seconds since the epoch; one hour
    /// before the start while no countdown is running.
    pub fn finish_time(&self) -> (secs: i64)
        ensures
            secs == self@.finish_time,
    {
        self.finish_time
    }

    /// The moment at which the machine is to be powered off, if a countdown
    /// is running.
    pub fn deadline(&self) -> (due: Option<i64>)
        ensures
            match due {
                Some(secs) => self@.deadline() == Some(secs as int),
                None => self@.deadline() is None,
            },
    {
        if self.countdown {
            Some(self.finish_time)
        } else {
            None
        }
    }
}

/// The command line that powers the machine off, the program first and
/// then its arguments: `shutdown /s /f /t 0` on Windows, `systemctl poweroff`
/// elsewhere.
pub open spec fn shutdown_argv(windows: bool) -> Seq<Seq<char>> {
    if windows {
        seq![
            seq!['s', 'h', 'u', 't', 'd', 'o', 'w', 'n'],
            seq!['/', 's'],
            seq!['/', 'f'],
            seq!['/', 't'],
            seq!['0'],
        ]
    } else {
        seq![
            seq!['s', 'y', 's', 't', 'e', 'm', 'c', 't', 'l'],
            seq!['p', 'o', 'w', 'e', 'r', 'o', 'f', 'f'],
        ]
    }
}

/// The command line to run for `Action::Shutdown`, for the Windows family
/// of platforms or for any other.
pub fn shutdown_command(windows: bool) -> (argv: Vec<String>)
    ensures
        argv.deep_view() == shutdown_argv(windows),
{
    let mut argv: Vec<String> = Vec::new();
    if windows {
        proof {
            reveal_strlit("shutdown");
            reveal_strlit("/s");
            reveal_strlit("/f");
            reveal_strlit("/t");
            reveal_strlit("0");
        }
        argv.push("shutdown".to_string());
        argv.push("/s".to_string());
        argv.push("/f".to_string());
        argv.push("/t".to_string());
        argv.push("0".to_string());
        assert(argv.deep_view() =~~= shutdown_argv(windows));
    } else {
        proof {
            reveal_strlit("systemctl");
            reveal_strlit("poweroff");
        }
        argv.push("systemctl".to_string());
        argv.push("poweroff".to_string());
        assert(argv.deep_view() =~~= shutdown_argv(windows));
    }
    argv
}

/// The timer's invariant survives every event: a well-formed state stays
/// well-formed, provided an event that restarts the timer comes at a clock
/// reading a timer can start from.
pub proof fn lemma_step_keeps_wf(s: TimerState, message: Message, now: int)
    requires
        s.wf(),
        restarts(message) ==> valid_time(now),
    ensures
        s.step(message, now).wf(),
{
    lemma_zero_text(23);
    lemma_zero_text(59);
    lemma_in_range_field_value(s.hours, 23);
    lemma_in_range_field_value(s.minutes, 59);
    lemma_in_range_field_value(s.seconds, 59);
    match message {
        Message::HoursEdited(text) => lemma_regulated_in_range(text@),
        Message::MinutesEdited(text) => lemma_regulated_in_range(text@),
        Message::SecondsEdited(text) => lemma_regulated_in_range(text@),
        _ => {},
    }
}

/// A start is rejected when the fields add up to no time at all, as
/// cleared fields do: the state stays as it was, countdown flag included.
/// With any time on the fields the start arms the countdown for that long
/// from `now`.
pub proof fn lemma_start_needs_a_duration(s: TimerState, now: int)
    ensures
        s.hours == zero_text() && s.minutes == zero_text() && s.seconds == zero_text()
            ==> s.duration() == 0,
        s.duration() == 0 ==> s.step(Message::StartTimer, now) == s,
        s.duration() > 0 ==> {
            let armed = s.step(Message::StartTimer, now);
            &&& armed.countdown
            &&& armed.start_time == now
            &&& armed.finish_time == now + s.duration()
        },
        s.action(Message::StartTimer, now) == Action::Continue,
{
    lemma_zero_text(0);
}

/// After a start at `started` with a duration on the fields, a tick asks
/// for the shutdown exactly when it comes at or after `started` plus that
/// duration. The tick leaves the state as it is, so every later tick asks
/// again.
pub proof fn lemma_tick_after_start(s: TimerState, started: int, tick: Message, ticked: int)
    requires
        s.duration() > 0,
        tick is Tick,
    ensures
        ({
            let armed = s.step(Message::StartTimer, started);
            &&& armed.finish_time == started + s.duration()
            &&& armed.action(tick, ticked) == Action::Shutdown <==> ticked >= started
                + s.duration()
            &&& armed.step(tick, ticked) == armed
        }),
{
}

/// Only a tick ever asks for the shutdown, and only while a countdown is
/// running.
pub proof fn lemma_shutdown_only_on_tick(s: TimerState, message: Message, now: int)
    ensures
        s.action(message, now) == Action::Shutdown <==> message is Tick && s.countdown && now
            >= s.finish_time,
{
}

/// A stop or a reset, at whatever moment after a start, leaves the timer
/// idle with the sentinel finish time, one hour before its start. A reset
/// clears the fields as well.
pub proof fn lemma_stop_or_reset_after_start(s: TimerState, started: int, later: int)
    ensures
        ({
            let stopped = s.step(Message::StartTimer, started).step(Message::StopTimer, later);
            &&& !stopped.countdown
            &&& stopped.finish_time == stopped.start_time - SENTINEL_GAP
            &&& stopped.deadline() is None
        }),
        ({
            let reset = s.step(Message::StartTimer, started).step(Message::ResetTimer, later);
            &&& !reset.countdown
            &&& reset.finish_time == reset.start_time - SENTINEL_GAP
            &&& reset.deadline() is None
            &&& reset == TimerState::initial(later)
        }),
{
}

/// Whether `message` restarts the timer from the clock reading.
fn is_restart(message: &Message) -> (yes: bool)
    ensures
        yes == restarts(*message),
{
    match message {
        Message::StartTimer => true,
        Message::ResetTimer => true,
        _ => false,
    }
}

} // verus!
