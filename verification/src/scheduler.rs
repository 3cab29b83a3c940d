//! The decisions of the controller's tasks.
//!
//! Four things happen to the controller: the sampling loop hands in readings
//! and ends a pass over the channels, the refresh task runs, the auto-off
//! timer expires, and a telemetry report falls due. A [`Scheduler`] holds the
//! state these share and answers each of them with what the caller has to do
//! next. The caller owns the panel, the timers and the serial line, and runs
//! each method as one critical section.
use vstd::prelude::*;
use crate::display::{
    any_differs,
    commands_view,
    frame,
    merged,
    CommandView,
    DisplayCommand,
    DisplayState,
    DisplayStateView,
    DisplayStatus,
    layout_fits,
    title_position_of,
    FRAME_COMMANDS,
};
use crate::geometry::Rectangle;
use crate::globals::{DISPLAY_ON_TIME, INPUT_COUNT, MAX_ANALOG_VALUE, SAMPLING_PAUSE, SERIAL_UPDATE_PERIOD};
use crate::scaler::{scale_analog_input_to_100, scaled};
use crate::telemetry::{line, report, telemetry_line, telemetry_values};
use crate::text::text_bytes;

verus! {

/// What a [`Scheduler`] holds.
pub struct SchedulerView {
    /// The latest reading of each channel.
    pub raw_input_values: Seq<u16>,
    /// The display.
    pub display: DisplayStateView,
    /// Seconds the panel stays lit after a refresh.
    pub display_on_time: u32,
    /// Whether a refresh has been asked for and has not run yet.
    pub refresh_pending: bool,
    /// Whether the auto-off timer is counting down.
    pub auto_off_armed: bool,
}

/// What can happen to a scheduler.
pub enum Event {
    /// The sampling loop read a channel.
    Reading { channel: int, reading: u16 },
    /// The sampling loop ended a pass over the channels.
    PassEnd,
    /// The refresh task ran.
    Refresh,
    /// The auto-off timer expired.
    AutoOffExpired,
    /// A telemetry report fell due.
    TelemetryDue,
}

/// A reading as a percentage.
pub open spec fn percent(reading: u16) -> u16 {
    scaled(reading as int, 0, MAX_ANALOG_VALUE as int, 0, 100) as u16
}

/// The readings of all channels as percentages.
pub open spec fn percentages(readings: Seq<u16>) -> Seq<u16> {
    Seq::new(readings.len(), |i: int| percent(readings[i]))
}

/// Whether the end of a pass finds a volume that moved on the display.
pub open spec fn pass_changes(s: SchedulerView) -> bool {
    any_differs(s.display.volumes, percentages(s.raw_input_values))
}

/// Whether an event makes the scheduler ask for a refresh: a pass ends with a
/// changed volume while no refresh is waiting.
pub open spec fn requests_refresh(s: SchedulerView, event: Event) -> bool {
    event is PassEnd && pass_changes(s) && !s.refresh_pending
}

/// Whether an event makes the scheduler blank the panel: the auto-off timer
/// expires while it is armed.
pub open spec fn blanks(s: SchedulerView, event: Event) -> bool {
    event is AutoOffExpired && s.auto_off_armed
}

/// The state after an event.
pub open spec fn step(s: SchedulerView, event: Event) -> SchedulerView {
    match event {
        Event::Reading { channel, reading } => if 0 <= channel < s.raw_input_values.len() {
            SchedulerView { raw_input_values: s.raw_input_values.update(channel, reading), ..s }
        } else {
            s
        },
        Event::PassEnd => SchedulerView {
            display: DisplayStateView {
                volumes: merged(s.display.volumes, percentages(s.raw_input_values)),
                ..s.display
            },
            refresh_pending: s.refresh_pending || pass_changes(s),
            ..s
        },
        Event::Refresh => SchedulerView { refresh_pending: false, auto_off_armed: true, ..s },
        Event::AutoOffExpired => SchedulerView { auto_off_armed: false, ..s },
        Event::TelemetryDue => s,
    }
}

/// How often a run of events, starting in `s`, blanks the panel.
pub open spec fn blankings(s: SchedulerView, events: Seq<Event>) -> nat
    decreases events.len(),
{
    if events.len() == 0 {
        0
    } else {
        (if blanks(s, events[0]) {
            1nat
        } else {
            0nat
        }) + blankings(step(s, events[0]), events.drop_first())
    }
}

/// How often a run of events, starting in `s`, asks for a refresh.
pub open spec fn requests(s: SchedulerView, events: Seq<Event>) -> nat
    decreases events.len(),
{
    if events.len() == 0 {
        0
    } else {
        (if requests_refresh(s, events[0]) {
            1nat
        } else {
            0nat
        }) + requests(step(s, events[0]), events.drop_first())
    }
}

/// Whether a run of events holds no refresh.
pub open spec fn no_refresh(events: Seq<Event>) -> bool {
    forall|i: int| 0 <= i < events.len() ==> !(#[trigger] events[i] is Refresh)
}

/// Whether a run of events holds an expiry of the auto-off timer.
pub open spec fn has_expiry(events: Seq<Event>) -> bool {
    exists|i: int| 0 <= i < events.len() && #[trigger] events[i] is AutoOffExpired
}

/// A refresh arms the auto-off timer, and only an expiry disarms it.
pub proof fn lemma_refresh_arms(s: SchedulerView, event: Event)
    ensures
        step(s, Event::Refresh).auto_off_armed,
        !step(s, Event::AutoOffExpired).auto_off_armed,
        !(event is Refresh) && !(event is AutoOffExpired) ==> step(s, event).auto_off_armed
            == s.auto_off_armed,
{
}

/// Between two refreshes the panel is blanked at most once: while the timer
/// is armed, a run of events without a refresh blanks the panel once if the
/// timer expires in it, however often, and never if it does not; while the
/// timer is not armed, such a run never blanks the panel.
pub proof fn lemma_one_blanking_per_refresh(s: SchedulerView, events: Seq<Event>)
    requires
        no_refresh(events),
    ensures
        blankings(s, events) == (if s.auto_off_armed && has_expiry(events) {
            1nat
        } else {
            0nat
        }),
    decreases events.len(),
{
    if events.len() > 0 {
        let rest = events.drop_first();
        assert forall|i: int| 0 <= i < rest.len() implies !(#[trigger] rest[i] is Refresh) by {
            assert(rest[i] == events[i + 1]);
        }
        lemma_one_blanking_per_refresh(step(s, events[0]), rest);
        if has_expiry(rest) {
            let i = choose|i: int| 0 <= i < rest.len() && #[trigger] rest[i] is AutoOffExpired;
            assert(events[i + 1] is AutoOffExpired);
        }
        if has_expiry(events) && !(events[0] is AutoOffExpired) {
            let i = choose|i: int| 0 <= i < events.len() && #[trigger] events[i] is AutoOffExpired;
            assert(rest[i - 1] is AutoOffExpired);
        }
        if events[0] is AutoOffExpired {
            assert(has_expiry(events));
        }
    }
}

/// Requests for a refresh do not pile up: a run of events without a refresh
/// asks for one at most once, and never while one is already waiting.
pub proof fn lemma_requests_coalesce(s: SchedulerView, events: Seq<Event>)
    requires
        no_refresh(events),
    ensures
        requests(s, events) <= 1,
        s.refresh_pending ==> requests(s, events) == 0,
    decreases events.len(),
{
    if events.len() > 0 {
        let rest = events.drop_first();
        assert forall|i: int| 0 <= i < rest.len() implies !(#[trigger] rest[i] is Refresh) by {
            assert(rest[i] == events[i + 1]);
        }
        assert(!(events[0] is Refresh));
        lemma_requests_coalesce(step(s, events[0]), rest);
    }
}

/// What the sampling loop does after a pass over the channels.
#[derive(Clone, Copy, Debug, PartialEq, Eq, Structural)]
pub struct PassOutcome {
    /// Whether to start the refresh task.
    pub refresh: bool,
    /// Milliseconds to wait before the next pass.
    pub pause: u32,
}

/// What the refresh task does.
#[derive(Debug, PartialEq, Eq)]
pub struct Refresh<'a> {
    /// The commands to carry out on the panel, in order.
    pub commands: [DisplayCommand<'a>; FRAME_COMMANDS],
    /// Seconds after which the auto-off timer is to expire, counted from now.
    pub auto_off_after: u32,
}

/// What the telemetry task does.
#[derive(Debug, PartialEq, Eq)]
pub struct Report {
    /// The line to send.
    pub line: heapless::String<32>,
    /// Milliseconds after which the next report falls due.
    pub next_after: u32,
}

/// The state shared by the sampling loop and the timer-driven tasks.
pub struct Scheduler<'a> {
    raw_input_values: [u16; INPUT_COUNT],
    display: DisplayState<'a>,
    display_on_time: u32,
    refresh_pending: bool,
    auto_off_armed: bool,
}

impl<'a> View for Scheduler<'a> {
    type V = SchedulerView;

    closed spec fn view(&self) -> SchedulerView {
        SchedulerView {
            raw_input_values: self.raw_input_values@,
            display: self.display@,
            display_on_time: self.display_on_time,
            refresh_pending: self.refresh_pending,
            auto_off_armed: self.auto_off_armed,
        }
    }
}

impl<'a> Scheduler<'a> {
    /// The display of a scheduler is always allowed to draw.
    #[verifier::type_invariant]
    spec fn display_ready(&self) -> bool {
        self.display@.ready
    }

    /// The state at start-up, for a panel with the given bounding box: all
    /// readings and volumes zero, the title "Volumes", drawing allowed, no
    /// refresh waiting and the auto-off timer at rest.
    pub fn init(bounding_box: Rectangle) -> (scheduler: Self)
        requires
            layout_fits(bounding_box),
        ensures
            scheduler@ == (SchedulerView {
                raw_input_values: seq![0u16, 0u16, 0u16, 0u16],
                display: DisplayStateView {
                    title: Some("Volumes"@),
                    title_position: title_position_of(bounding_box),
                    volumes: seq![0u16, 0u16, 0u16, 0u16],
                    ready: true,
                    top_left: bounding_box.top_left,
                },
                display_on_time: DISPLAY_ON_TIME,
                refresh_pending: false,
                auto_off_armed: false,
            }),
    {
        let mut display = DisplayState::new(bounding_box);
        display.set_title("Volumes");
        display.ready();
        let scheduler = Scheduler {
            raw_input_values: [0, 0, 0, 0],
            display,
            display_on_time: DISPLAY_ON_TIME,
            refresh_pending: false,
            auto_off_armed: false,
        };
        assert(scheduler.raw_input_values@ =~= seq![0u16, 0u16, 0u16, 0u16]);
        scheduler
    }

    /// The latest reading of each channel.
    pub fn raw_input_values(&self) -> (readings: [u16; INPUT_COUNT])
        ensures
            readings@ == self@.raw_input_values,
    {
        self.raw_input_values
    }

    /// The display.
    pub fn display(&self) -> (display: &DisplayState<'a>)
        ensures
            display@ == self@.display,
            display@.ready,
    {
        proof {
            use_type_invariant(self);
        }
        &self.display
    }

    /// Seconds the panel stays lit after a refresh.
    pub fn display_on_time(&self) -> (seconds: u32)
        ensures
            seconds == self@.display_on_time,
    {
        self.display_on_time
    }

    /// Whether a refresh has been asked for and has not run yet.
    pub fn is_refresh_pending(&self) -> (pending: bool)
        ensures
            pending == self@.refresh_pending,
    {
        self.refresh_pending
    }

    /// Whether the auto-off timer is counting down.
    pub fn is_auto_off_armed(&self) -> (armed: bool)
        ensures
            armed == self@.auto_off_armed,
    {
        self.auto_off_armed
    }

    /// Records the reading that the sampling loop took of one channel.
    pub fn store_reading(&mut self, channel: usize, reading: u16)
        requires
            channel < INPUT_COUNT,
        ensures
            final(self)@ == step(old(self)@, Event::Reading { channel: channel as int, reading }),
    {
        proof {
            use_type_invariant(&*self);
        }
        self.raw_input_values[channel] = reading;
    }

    /// Ends a pass of the sampling loop over the channels.
    ///
    /// The readings are offered to the display as percentages. If a volume
    /// moved and no refresh is waiting yet, the outcome asks for one; a
    /// refresh that is already waiting covers the new change as well.
    pub fn finish_pass(&mut self) -> (outcome: PassOutcome)
        ensures
            final(self)@ == step(old(self)@, Event::PassEnd),
            outcome.refresh == requests_refresh(old(self)@, Event::PassEnd),
            outcome.pause == SAMPLING_PAUSE,
    {
        proof {
            use_type_invariant(&*self);
        }
        let volumes = [
            scale_analog_input_to_100(self.raw_input_values[0]),
            scale_analog_input_to_100(self.raw_input_values[1]),
            scale_analog_input_to_100(self.raw_input_values[2]),
            scale_analog_input_to_100(self.raw_input_values[3]),
        ];
        assert(volumes@ =~= percentages(self.raw_input_values@));
        let display_changed = self.display.set_volumes(&volumes);
        let refresh = match display_changed {
            DisplayStatus::Changed => !self.refresh_pending,
            DisplayStatus::NotChanged => false,
        };
        if refresh {
            self.refresh_pending = true;
        }
        PassOutcome { refresh, pause: SAMPLING_PAUSE }
    }

    /// Runs the refresh task: the frame to draw, and the time after which the
    /// auto-off timer is to expire. The waiting request is settled and the
    /// timer counts as armed.
    pub fn update_display(&mut self) -> (refresh: Refresh<'a>)
        ensures
            final(self)@ == step(old(self)@, Event::Refresh),
            commands_view(refresh.commands@) == frame(old(self)@.display),
            refresh.auto_off_after == old(self)@.display_on_time,
    {
        proof {
            use_type_invariant(&*self);
        }
        self.refresh_pending = false;
        self.auto_off_armed = true;
        let commands = self.display.draw().unwrap();
        Refresh { commands, auto_off_after: self.display_on_time }
    }

    /// Answers the expiry of the auto-off timer: the command that blanks the
    /// panel if the timer was armed, nothing if it was not. Either way the
    /// timer is at rest afterwards.
    pub fn turn_display_off(&mut self) -> (command: Option<DisplayCommand<'a>>)
        ensures
            final(self)@ == step(old(self)@, Event::AutoOffExpired),
            command is Some <==> blanks(old(self)@, Event::AutoOffExpired),
            command matches Some(c) ==> c@ == CommandView::Power(false),
    {
        proof {
            use_type_invariant(&*self);
        }
        if self.auto_off_armed {
            self.auto_off_armed = false;
            Some(self.display.turn_off())
        } else {
            None
        }
    }

    /// Answers a due telemetry report: the line that reports the latest
    /// readings, and the time until the next report.
    pub fn send_to_serial(&self) -> (due: Report)
        ensures
            text_bytes(due.line) == line(report(self@.raw_input_values)),
            due.next_after == SERIAL_UPDATE_PERIOD,
    {
        let values = telemetry_values(&self.raw_input_values);
        Report { line: telemetry_line(&values), next_after: SERIAL_UPDATE_PERIOD }
    }
}

} // verus!
