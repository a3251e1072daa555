use vstd::prelude::*;

verus! {

/// Alert duration.
#[derive(Debug, Clone, Copy, Default, PartialEq, Eq, Structural)]
pub enum AlertDuration {
    /// A finite duration in seconds.
    Finite(u32),
    /// An infinite duration.
    #[default]
    Infinite,
}

impl AlertDuration {
    /// Is the duration infinite?
    pub fn is_infinite(&self) -> (r: bool)
        ensures
            r == (*self is Infinite),
    {
        match *self {
            AlertDuration::Finite(_) => false,
            AlertDuration::Infinite => true,
        }
    }
}

/// The timer an alert starts, in milliseconds: one is started when the
/// alert is open, its duration is finite and no timer is pending.
pub open spec fn spec_alert_timer(open: bool, duration: AlertDuration, timer_pending: bool) -> Option<u32> {
    if open && !timer_pending {
        match duration {
            AlertDuration::Finite(seconds) => Some((seconds * 1000) as u32),
            AlertDuration::Infinite => None,
        }
    } else {
        None
    }
}

/// Decides whether an alert starts its closing timer, and for how long.
pub fn alert_timer(open: bool, duration: AlertDuration, timer_pending: bool) -> (r: Option<u32>)
    requires
        open && !timer_pending ==> (duration matches AlertDuration::Finite(s) ==> s * 1000 <= u32::MAX),
    ensures
        r == spec_alert_timer(open, duration, timer_pending),
{
    if open && !duration.is_infinite() && !timer_pending {
        match duration {
            AlertDuration::Finite(seconds) => Some(seconds * 1000),
            AlertDuration::Infinite => None,
        }
    } else {
        None
    }
}

/// The current alert status.
#[derive(Debug, Clone, Copy, PartialEq, Eq, Default, Structural)]
pub enum GlobalAlertStatus {
    /// The alert is closed.
    #[default]
    Closed,
    /// The alert is opening.
    Opening,
    /// The alert is open.
    Open,
    /// The alert is closing.
    Closing,
}

impl GlobalAlertStatus {
    /// The status an application moves the alert to when it renders, and
    /// whether the alert is then shown (`Some(true)`) or hidden
    /// (`Some(false)`): an opening alert opens and is shown, a closing one
    /// closes and is hidden, and the others stay as they are.
    pub open spec fn spec_advance(self) -> (GlobalAlertStatus, Option<bool>) {
        match self {
            GlobalAlertStatus::Opening => (GlobalAlertStatus::Open, Some(true)),
            GlobalAlertStatus::Closing => (GlobalAlertStatus::Closed, Some(false)),
            _ => (self, None),
        }
    }

    /// Advances the status as [`GlobalAlertStatus::spec_advance`] says.
    pub fn advance(self) -> (r: (GlobalAlertStatus, Option<bool>))
        ensures
            r == self.spec_advance(),
    {
        match self {
            GlobalAlertStatus::Opening => (GlobalAlertStatus::Open, Some(true)),
            GlobalAlertStatus::Closing => (GlobalAlertStatus::Closed, Some(false)),
            _ => (self, None),
        }
    }
}

/// Opening an alert, rendering, closing it and rendering again brings it
/// back to closed; the rendered states are stable.
pub proof fn lemma_alert_cycle()
    ensures
        GlobalAlertStatus::Opening.spec_advance() == (GlobalAlertStatus::Open, Some(true)),
        GlobalAlertStatus::Closing.spec_advance() == (GlobalAlertStatus::Closed, Some(false)),
        GlobalAlertStatus::Open.spec_advance().0 == GlobalAlertStatus::Open,
        GlobalAlertStatus::Closed.spec_advance().0 == GlobalAlertStatus::Closed,
{
}

/// A global application alert; `C` is the type of its body.
#[derive(Debug, Clone, PartialEq)]
pub struct GlobalAlert<C> {
    /// The current alert status.
    pub status: GlobalAlertStatus,
    /// The alert title.
    pub title: String,
    /// The alert duration.
    pub duration: AlertDuration,
    /// The alert body.
    pub content: C,
}

/// Configuration for opening the global alert; `C` is the type of its body.
#[derive(Debug, Clone, PartialEq)]
pub struct UseAlert<C> {
    /// The alert title.
    title: String,
    /// The alert duration.
    duration: AlertDuration,
    /// The alert body.
    content: C,
}

impl<C> UseAlert<C> {
    /// The alert title.
    pub closed spec fn spec_title(&self) -> Seq<char> {
        self.title@
    }

    /// The alert duration.
    pub closed spec fn spec_duration(&self) -> AlertDuration {
        self.duration
    }

    /// The alert body.
    pub closed spec fn spec_content(&self) -> C {
        self.content
    }

    /// Creates a new configuration with an empty title, an infinite
    /// duration and the given (empty) body.
    pub fn new(empty_content: C) -> (r: Self)
        ensures
            r.spec_title() == Seq::<char>::empty(),
            r.spec_duration() == AlertDuration::Infinite,
            r.spec_content() == empty_content,
    {
        UseAlert { title: String::new(), duration: AlertDuration::Infinite, content: empty_content }
    }

    /// Sets the alert title.
    pub fn title(self, title: &str) -> (r: Self)
        ensures
            r.spec_title() == title@,
            r.spec_duration() == self.spec_duration(),
            r.spec_content() == self.spec_content(),
    {
        let mut s = self;
        s.title = title.to_owned();
        s
    }

    /// Sets the alert duration.
    pub fn duration(self, duration: AlertDuration) -> (r: Self)
        ensures
            r.spec_title() == self.spec_title(),
            r.spec_duration() == duration,
            r.spec_content() == self.spec_content(),
    {
        let mut s = self;
        s.duration = duration;
        s
    }

    /// Sets the number of seconds after which the alert will automatically
    /// close.
    pub fn close_after(self, seconds: u32) -> (r: Self)
        ensures
            r.spec_title() == self.spec_title(),
            r.spec_duration() == AlertDuration::Finite(seconds),
            r.spec_content() == self.spec_content(),
    {
        let mut s = self;
        s.duration = AlertDuration::Finite(seconds);
        s
    }

    /// Sets the alert body.
    pub fn html(self, content: C) -> (r: Self)
        ensures
            r.spec_title() == self.spec_title(),
            r.spec_duration() == self.spec_duration(),
            r.spec_content() == content,
    {
        let mut s = self;
        s.content = content;
        s
    }
}

impl<C> GlobalAlert<C> {
    /// A closed alert with an empty title, an infinite duration and the
    /// given (empty) body.
    pub fn closed(empty_content: C) -> (r: Self)
        ensures
            r.status == GlobalAlertStatus::Closed,
            r.title@ == Seq::<char>::empty(),
            r.duration == AlertDuration::Infinite,
            r.content == empty_content,
    {
        GlobalAlert {
            status: GlobalAlertStatus::Closed,
            title: String::new(),
            duration: AlertDuration::Infinite,
            content: empty_content,
        }
    }

    /// Opens the alert with the given configuration: it starts opening,
    /// with the configured title, duration and body.
    pub fn open(&mut self, config: UseAlert<C>)
        ensures
            final(self).status == GlobalAlertStatus::Opening,
            final(self).title@ == config.spec_title(),
            final(self).duration == config.spec_duration(),
            final(self).content == config.spec_content(),
    {
        self.status = GlobalAlertStatus::Opening;
        self.title = config.title;
        self.duration = config.duration;
        self.content = config.content;
    }

    /// Asks the alert to close.
    pub fn close(&mut self)
        ensures
            final(self).status == GlobalAlertStatus::Closing,
            final(self).title == old(self).title,
            final(self).duration == old(self).duration,
            final(self).content == old(self).content,
    {
        self.status = GlobalAlertStatus::Closing;
    }
}

} // verus!
