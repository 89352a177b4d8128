//! The date-selection prompt's state machine: calendar navigation with
//! clamping into the configured bounds, a nested delete-confirmation
//! sub-dialog driven by the marked-date index, validation on
//! submission, and rendering through the caller-owned backend.

use vstd::prelude::*;
use crate::action::DateSelectPromptAction;
use crate::date::{Date, spec_add_days, spec_shift_months, spec_display};
use crate::error::{ErrorMessage, InquireError, InquireResult};
use crate::marked::{DateInfo, MarkedDates};
use crate::validator::{DateFormatter, DateValidator, Validation};

verus! {

/// The day a calendar row begins with.
#[derive(Clone, Copy, Debug, PartialEq, Eq, Structural)]
pub enum Weekday {
    Monday,
    Tuesday,
    Wednesday,
    Thursday,
    Friday,
    Saturday,
    Sunday,
}

/// Outcome of handling one semantic action: nothing visible changed,
/// the prompt needs redrawing, or the answer is ready to submit.
#[derive(Clone, Copy, Debug, PartialEq, Eq, Structural)]
pub enum ActionResult {
    Clean,
    NeedsRedraw,
    Submit,
}

/// The date-specific part of a prompt's configuration.
#[derive(Clone, Copy, Debug, PartialEq, Eq, Structural)]
pub struct DateSelectConfig {
    pub week_start: Weekday,
    pub min_date: Option<Date>,
    pub max_date: Option<Date>,
}

/// The produced answer: the selected date, and whether the session
/// ended with a confirmed delete intent for it.
#[derive(Clone, Copy, Debug, PartialEq, Eq, Structural)]
pub struct DateOutput {
    pub date: Date,
    pub to_delete: bool,
}

/// The caller-owned render surface the state machine writes to. Each
/// method may fail with an error that aborts the session.
pub trait DateSelectBackend {
    /// Shows the current error banner.
    fn render_error_message(&mut self, error: &ErrorMessage) -> Result<(), InquireError>;

    /// Shows the prompt message.
    fn render_calendar_prompt(&mut self, prompt: &str) -> Result<(), InquireError>;

    /// Draws the calendar grid for one month.
    fn render_calendar(
        &mut self,
        month: u8,
        year: i32,
        week_start: Weekday,
        today: Date,
        selected: Date,
        min_date: Option<Date>,
        max_date: Option<Date>,
        marked_dates: Option<&MarkedDates>,
    ) -> Result<(), InquireError>;

    /// Shows the help line.
    fn render_help_message(&mut self, help: &str) -> Result<(), InquireError>;

    /// Shows the detail text of the annotation under the cursor.
    fn render_selection_details(&mut self, details: &str) -> Result<(), InquireError>;
}

/// Everything one redraw hands to the backend, in order: the banner
/// (when an error is stored), the prompt message, the calendar-grid
/// arguments, the help line, and the detail text of the annotation
/// under the cursor.
pub struct RenderPlan<'p> {
    pub banner: Option<&'p ErrorMessage>,
    pub message: &'p str,
    pub month: u8,
    pub year: i32,
    pub week_start: Weekday,
    pub today: Date,
    pub cursor: Date,
    pub min_date: Option<Date>,
    pub max_date: Option<Date>,
    pub marked: Option<&'p MarkedDates>,
    pub help: Option<&'p str>,
    pub details: Option<&'p String>,
}

/// Everything a caller supplies to open a date-selection session.
pub struct DateSelect<'a, V, F> {
    pub message: &'a str,
    pub starting_date: Date,
    pub min_date: Option<Date>,
    pub max_date: Option<Date>,
    pub week_start: Weekday,
    pub help_message: Option<&'a str>,
    pub formatter: F,
    pub validators: Vec<V>,
    pub marked_dates: Option<&'a MarkedDates>,
}

/// `d` forced into the configured bounds: a value below a configured
/// minimum becomes that minimum, one above a configured maximum that
/// maximum.
pub open spec fn spec_clamp(min_date: Option<Date>, max_date: Option<Date>, d: Date) -> Date {
    let lo = match min_date {
        Some(mn) => if mn.spec_le(d) {
            d
        } else {
            mn
        },
        None => d,
    };
    match max_date {
        Some(mx) => if lo.spec_le(mx) {
            lo
        } else {
            mx
        },
        None => lo,
    }
}

/// The annotation the marked-date index holds for `d`, if the index is
/// present and has one.
pub open spec fn spec_annotation(marked: Option<&MarkedDates>, d: Date) -> Option<DateInfo> {
    match marked {
        Some(m) => m.spec_get(d),
        None => None,
    }
}

/// Whether the marked-date index holds `d` with a deletable annotation:
/// the only circumstance in which a delete request is honored.
pub open spec fn spec_deletable(marked: Option<&MarkedDates>, d: Date) -> bool {
    match spec_annotation(marked, d) {
        Some(info) => info.deletable,
        None => false,
    }
}

/// The yes/no question shown while a deletion awaits confirmation,
/// with the date it concerns embedded.
pub open spec fn spec_confirm_message(d: Date) -> Seq<char> {
    ("Are you sure you want to delete logs for date: ")@ + spec_display(d) + ("? [y/n]")@
}

/// The candidate date a navigation action aims at from `d`: `None` for
/// an action that is not navigation, otherwise the target of the
/// calendar arithmetic, itself `None` when that arithmetic has no
/// valid result.
pub open spec fn spec_nav_target(d: Date, action: DateSelectPromptAction) -> Option<Option<Date>> {
    match action {
        DateSelectPromptAction::GoToPrevDay => Some(spec_add_days(d, -1)),
        DateSelectPromptAction::GoToNextDay => Some(spec_add_days(d, 1)),
        DateSelectPromptAction::GoToPrevWeek => Some(spec_add_days(d, -7)),
        DateSelectPromptAction::GoToNextWeek => Some(spec_add_days(d, 7)),
        DateSelectPromptAction::GoToPrevMonth => Some(spec_shift_months(d, -1)),
        DateSelectPromptAction::GoToNextMonth => Some(spec_shift_months(d, 1)),
        DateSelectPromptAction::GoToPrevYear => Some(spec_shift_months(d, -12)),
        DateSelectPromptAction::GoToNextYear => Some(spec_shift_months(d, 12)),
        _ => None,
    }
}

/// The running state of one date-selection session.
pub struct DateSelectPrompt<'a, V, F> {
    pub message: &'a str,
    pub config: DateSelectConfig,
    pub current_date: Date,
    pub help_message: Option<&'a str>,
    pub formatter: F,
    pub validators: Vec<V>,
    pub marked_dates: Option<&'a MarkedDates>,
    pub error: Option<ErrorMessage>,
    pub deletion_requested: bool,
    pub to_delete: bool,
}

impl<'a, V, F> DateSelectPrompt<'a, V, F> {
    /// The session's standing invariant: the cursor is a well-formed
    /// date and respects every configured bound, and the bounds are
    /// well formed and consistent with each other.
    pub open spec fn inv(self) -> bool {
        &&& self.current_date.wf()
        &&& (self.config.min_date matches Some(mn) ==> mn.wf() && mn.spec_le(self.current_date))
        &&& (self.config.max_date matches Some(mx) ==> mx.wf() && self.current_date.spec_le(mx))
    }

    /// The answer a successful submission carries: the cursor date and
    /// the delete intent.
    pub open spec fn spec_answer(self) -> DateOutput {
        DateOutput { date: self.current_date, to_delete: self.to_delete }
    }

    /// How one navigation step relates the state after (`post`, with
    /// result `r`) to the state before (`pre`): an absent or unchanged
    /// target leaves everything as it was and reports no visible
    /// change; any other target moves the cursor to the target clamped
    /// into the bounds and asks for a redraw.
    pub open spec fn spec_update_outcome(
        pre: Self,
        target: Option<Date>,
        post: Self,
        r: ActionResult,
    ) -> bool {
        match target {
            None => post == pre && r == ActionResult::Clean,
            Some(nd) => if nd == pre.current_date {
                post == pre && r == ActionResult::Clean
            } else {
                &&& r == ActionResult::NeedsRedraw
                &&& post == (Self {
                    current_date: spec_clamp(pre.config.min_date, pre.config.max_date, nd),
                    ..pre
                })
            },
        }
    }

    /// How a delete request relates the state after to the state
    /// before: on a deletable marked date it enters
    /// confirmation-pending and banners the confirmation question;
    /// anywhere else it is a no-op with no visible change.
    pub open spec fn spec_delete_request_outcome(pre: Self, post: Self, r: ActionResult) -> bool {
        if spec_deletable(pre.marked_dates, pre.current_date) {
            &&& r == ActionResult::NeedsRedraw
            &&& post == (Self { deletion_requested: true, error: post.error, ..pre })
            &&& (post.error matches Some(m) && m matches ErrorMessage::Custom(text) && text@
                == spec_confirm_message(pre.current_date))
        } else {
            post == pre && r == ActionResult::Clean
        }
    }
}

/// Whether the caller's bounds admit the starting date: a session may
/// only be created when `min_date <= starting_date <= max_date` holds
/// for whichever bounds are configured.
pub open spec fn spec_config_ok<'a, V, F>(so: DateSelect<'a, V, F>) -> bool {
    &&& (so.min_date matches Some(mn) ==> mn.spec_le(so.starting_date))
    &&& (so.max_date matches Some(mx) ==> so.starting_date.spec_le(mx))
}

impl<'a, V: DateValidator, F: DateFormatter> DateSelectPrompt<'a, V, F> {
    /// Opens a session from the caller's options. A starting date
    /// outside the declared bounds is a configuration error: the
    /// session fails fast here, and is never silently clamped.
    pub fn new(so: DateSelect<'a, V, F>) -> (r: InquireResult<Self>)
        requires
            so.starting_date.wf(),
            so.min_date matches Some(mn) ==> mn.wf(),
            so.max_date matches Some(mx) ==> mx.wf(),
        ensures
            r is Ok <==> spec_config_ok(so),
            r matches Ok(p) ==> {
                &&& p.inv()
                &&& p.message == so.message
                &&& p.current_date == so.starting_date
                &&& p.config == (DateSelectConfig {
                    week_start: so.week_start,
                    min_date: so.min_date,
                    max_date: so.max_date,
                })
                &&& p.help_message == so.help_message
                &&& p.formatter == so.formatter
                &&& p.validators == so.validators
                &&& p.marked_dates == so.marked_dates
                &&& p.error is None
                &&& !p.deletion_requested
                &&& !p.to_delete
            },
            r matches Err(e) ==> {
                &&& e matches InquireError::InvalidConfiguration(m)
                &&& (so.min_date matches Some(mn) && !mn.spec_le(so.starting_date) ==> m@ == (
                "Min date can not be greater than starting date")@)
                &&& ((so.min_date matches Some(mn) ==> mn.spec_le(so.starting_date)) ==> m@ == (
                "Max date can not be smaller than starting date")@)
            },
    {
        if let Some(mn) = so.min_date {
            if !mn.le(&so.starting_date) {
                return Err(
                    InquireError::InvalidConfiguration(
                        "Min date can not be greater than starting date".to_owned(),
                    ),
                );
            }
        }
        if let Some(mx) = so.max_date {
            if !so.starting_date.le(&mx) {
                return Err(
                    InquireError::InvalidConfiguration(
                        "Max date can not be smaller than starting date".to_owned(),
                    ),
                );
            }
        }
        Ok(
            DateSelectPrompt {
                message: so.message,
                config: DateSelectConfig {
                    week_start: so.week_start,
                    min_date: so.min_date,
                    max_date: so.max_date,
                },
                current_date: so.starting_date,
                help_message: so.help_message,
                formatter: so.formatter,
                validators: so.validators,
                marked_dates: so.marked_dates,
                error: None,
                deletion_requested: false,
                to_delete: false,
            },
        )
    }

    /// Moves the cursor to `new_date` clamped into the bounds, exactly
    /// as [`Self::spec_update_outcome`] relates the states.
    fn update_date(&mut self, new_date: Date) -> (r: ActionResult)
        requires
            old(self).inv(),
            new_date.wf(),
        ensures
            final(self).inv(),
            Self::spec_update_outcome(*old(self), Some(new_date), *final(self), r),
    {
        if self.current_date == new_date {
            return ActionResult::Clean;
        }
        self.current_date = new_date;
        if let Some(mn) = self.config.min_date {
            if !mn.le(&self.current_date) {
                self.current_date = mn;
            }
        }
        if let Some(mx) = self.config.max_date {
            if !self.current_date.le(&mx) {
                self.current_date = mx;
            }
        }
        ActionResult::NeedsRedraw
    }

    /// Moves the cursor `days` days, clamped into the bounds; a step
    /// whose arithmetic leaves the supported years is a no-op.
    fn shift_date(&mut self, days: i32) -> (r: ActionResult)
        requires
            old(self).inv(),
        ensures
            final(self).inv(),
            Self::spec_update_outcome(
                *old(self),
                spec_add_days(old(self).current_date, days as int),
                *final(self),
                r,
            ),
    {
        let cur = self.current_date;
        match cur.add_days(days) {
            Some(nd) => self.update_date(nd),
            None => ActionResult::Clean,
        }
    }

    /// Moves the cursor `qty` months, normalizing month overflow and
    /// underflow across year boundaries and clamping into the bounds;
    /// a step onto a day the target month does not have is a no-op.
    fn shift_months(&mut self, qty: i32) -> (r: ActionResult)
        requires
            old(self).inv(),
        ensures
            final(self).inv(),
            Self::spec_update_outcome(
                *old(self),
                spec_shift_months(old(self).current_date, qty as int),
                *final(self),
                r,
            ),
    {
        let cur = self.current_date;
        match cur.shift_months(qty) {
            Some(nd) => self.update_date(nd),
            None => ActionResult::Clean,
        }
    }

    /// Asks to delete the annotation under the cursor: honored only on
    /// a marked, deletable date, where it enters confirmation-pending
    /// and banners the yes/no question; otherwise a no-op with no
    /// visible change.
    fn request_deletion(&mut self) -> (r: ActionResult)
        requires
            old(self).inv(),
        ensures
            final(self).inv(),
            Self::spec_delete_request_outcome(*old(self), *final(self), r),
    {
        let cur = self.current_date;
        let deletable = match self.marked_dates {
            Some(m) => match m.get(&cur) {
                Some(info) => info.deletable,
                None => false,
            },
            None => false,
        };
        if deletable {
            self.deletion_requested = true;
            let mut text = String::new();
            text.append("Are you sure you want to delete logs for date: ");
            let shown = cur.display();
            text.append(shown.as_str());
            text.append("? [y/n]");
            self.error = Some(ErrorMessage::Custom(text));
            ActionResult::NeedsRedraw
        } else {
            ActionResult::Clean
        }
    }

    /// Whether `out` is a possible outcome of validator `v` judging
    /// the candidate `d`: everything the library can know of a
    /// caller-implemented validator.
    pub open spec fn spec_judges(v: V, d: Date, out: Result<Validation, String>) -> bool {
        call_ensures(V::validate, (&v, d), out)
    }

    /// Runs the validator chain over the current cursor date, in the
    /// caller's order: the first rejection short-circuits the chain
    /// and later validators are not run; a validator's own error
    /// aborts with a non-recoverable failure. An empty chain accepts.
    pub fn validate_current_answer(&self) -> (r: InquireResult<Validation>)
        ensures
            self.validators@.len() == 0 ==> r == Ok::<Validation, InquireError>(Validation::Valid),
            r == Ok::<Validation, InquireError>(Validation::Valid) ==> forall|i: int|
                0 <= i < self.validators@.len() ==> #[trigger] Self::spec_judges(
                    self.validators@[i],
                    self.current_date,
                    Ok(Validation::Valid),
                ),
            r matches Ok(Validation::Invalid(msg)) ==> exists|i: int|
                {
                    &&& 0 <= i < self.validators@.len()
                    &&& #[trigger] Self::spec_judges(
                        self.validators@[i],
                        self.current_date,
                        Ok(Validation::Invalid(msg)),
                    )
                    &&& forall|j: int|
                        0 <= j < i ==> #[trigger] Self::spec_judges(
                            self.validators@[j],
                            self.current_date,
                            Ok(Validation::Valid),
                        )
                },
            r matches Err(e) ==> e is Custom,
            r matches Err(InquireError::Custom(t)) ==> exists|i: int|
                #![trigger self.validators@[i]]
                {
                    &&& 0 <= i < self.validators@.len()
                    &&& Self::spec_judges(self.validators@[i], self.current_date, Err(t))
                    &&& forall|j: int|
                        0 <= j < i ==> #[trigger] Self::spec_judges(
                            self.validators@[j],
                            self.current_date,
                            Ok(Validation::Valid),
                        )
                },
    {
        let n = self.validators.len();
        let mut i: usize = 0;
        while i < n
            invariant
                n == self.validators@.len(),
                0 <= i <= n,
                forall|j: int|
                    0 <= j < i ==> #[trigger] Self::spec_judges(
                        self.validators@[j],
                        self.current_date,
                        Ok(Validation::Valid),
                    ),
            decreases n - i,
        {
            match self.validators[i].validate(self.cur_answer()) {
                Ok(Validation::Valid) => {},
                Ok(Validation::Invalid(msg)) => {
                    proof {
                        assert(Self::spec_judges(
                            self.validators@[i as int],
                            self.current_date,
                            Ok(Validation::Invalid(msg)),
                        ));
                    }
                    return Ok(Validation::Invalid(msg));
                },
                Err(err) => {
                    proof {
                        assert(Self::spec_judges(
                            self.validators@[i as int],
                            self.current_date,
                            Err(err),
                        ));
                    }
                    return Err(InquireError::Custom(err));
                },
            }
            i = i + 1;
        }
        Ok(Validation::Valid)
    }

    /// The candidate answer: the date under the cursor.
    pub fn cur_answer(&self) -> (r: Date)
        ensures
            r == self.current_date,
    {
        self.current_date
    }

    /// The prompt message shown above the calendar.
    pub fn message(&self) -> (r: &'a str)
        ensures
            r == self.message,
    {
        self.message
    }

    /// Whether `out` is a possible display string of the caller's
    /// formatter `f` for the answered date `d`.
    pub open spec fn spec_formats(f: F, d: Date, out: String) -> bool {
        call_ensures(F::format, (&f, d), out)
    }

    /// The display string for a produced answer: the caller's
    /// formatter, invoked once on the answer's date, its result passed
    /// through unchanged.
    pub fn format_answer(&self, answer: &DateOutput) -> (r: String)
        ensures
            Self::spec_formats(self.formatter, answer.date, r),
    {
        self.formatter.format(answer.date)
    }

    /// The date-specific configuration of this session.
    pub fn config(&self) -> (r: &DateSelectConfig)
        ensures
            *r == self.config,
    {
        &self.config
    }

    /// Submits the current cursor date through the validation
    /// pipeline. Acceptance — every validator accepted — produces the
    /// answer and leaves the state untouched; rejection stores the
    /// first rejecting validator's message as the current error banner
    /// and the session goes on; a validator's own error aborts with
    /// that error preserved.
    pub fn submit(&mut self) -> (r: InquireResult<Option<DateOutput>>)
        requires
            old(self).inv(),
        ensures
            final(self).inv(),
            old(self).validators@.len() == 0 ==> r == Ok::<_, InquireError>(
                Some(old(self).spec_answer()),
            ),
            r matches Ok(Some(out)) ==> out == old(self).spec_answer()
                && *final(self) == *old(self) && (forall|i: int|
                0 <= i < old(self).validators@.len() ==> #[trigger] Self::spec_judges(
                    old(self).validators@[i],
                    old(self).current_date,
                    Ok(Validation::Valid),
                )),
            r matches Ok(None) ==> *final(self) == (Self {
                error: final(self).error,
                ..*old(self)
            }) && (final(self).error matches Some(banner) && exists|i: int|
                #![trigger old(self).validators@[i]]
                {
                    &&& 0 <= i < old(self).validators@.len()
                    &&& Self::spec_judges(
                        old(self).validators@[i],
                        old(self).current_date,
                        Ok(Validation::Invalid(banner)),
                    )
                    &&& forall|j: int|
                        0 <= j < i ==> #[trigger] Self::spec_judges(
                            old(self).validators@[j],
                            old(self).current_date,
                            Ok(Validation::Valid),
                        )
                }),
            r matches Err(e) ==> e is Custom && *final(self) == *old(self),
            r matches Err(InquireError::Custom(t)) ==> exists|i: int|
                #![trigger old(self).validators@[i]]
                {
                    &&& 0 <= i < old(self).validators@.len()
                    &&& Self::spec_judges(old(self).validators@[i], old(self).current_date, Err(t))
                    &&& forall|j: int|
                        0 <= j < i ==> #[trigger] Self::spec_judges(
                            old(self).validators@[j],
                            old(self).current_date,
                            Ok(Validation::Valid),
                        )
                },
    {
        let answer = match self.validate_current_answer() {
            Ok(Validation::Valid) => Some(
                DateOutput { date: self.cur_answer(), to_delete: self.to_delete },
            ),
            Ok(Validation::Invalid(msg)) => {
                self.error = Some(msg);
                None
            },
            Err(err) => {
                return Err(err);
            },
        };
        Ok(answer)
    }

    /// Handles one semantic action. While a delete confirmation is
    /// pending only Confirm and Cancel are honored: Confirm records
    /// the delete intent and signals readiness to submit, Cancel
    /// drops the request with no delete intent, and both clear the
    /// banner; every other action is ignored. In normal navigation
    /// the action moves the cursor, asks for the deletion sub-dialog,
    /// or does nothing visible.
    pub fn handle(&mut self, action: DateSelectPromptAction) -> (r: InquireResult<ActionResult>)
        requires
            old(self).inv(),
        ensures
            final(self).inv(),
            r is Ok,
            old(self).deletion_requested ==> {
                &&& action == DateSelectPromptAction::ConfirmDelete ==> r == Ok::<_, InquireError>(
                    ActionResult::Submit,
                ) && *final(self) == (Self {
                    deletion_requested: false,
                    to_delete: true,
                    error: None,
                    ..*old(self)
                })
                &&& action == DateSelectPromptAction::CancelDelete ==> r == Ok::<_, InquireError>(
                    ActionResult::NeedsRedraw,
                ) && *final(self) == (Self {
                    deletion_requested: false,
                    to_delete: false,
                    error: None,
                    ..*old(self)
                })
                &&& action != DateSelectPromptAction::ConfirmDelete && action
                    != DateSelectPromptAction::CancelDelete ==> r == Ok::<_, InquireError>(
                    ActionResult::Clean,
                ) && *final(self) == *old(self)
            },
            !old(self).deletion_requested ==> {
                &&& (spec_nav_target(old(self).current_date, action) matches Some(target) ==> (
                r matches Ok(ar) && Self::spec_update_outcome(
                    *old(self),
                    target,
                    *final(self),
                    ar,
                )))
                &&& action == DateSelectPromptAction::Delete ==> (r matches Ok(ar)
                    && Self::spec_delete_request_outcome(*old(self), *final(self), ar))
                &&& (action == DateSelectPromptAction::ConfirmDelete || action
                    == DateSelectPromptAction::CancelDelete) ==> r == Ok::<_, InquireError>(
                    ActionResult::Clean,
                ) && *final(self) == *old(self)
            },
    {
        if self.deletion_requested {
            if action == DateSelectPromptAction::ConfirmDelete {
                self.error = None;
                self.deletion_requested = false;
                self.to_delete = true;
                return Ok(ActionResult::Submit);
            }
            if action == DateSelectPromptAction::CancelDelete {
                self.error = None;
                self.deletion_requested = false;
                self.to_delete = false;
                return Ok(ActionResult::NeedsRedraw);
            }
            return Ok(ActionResult::Clean);
        }
        let result = match action {
            DateSelectPromptAction::GoToPrevWeek => self.shift_date(-7),
            DateSelectPromptAction::GoToNextWeek => self.shift_date(7),
            DateSelectPromptAction::GoToPrevDay => self.shift_date(-1),
            DateSelectPromptAction::GoToNextDay => self.shift_date(1),
            DateSelectPromptAction::GoToPrevYear => self.shift_months(-12),
            DateSelectPromptAction::GoToNextYear => self.shift_months(12),
            DateSelectPromptAction::GoToPrevMonth => self.shift_months(-1),
            DateSelectPromptAction::GoToNextMonth => self.shift_months(1),
            DateSelectPromptAction::Delete => self.request_deletion(),
            DateSelectPromptAction::ConfirmDelete => ActionResult::Clean,
            DateSelectPromptAction::CancelDelete => ActionResult::Clean,
        };
        Ok(result)
    }

    /// What one redraw hands to the backend, fixed field by field from
    /// the session state: the banner is the stored error, the grid is
    /// the cursor's month and year with the configured week start,
    /// bounds and index, and the details are the cursor's annotation.
    pub fn render_plan<'p>(&'p self, today: Date) -> (r: RenderPlan<'p>)
        ensures
            self.error matches Some(e) ==> (r.banner matches Some(b) && *b == e),
            self.error is None ==> r.banner is None,
            r.message == self.message,
            r.month == self.current_date.month,
            r.year == self.current_date.year,
            r.week_start == self.config.week_start,
            r.today == today,
            r.cursor == self.current_date,
            r.min_date == self.config.min_date,
            r.max_date == self.config.max_date,
            r.marked == self.marked_dates,
            r.help == self.help_message,
            spec_annotation(self.marked_dates, self.current_date) matches Some(info) ==> (r.details
                matches Some(t) && *t == info.details),
            spec_annotation(self.marked_dates, self.current_date) is None ==> r.details is None,
    {
        let banner = match &self.error {
            Some(e) => Some(e),
            None => None,
        };
        let details = match self.marked_dates {
            Some(m) => match m.get(&self.current_date) {
                Some(info) => Some(&info.details),
                None => None,
            },
            None => None,
        };
        RenderPlan {
            banner,
            message: self.message,
            month: self.current_date.month,
            year: self.current_date.year,
            week_start: self.config.week_start,
            today,
            cursor: self.current_date,
            min_date: self.config.min_date,
            max_date: self.config.max_date,
            marked: self.marked_dates,
            help: self.help_message,
            details,
        }
    }

    /// Draws the whole prompt through the backend: the error banner if
    /// one is pending, the message, the calendar grid around the
    /// cursor, the help line, and the detail text of the annotation
    /// under the cursor — each taken from the verified
    /// [`Self::render_plan`], whose contract fixes what is handed. A
    /// backend failure aborts immediately.
    pub fn render<B: DateSelectBackend>(&self, backend: &mut B) -> (r: InquireResult<()>)
        requires
            self.inv(),
    {
        let today = crate::today::get_current_date();
        let plan = self.render_plan(today);
        if let Some(err) = plan.banner {
            backend.render_error_message(err)?;
        }
        backend.render_calendar_prompt(plan.message)?;
        backend.render_calendar(
            plan.month,
            plan.year,
            plan.week_start,
            plan.today,
            plan.cursor,
            plan.min_date,
            plan.max_date,
            plan.marked,
        )?;
        if let Some(help) = plan.help {
            backend.render_help_message(help)?;
        }
        if let Some(details) = plan.details {
            backend.render_selection_details(details.as_str())?;
        }
        Ok(())
    }
}

/// For all navigation sequences the cursor date satisfies the
/// configured bounds: the session invariant, which `new` establishes
/// and every action-handling method preserves in its `ensures`, pins
/// the cursor between whichever bounds are set.
pub proof fn lemma_cursor_in_bounds<'a, V: DateValidator, F: DateFormatter>(
    s: DateSelectPrompt<'a, V, F>,
)
    requires
        s.inv(),
    ensures
        s.config.min_date matches Some(mn) ==> mn.spec_le(s.current_date),
        s.config.max_date matches Some(mx) ==> s.current_date.spec_le(mx),
{
}

/// Requesting deletion on a date absent from the marked-date index, or
/// present but not deletable, produces no state change and starts no
/// confirmation prompt.
pub proof fn lemma_delete_request_no_op<'a, V: DateValidator, F: DateFormatter>(
    pre: DateSelectPrompt<'a, V, F>,
    post: DateSelectPrompt<'a, V, F>,
    r: ActionResult,
)
    requires
        !spec_deletable(pre.marked_dates, pre.current_date),
        DateSelectPrompt::spec_delete_request_outcome(pre, post, r),
    ensures
        post == pre,
        r == ActionResult::Clean,
{
}

/// Submitting twice in a row without an intervening action produces
/// the same answer both times when validation passes both times: a
/// successful submission leaves the state untouched, and the answer is
/// a function of the state alone.
pub proof fn lemma_submit_idempotent<'a, V: DateValidator, F: DateFormatter>(
    pre: DateSelectPrompt<'a, V, F>,
    mid: DateSelectPrompt<'a, V, F>,
    a1: DateOutput,
    a2: DateOutput,
)
    requires
        a1 == pre.spec_answer(),
        mid == pre,
        a2 == mid.spec_answer(),
    ensures
        a1 == a2,
{
}

/// Confirming a pending deletion and then submitting successfully
/// yields an answer that carries the delete intent for exactly the
/// date whose deletion was confirmed.
pub proof fn lemma_confirm_then_submit<'a, V: DateValidator, F: DateFormatter>(
    pre: DateSelectPrompt<'a, V, F>,
    mid: DateSelectPrompt<'a, V, F>,
    a: DateOutput,
)
    requires
        pre.deletion_requested,
        mid == (DateSelectPrompt { deletion_requested: false, to_delete: true, error: None, ..pre }),
        a == mid.spec_answer(),
    ensures
        a.to_delete,
        a.date == pre.current_date,
{
}

} // verus!
