use survey_rs::action::{map_key, Action, DateSelectPromptAction as A, Key};
use survey_rs::config::{
    default_filter, default_transformer, DefaultFilter, DefaultTransformer, Filter, PromptConfig,
    Transformer, DEFAULT_KEEP_FILTER, DEFAULT_PAGE_SIZE, DEFAULT_VIM_MODE,
};
use survey_rs::date::Date;
use survey_rs::dateselect::{DateOutput, DateSelect, DateSelectPrompt, Weekday};
use survey_rs::error::{ErrorMessage, InquireError};
use survey_rs::marked::{DateInfo, MarkedDates};
use survey_rs::dateselect::ActionResult;
use survey_rs::driver::{
    driver_after_handle, driver_after_submit, driver_step, DriverDecision,
};
use survey_rs::today::{date_from_clock, get_current_date};
use survey_rs::validator::{DateFormatter, DateValidator, Validation};

fn d(year: i32, month: u8, day: u8) -> Date {
    Date { year, month, day }
}

/// Day of week with Sunday as 0, by counting days from Sunday
/// 1899-12-31.
fn weekday_index(date: Date) -> i64 {
    let mut days: i64 = 0;
    let mut y = 1900;
    while y < date.year {
        days += if (y % 4 == 0 && y % 100 != 0) || y % 400 == 0 { 366 } else { 365 };
        y += 1;
    }
    let lengths = [
        31,
        if (date.year % 4 == 0 && date.year % 100 != 0) || date.year % 400 == 0 { 29 } else { 28 },
        31,
        30,
        31,
        30,
        31,
        31,
        30,
        31,
        30,
        31,
    ];
    let mut m = 1;
    while m < date.month {
        days += lengths[(m - 1) as usize];
        m += 1;
    }
    days += (date.day - 1) as i64;
    // 1900-01-01 was a Monday
    (days + 1) % 7
}

enum ChainValidator {
    AlwaysValid,
    RejectSundays,
    FailsOutright,
}

impl DateValidator for ChainValidator {
    fn validate(&self, candidate: Date) -> Result<Validation, String> {
        match self {
            ChainValidator::AlwaysValid => Ok(Validation::Valid),
            ChainValidator::RejectSundays => {
                if weekday_index(candidate) == 0 {
                    Ok(Validation::Invalid(ErrorMessage::Custom(
                        "Sundays are not allowed".to_owned(),
                    )))
                } else {
                    Ok(Validation::Valid)
                }
            }
            ChainValidator::FailsOutright => Err("validator broke down".to_owned()),
        }
    }
}

struct PlainDateFormatter;

impl DateFormatter for PlainDateFormatter {
    fn format(&self, date: Date) -> String {
        date.display()
    }
}

fn options_with<'a>(
    start: Date,
    validators: Vec<ChainValidator>,
) -> DateSelect<'a, ChainValidator, PlainDateFormatter> {
    DateSelect {
        message: "When?",
        starting_date: start,
        min_date: None,
        max_date: None,
        week_start: Weekday::Monday,
        help_message: None,
        formatter: PlainDateFormatter,
        validators,
        marked_dates: None,
    }
}

#[test]
fn the_first_rejection_in_the_chain_wins() {
    // 2023-06-18 was a Sunday
    assert_eq!(weekday_index(d(2023, 6, 18)), 0);
    let so = options_with(
        d(2023, 6, 18),
        vec![ChainValidator::AlwaysValid, ChainValidator::RejectSundays],
    );
    let mut prompt = DateSelectPrompt::new(so).unwrap();
    let outcome = prompt.validate_current_answer().unwrap();
    assert_eq!(
        outcome,
        Validation::Invalid(ErrorMessage::Custom("Sundays are not allowed".to_owned()))
    );
    // submission stores the message as the current error and continues
    assert_eq!(prompt.submit().unwrap(), None);
    assert_eq!(
        prompt.error,
        Some(ErrorMessage::Custom("Sundays are not allowed".to_owned()))
    );
}

#[test]
fn a_rejection_short_circuits_later_validators() {
    // were the failing validator run, submit would abort; rejection wins
    let so = options_with(
        d(2023, 6, 18),
        vec![ChainValidator::RejectSundays, ChainValidator::FailsOutright],
    );
    let mut prompt = DateSelectPrompt::new(so).unwrap();
    assert_eq!(prompt.submit().unwrap(), None);
}

#[test]
fn an_accepted_candidate_passes_the_whole_chain() {
    // 2023-06-19 was a Monday
    let so = options_with(
        d(2023, 6, 19),
        vec![ChainValidator::AlwaysValid, ChainValidator::RejectSundays],
    );
    let mut prompt = DateSelectPrompt::new(so).unwrap();
    assert_eq!(
        prompt.submit().unwrap(),
        Some(DateOutput { date: d(2023, 6, 19), to_delete: false })
    );
}

#[test]
fn a_validator_error_aborts_the_session() {
    let so = options_with(d(2023, 6, 19), vec![ChainValidator::FailsOutright]);
    let mut prompt = DateSelectPrompt::new(so).unwrap();
    assert_eq!(
        prompt.submit(),
        Err(InquireError::Custom("validator broke down".to_owned()))
    );
}

#[test]
fn the_keymap_moves_by_day_week_month_and_year() {
    assert_eq!(map_key(Key::ArrowLeft, false), Some(Action::Inner(A::GoToPrevDay)));
    assert_eq!(map_key(Key::ArrowRight, false), Some(Action::Inner(A::GoToNextDay)));
    assert_eq!(map_key(Key::ArrowUp, false), Some(Action::Inner(A::GoToPrevWeek)));
    assert_eq!(map_key(Key::ArrowDown, false), Some(Action::Inner(A::GoToNextWeek)));
    assert_eq!(map_key(Key::PageUp, false), Some(Action::Inner(A::GoToPrevMonth)));
    assert_eq!(map_key(Key::PageDown, false), Some(Action::Inner(A::GoToNextMonth)));
    assert_eq!(map_key(Key::Char('['), false), Some(Action::Inner(A::GoToPrevYear)));
    assert_eq!(map_key(Key::Char(']'), false), Some(Action::Inner(A::GoToNextYear)));
    assert_eq!(map_key(Key::Enter, false), Some(Action::Submit));
    assert_eq!(map_key(Key::Esc, false), Some(Action::Abort));
    assert_eq!(map_key(Key::Char('d'), false), Some(Action::Inner(A::Delete)));
    assert_eq!(map_key(Key::Char('y'), false), Some(Action::Inner(A::ConfirmDelete)));
    assert_eq!(map_key(Key::Char('n'), false), Some(Action::Inner(A::CancelDelete)));
}

#[test]
fn unmapped_events_are_ignored() {
    assert_eq!(map_key(Key::Char('x'), false), None);
    assert_eq!(map_key(Key::Char('h'), false), None);
    assert_eq!(map_key(Key::Char('j'), false), None);
}

#[test]
fn vim_mode_adds_hjkl() {
    assert_eq!(map_key(Key::Char('h'), true), Some(Action::Inner(A::GoToPrevDay)));
    assert_eq!(map_key(Key::Char('l'), true), Some(Action::Inner(A::GoToNextDay)));
    assert_eq!(map_key(Key::Char('k'), true), Some(Action::Inner(A::GoToPrevWeek)));
    assert_eq!(map_key(Key::Char('j'), true), Some(Action::Inner(A::GoToNextWeek)));
}

#[test]
fn default_filter_matches_case_insensitively() {
    assert!(default_filter("ABC", "xxAbCyy", 0));
    assert!(default_filter("", "anything", 3));
    assert!(!default_filter("z", "abc", 0));
    assert!(default_filter("grape", "Grapes", 1));
}

#[test]
fn default_transformer_keeps_the_answer() {
    assert_eq!(default_transformer("2023-06-15"), "2023-06-15");
}

#[test]
fn the_config_defaults_are_documented_values() {
    assert_eq!(DEFAULT_PAGE_SIZE, 7);
    assert!(!DEFAULT_VIM_MODE);
    assert!(DEFAULT_KEEP_FILTER);
    let config: PromptConfig<DefaultFilter, DefaultTransformer> = PromptConfig::default();
    assert_eq!(config.page_size, None);
    assert_eq!(config.keep_filter, None);
    assert_eq!(config.vim_mode, None);
    assert!(config.filter.is_none());
    assert!(config.transformer.is_none());
    assert!(DefaultFilter.filter("b", "aBc", 0));
    assert_eq!(DefaultTransformer.transform("x"), "x");
}

#[test]
fn the_marked_index_reports_the_latest_annotation() {
    let mut marked = MarkedDates::new();
    assert_eq!(marked.get(&d(2023, 6, 15)), None);
    marked.insert(d(2023, 6, 15), DateInfo { deletable: false, details: "old".to_owned() });
    marked.insert(d(2023, 6, 15), DateInfo { deletable: true, details: "new".to_owned() });
    marked.insert(d(2023, 6, 16), DateInfo { deletable: false, details: "other".to_owned() });
    assert_eq!(
        marked.get(&d(2023, 6, 15)),
        Some(&DateInfo { deletable: true, details: "new".to_owned() })
    );
    assert!(marked.contains(&d(2023, 6, 16)));
    assert!(!marked.contains(&d(2023, 6, 17)));
}

#[test]
fn the_driver_waits_ignores_submits_and_aborts() {
    assert_eq!(driver_step(None), DriverDecision::Wait);
    assert_eq!(driver_step(Some(Action::Abort)), DriverDecision::Abort);
    assert_eq!(driver_step(Some(Action::Submit)), DriverDecision::RunSubmit);
    assert_eq!(
        driver_step(Some(Action::Inner(A::GoToNextDay))),
        DriverDecision::Dispatch(A::GoToNextDay)
    );
}

#[test]
fn the_driver_branches_on_the_action_result() {
    assert_eq!(driver_after_handle(ActionResult::Clean), DriverDecision::Wait);
    assert_eq!(driver_after_handle(ActionResult::NeedsRedraw), DriverDecision::Redraw);
    assert_eq!(driver_after_handle(ActionResult::Submit), DriverDecision::RunSubmit);
}

#[test]
fn the_driver_finishes_on_an_answer_and_resumes_on_rejection() {
    let answer = Some(DateOutput { date: d(2023, 6, 15), to_delete: false });
    assert_eq!(driver_after_submit(&answer), DriverDecision::Finish);
    assert_eq!(driver_after_submit(&None), DriverDecision::Redraw);
}

#[test]
fn clock_readings_are_clamped_onto_the_calendar() {
    assert_eq!(date_from_clock(2023, 6, 15), d(2023, 6, 15));
    assert_eq!(date_from_clock(2023, 2, 31), d(2023, 2, 28));
    assert_eq!(date_from_clock(2024, 2, 29), d(2024, 2, 29));
    assert_eq!(date_from_clock(10500, 5, 10), d(9999, 5, 10));
    assert_eq!(date_from_clock(0, 1, 5), d(1, 1, 5));
}

#[test]
fn today_is_a_well_formed_date() {
    let today = get_current_date();
    // the library's own validity check accepts what the clock gave
    assert_eq!(Date::try_new(today.year, today.month, today.day), Some(today));
    assert!(today.year >= 2024);
}
