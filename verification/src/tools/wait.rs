//! Waiting for a UI condition: which observation a condition needs, when it is
//! met, and what the wait answers once it ends.
//!
//! The caller polls: it observes what [`wait_check`] asks for, asks
//! [`check_condition`] whether the condition holds, and [`wait_step`] whether to
//! finish (with the answer's JSON text) or sleep until the next poll.

use vstd::prelude::*;

use crate::json::{json_string_literal, push_string_literal};
use crate::text::{contains_seq, contains_str, decimal, opt_view, push_decimal, str_equals};

verus! {

/// What a condition looks at.
#[derive(Debug)]
pub enum WaitCheck {
    /// `delay`: a one-shot sleep, not a polled condition.
    Delay,
    /// The active window's URL contains the text.
    UrlContains(String),
    /// The active window's title contains the text.
    TitleContains(String),
    /// An element matching the query exists.
    ElementExists(String),
    /// No element matches the query.
    ElementGone(String),
    /// The active window's URL differs from the one at the start.
    UrlChanged,
    /// The active window's title differs from the one at the start.
    TitleChanged,
    /// An unknown condition, or an element query that is empty: never met, and
    /// nothing is observed.
    Never,
}

/// The mathematical content of a [`WaitCheck`].
pub enum WaitCheckView {
    Delay,
    UrlContains(Seq<char>),
    TitleContains(Seq<char>),
    ElementExists(Seq<char>),
    ElementGone(Seq<char>),
    UrlChanged,
    TitleChanged,
    Never,
}

impl View for WaitCheck {
    type V = WaitCheckView;

    open spec fn view(&self) -> WaitCheckView {
        match self {
            WaitCheck::Delay => WaitCheckView::Delay,
            WaitCheck::UrlContains(v) => WaitCheckView::UrlContains(v@),
            WaitCheck::TitleContains(v) => WaitCheckView::TitleContains(v@),
            WaitCheck::ElementExists(q) => WaitCheckView::ElementExists(q@),
            WaitCheck::ElementGone(q) => WaitCheckView::ElementGone(q@),
            WaitCheck::UrlChanged => WaitCheckView::UrlChanged,
            WaitCheck::TitleChanged => WaitCheckView::TitleChanged,
            WaitCheck::Never => WaitCheckView::Never,
        }
    }
}

/// The check a condition name and its optional value stand for; a missing value
/// is the empty text.
pub open spec fn wait_check_spec(condition: Seq<char>, value: Option<Seq<char>>) -> WaitCheckView {
    let v = match value {
        Some(v) => v,
        None => Seq::empty(),
    };
    if condition == "delay"@ {
        WaitCheckView::Delay
    } else if condition == "urlContains"@ {
        WaitCheckView::UrlContains(v)
    } else if condition == "titleContains"@ {
        WaitCheckView::TitleContains(v)
    } else if condition == "elementExists"@ {
        if v.len() == 0 {
            WaitCheckView::Never
        } else {
            WaitCheckView::ElementExists(v)
        }
    } else if condition == "elementGone"@ {
        if v.len() == 0 {
            WaitCheckView::Never
        } else {
            WaitCheckView::ElementGone(v)
        }
    } else if condition == "urlChanged"@ {
        WaitCheckView::UrlChanged
    } else if condition == "titleChanged"@ {
        WaitCheckView::TitleChanged
    } else {
        WaitCheckView::Never
    }
}

/// The check for a condition (see [`wait_check_spec`]).
pub fn wait_check(condition: &str, value: Option<&str>) -> (r: WaitCheck)
    ensures
        r@ == wait_check_spec(condition@, opt_view(value)),
{
    let v: &str = match value {
        Some(v) => v,
        None => "",
    };
    assert(v@ == (match opt_view(value) {
        Some(v) => v,
        None => Seq::<char>::empty(),
    })) by {
        reveal_strlit("");
    }
    if str_equals(condition, "delay") {
        WaitCheck::Delay
    } else if str_equals(condition, "urlContains") {
        WaitCheck::UrlContains(v.to_owned())
    } else if str_equals(condition, "titleContains") {
        WaitCheck::TitleContains(v.to_owned())
    } else if str_equals(condition, "elementExists") {
        if v.unicode_len() == 0 {
            WaitCheck::Never
        } else {
            WaitCheck::ElementExists(v.to_owned())
        }
    } else if str_equals(condition, "elementGone") {
        if v.unicode_len() == 0 {
            WaitCheck::Never
        } else {
            WaitCheck::ElementGone(v.to_owned())
        }
    } else if str_equals(condition, "urlChanged") {
        WaitCheck::UrlChanged
    } else if str_equals(condition, "titleChanged") {
        WaitCheck::TitleChanged
    } else {
        WaitCheck::Never
    }
}

/// What was observed for one poll: the active window's URL and title (absent when
/// there is none, or when not looked at), and whether an element matched the query
/// (absent when the accessibility tree could not be read, or when not looked at).
pub struct Observation {
    pub url: Option<String>,
    pub title: Option<String>,
    pub element_found: Option<bool>,
}

/// Whether a polled condition holds for an observation, against the URL and title
/// seen when the wait started. A missing URL or title reads as empty text; an
/// unreadable accessibility tree meets neither element condition. `Delay` and
/// `Never` are not polled conditions and never hold here.
pub open spec fn check_condition_spec(
    check: WaitCheckView,
    url: Option<Seq<char>>,
    title: Option<Seq<char>>,
    element_found: Option<bool>,
    initial_url: Option<Seq<char>>,
    initial_title: Option<Seq<char>>,
) -> bool {
    let u = match url {
        Some(u) => u,
        None => Seq::empty(),
    };
    let t = match title {
        Some(t) => t,
        None => Seq::empty(),
    };
    match check {
        WaitCheckView::UrlContains(v) => contains_seq(u, v),
        WaitCheckView::TitleContains(v) => contains_seq(t, v),
        WaitCheckView::ElementExists(_) => element_found == Some(true),
        WaitCheckView::ElementGone(_) => element_found == Some(false),
        WaitCheckView::UrlChanged => url != initial_url,
        WaitCheckView::TitleChanged => title != initial_title,
        _ => false,
    }
}

fn text_or_empty(o: &Option<String>) -> (r: &str)
    ensures
        r@ == (match opt_view(*o) {
            Some(s) => s,
            None => Seq::<char>::empty(),
        }),
{
    match o {
        Some(s) => s.as_str(),
        None => {
            let e = "";
            proof {
                reveal_strlit("");
            }
            e
        },
    }
}

fn same_text(a: &Option<String>, b: &Option<String>) -> (r: bool)
    ensures
        r == (opt_view(*a) == opt_view(*b)),
{
    match (a, b) {
        (Some(x), Some(y)) => str_equals(x.as_str(), y.as_str()),
        (None, None) => true,
        _ => false,
    }
}

/// Whether a polled condition holds (see [`check_condition_spec`]).
pub fn check_condition(
    check: &WaitCheck,
    observed: &Observation,
    initial_url: &Option<String>,
    initial_title: &Option<String>,
) -> (r: bool)
    ensures
        r == check_condition_spec(
            check@,
            opt_view(observed.url),
            opt_view(observed.title),
            observed.element_found,
            opt_view(*initial_url),
            opt_view(*initial_title),
        ),
{
    match check {
        WaitCheck::UrlContains(v) => contains_str(text_or_empty(&observed.url), v.as_str()),
        WaitCheck::TitleContains(v) => contains_str(text_or_empty(&observed.title), v.as_str()),
        WaitCheck::ElementExists(_) => match observed.element_found {
            Some(f) => f,
            None => false,
        },
        WaitCheck::ElementGone(_) => match observed.element_found {
            Some(f) => !f,
            None => false,
        },
        WaitCheck::UrlChanged => !same_text(&observed.url, initial_url),
        WaitCheck::TitleChanged => !same_text(&observed.title, initial_title),
        _ => false,
    }
}

/// Why a wait cannot run.
#[derive(Debug, Clone, Copy, PartialEq, Eq, Structural)]
pub enum WaitError {
    /// The `condition` parameter is absent or not a string.
    ConditionRequired,
}

impl WaitError {
    /// The error's message.
    pub fn message(&self) -> (r: &'static str)
        ensures
            r@ == "'condition' required"@,
    {
        "'condition' required"
    }
}

/// What the wait does after a poll.
#[derive(Debug)]
pub enum WaitStep {
    /// The wait ends with this answer (JSON text).
    Finish(String),
    /// The wait sleeps for the poll interval and polls again.
    Sleep,
}

/// The answer of a wait whose condition was met after `polls` polls and
/// `elapsed_ms` milliseconds.
pub open spec fn met_answer_spec(condition: Seq<char>, polls: nat, elapsed_ms: nat) -> Seq<char> {
    "{\"condition\":"@ + json_string_literal(condition) + ",\"condition_met\":true,\"elapsed_ms\":"@
        + decimal(elapsed_ms) + ",\"polls\":"@ + decimal(polls) + "}"@
}

/// The advice given when a wait times out.
pub open spec fn timeout_suggestion() -> Seq<char> {
    "The condition was not met within the timeout. Try increasing 'timeout' or verify the condition string."@
}

/// The answer of a wait that timed out after `polls` polls.
pub open spec fn timeout_answer_spec(condition: Seq<char>, polls: nat) -> Seq<char> {
    "{\"condition\":"@ + json_string_literal(condition) + ",\"condition_met\":false,\"polls\":"@
        + decimal(polls) + ",\"suggestion\":"@ + json_string_literal(timeout_suggestion())
        + ",\"timed_out\":true}"@
}

fn met_answer(condition: &str, polls: u64, elapsed_ms: u64) -> (r: String)
    ensures
        r@ == met_answer_spec(condition@, polls as nat, elapsed_ms as nat),
{
    let mut out = "{\"condition\":".to_owned();
    push_string_literal(&mut out, condition);
    out.append(",\"condition_met\":true,\"elapsed_ms\":");
    push_decimal(&mut out, elapsed_ms as u128);
    out.append(",\"polls\":");
    push_decimal(&mut out, polls as u128);
    out.append("}");
    out
}

/// The answer of a `delay` wait, which sleeps once for the timeout (`elapsed_ms`)
/// and reports the condition met after no polls.
pub fn delay_answer(elapsed_ms: u64) -> (r: String)
    ensures
        r@ == met_answer_spec("delay"@, 0, elapsed_ms as nat),
{
    met_answer("delay", 0, elapsed_ms)
}

/// After poll number `polls`: a met condition finishes the wait with the elapsed
/// time; otherwise a passed deadline finishes it as timed out; otherwise the wait
/// sleeps (`None`).
pub open spec fn wait_step_spec(
    condition: Seq<char>,
    polls: nat,
    met: bool,
    elapsed_ms: nat,
    deadline_passed: bool,
) -> Option<Seq<char>> {
    if met {
        Some(met_answer_spec(condition, polls, elapsed_ms))
    } else if deadline_passed {
        Some(timeout_answer_spec(condition, polls))
    } else {
        None
    }
}

/// Decides what follows a poll (see [`wait_step_spec`]); `Sleep` stands for `None`
/// there.
pub fn wait_step(condition: &str, polls: u64, met: bool, elapsed_ms: u64, deadline_passed: bool) -> (r:
    WaitStep)
    ensures
        match r {
            WaitStep::Finish(t) => wait_step_spec(condition@, polls as nat, met, elapsed_ms as nat, deadline_passed)
                == Some(t@),
            WaitStep::Sleep => wait_step_spec(condition@, polls as nat, met, elapsed_ms as nat, deadline_passed)
                is None,
        },
{
    if met {
        WaitStep::Finish(met_answer(condition, polls, elapsed_ms))
    } else if deadline_passed {
        let mut out = "{\"condition\":".to_owned();
        push_string_literal(&mut out, condition);
        out.append(",\"condition_met\":false,\"polls\":");
        push_decimal(&mut out, polls as u128);
        out.append(",\"suggestion\":");
        push_string_literal(
            &mut out,
            "The condition was not met within the timeout. Try increasing 'timeout' or verify the condition string.",
        );
        out.append(",\"timed_out\":true}");
        proof {
            reveal_strlit("The condition was not met within the timeout. Try increasing 'timeout' or verify the condition string.");
        }
        WaitStep::Finish(out)
    } else {
        WaitStep::Sleep
    }
}

/// Starts a wait: the `condition` parameter is required; with it, the check it
/// stands for (see [`wait_check_spec`]).
pub fn ghost_wait_check(condition: Option<&str>, value: Option<&str>) -> (r: Result<WaitCheck, WaitError>)
    ensures
        match condition {
            Some(c) => r matches Ok(w) && w@ == wait_check_spec(c@, opt_view(value)),
            None => r == Err::<WaitCheck, WaitError>(WaitError::ConditionRequired),
        },
{
    match condition {
        Some(c) => Ok(wait_check(c, value)),
        None => Err(WaitError::ConditionRequired),
    }
}

// ---------------------------------------------------------------------------
// Laws
// ---------------------------------------------------------------------------

/// Whether `needle` occurs at some position of `hay`.
pub open spec fn occurs_somewhere(hay: Seq<char>, needle: Seq<char>) -> bool {
    exists|i: int| 0 <= i && i + needle.len() <= hay.len() && #[trigger] hay.subrange(i, i + needle.len()) == needle
}

proof fn lemma_contains_is_occurs_somewhere(hay: Seq<char>, needle: Seq<char>)
    ensures
        contains_seq(hay, needle) <==> occurs_somewhere(hay, needle),
{
    if contains_seq(hay, needle) {
        let i = choose|i: int| crate::text::occurs_at(hay, needle, i);
        assert(hay.subrange(i, i + needle.len()) == needle);
    }
    if occurs_somewhere(hay, needle) {
        let i = choose|i: int|
            0 <= i && i + needle.len() <= hay.len() && #[trigger] hay.subrange(i, i + needle.len()) == needle;
        assert(crate::text::occurs_at(hay, needle, i));
    }
}

/// What each condition, named as the wait tool takes it, means for one poll: the
/// URL or title condition holds exactly when the value occurs at some position of
/// the observed URL or title (a missing one read as empty, a missing value as the
/// empty text); an element condition with a non-empty query holds exactly when the
/// accessibility tree was read and the element was found (or not found); a change
/// condition holds exactly when the URL or title differs from the one seen at the
/// start; `delay` and any other name never hold.
pub proof fn lemma_condition_meaning(
    condition: Seq<char>,
    value: Option<Seq<char>>,
    url: Option<Seq<char>>,
    title: Option<Seq<char>>,
    element_found: Option<bool>,
    initial_url: Option<Seq<char>>,
    initial_title: Option<Seq<char>>,
)
    ensures
        ({
            let met = check_condition_spec(
                wait_check_spec(condition, value),
                url,
                title,
                element_found,
                initial_url,
                initial_title,
            );
            let v = match value {
                Some(v) => v,
                None => Seq::empty(),
            };
            let u = match url {
                Some(u) => u,
                None => Seq::empty(),
            };
            let t = match title {
                Some(t) => t,
                None => Seq::empty(),
            };
            &&& condition == "urlContains"@ ==> (met <==> occurs_somewhere(u, v))
            &&& condition == "titleContains"@ ==> (met <==> occurs_somewhere(t, v))
            &&& condition == "elementExists"@ ==> (met <==> (v.len() > 0 && element_found == Some(true)))
            &&& condition == "elementGone"@ ==> (met <==> (v.len() > 0 && element_found == Some(false)))
            &&& condition == "urlChanged"@ ==> (met <==> url != initial_url)
            &&& condition == "titleChanged"@ ==> (met <==> title != initial_title)
            &&& condition == "delay"@ ==> wait_check_spec(condition, value) is Delay && !met
            &&& (condition != "urlContains"@ && condition != "titleContains"@ && condition != "elementExists"@
                && condition != "elementGone"@ && condition != "urlChanged"@ && condition != "titleChanged"@)
                ==> !met
        }),
{
    reveal_strlit("delay");
    reveal_strlit("urlContains");
    reveal_strlit("titleContains");
    reveal_strlit("elementExists");
    reveal_strlit("elementGone");
    reveal_strlit("urlChanged");
    reveal_strlit("titleChanged");
    let names = seq![
        "delay"@,
        "urlContains"@,
        "titleContains"@,
        "elementExists"@,
        "elementGone"@,
        "urlChanged"@,
        "titleChanged"@,
    ];
    assert(names[0] != names[1] && names[0] != names[2] && names[0] != names[3] && names[0] != names[4]
        && names[0] != names[5] && names[0] != names[6]) by {
        assert(names[0].len() == 5);
    }
    assert(names[1][0] != names[2][0] && names[1][0] != names[3][0] && names[1][0] != names[4][0]);
    assert(names[1].len() != names[5].len() || names[1][3] != names[5][3]);
    assert(names[1][0] != names[6][0]);
    assert(names[2][0] != names[3][0] && names[2][0] != names[4][0] && names[2][0] != names[5][0]);
    assert(names[2].len() != names[6].len() || names[2][5] != names[6][5]);
    assert(names[3].len() != names[4].len() || names[3][7] != names[4][7]);
    assert(names[3][0] != names[5][0] && names[3][0] != names[6][0]);
    assert(names[4][0] != names[5][0] && names[4][0] != names[6][0]);
    assert(names[5][0] != names[6][0]);
    let u = match url {
        Some(u) => u,
        None => Seq::<char>::empty(),
    };
    let t = match title {
        Some(t) => t,
        None => Seq::<char>::empty(),
    };
    let v = match value {
        Some(v) => v,
        None => Seq::<char>::empty(),
    };
    lemma_contains_is_occurs_somewhere(u, v);
    lemma_contains_is_occurs_somewhere(t, v);
}

/// The text of the answer a wait gives when its condition is met on poll `polls`
/// after `elapsed_ms` milliseconds.
pub open spec fn finished_met_text(condition: Seq<char>, polls: nat, elapsed_ms: nat) -> Seq<char> {
    "{\"condition\":"@ + json_string_literal(condition) + ",\"condition_met\":true,\"elapsed_ms\":"@
        + decimal(elapsed_ms) + ",\"polls\":"@ + decimal(polls) + "}"@
}

/// What one poll decides: a met condition ends the wait at once, deadline or not,
/// reporting it met with this poll's number and elapsed time; an unmet condition
/// ends the wait as timed out (not met, this poll's number, the advice) once the
/// deadline has passed; otherwise the wait sleeps. The wait ends exactly when the
/// condition is met or the deadline has passed.
pub proof fn lemma_poll_decision(
    condition: Seq<char>,
    polls: nat,
    met: bool,
    elapsed_ms: nat,
    deadline_passed: bool,
)
    ensures
        (wait_step_spec(condition, polls, met, elapsed_ms, deadline_passed) is Some) <==> (met
            || deadline_passed),
        met ==> wait_step_spec(condition, polls, met, elapsed_ms, deadline_passed) == Some(
            finished_met_text(condition, polls, elapsed_ms),
        ),
        !met && deadline_passed ==> wait_step_spec(condition, polls, met, elapsed_ms, deadline_passed)
            == Some(
            "{\"condition\":"@ + json_string_literal(condition) + ",\"condition_met\":false,\"polls\":"@
                + decimal(polls) + ",\"suggestion\":"@ + json_string_literal(
                "The condition was not met within the timeout. Try increasing 'timeout' or verify the condition string."@,
            ) + ",\"timed_out\":true}"@,
        ),
{
}

} // verus!
