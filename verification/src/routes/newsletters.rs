use vstd::prelude::*;

use crate::domain::subscriber_email::email_is_valid;
use crate::domain::subscriber_email::invalid_email_message;
use crate::domain::SubscriberEmail;
use crate::routes::BAD_REQUEST;
use crate::routes::INTERNAL_SERVER_ERROR;

verus! {

#[verifier::external_type_specification]
#[verifier::external_body]
pub struct ExAnyhowError(anyhow::Error);

/// A newsletter issue as posted to the endpoint.
pub struct FormData {
    pub title: String,
    pub content: Content,
}

/// The body of a newsletter issue, as HTML and as plain text.
pub struct Content {
    pub html: String,
    pub text: String,
}

/// Why posting a newsletter failed.
pub enum NewslettersError {
    /// The request was refused; the message says why.
    ValidationError(String),
    /// Something on the server's side failed.
    InternalServerError(anyhow::Error),
}

impl NewslettersError {
    /// The HTTP status code of the response that reports this error.
    pub fn status_code(&self) -> (code: u16)
        ensures
            code == (match self {
                NewslettersError::ValidationError(_) => BAD_REQUEST,
                NewslettersError::InternalServerError(_) => INTERNAL_SERVER_ERROR,
            }),
            code == (if self is ValidationError { 400u16 } else { 500u16 }),
    {
        match self {
            NewslettersError::ValidationError(_) => BAD_REQUEST,
            NewslettersError::InternalServerError(_) => INTERNAL_SERVER_ERROR,
        }
    }
}

impl From<anyhow::Error> for NewslettersError {
    fn from(error: anyhow::Error) -> (e: Self) {
        NewslettersError::InternalServerError(error)
    }
}

impl vstd::std_specs::convert::FromSpecImpl<anyhow::Error> for NewslettersError {
    open spec fn obeys_from_spec() -> bool {
        true
    }

    open spec fn from_spec(v: anyhow::Error) -> Self {
        NewslettersError::InternalServerError(v)
    }
}

/// `subscribers[i]` is what checking the stored address `rows[i]` gives: the
/// address when the validator accepts it, else the refusal message.
pub open spec fn checked_addresses(
    rows: Seq<Seq<char>>,
    subscribers: Seq<Result<SubscriberEmail, String>>,
) -> bool {
    &&& subscribers.len() == rows.len()
    &&& forall|i: int|
        #![trigger subscribers[i]]
        0 <= i < rows.len() ==> match subscribers[i] {
            Ok(e) => email_is_valid(rows[i]) && e@ == rows[i],
            Err(msg) => !email_is_valid(rows[i]) && msg@ == invalid_email_message(rows[i]),
        }
}

/// Checks each stored address of a confirmed subscriber, keeping their
/// order.
pub fn confirmed_subscribers(rows: Vec<String>) -> (subscribers: Vec<Result<SubscriberEmail, String>>)
    ensures
        checked_addresses(rows@.map_values(|r: String| r@), subscribers@),
        subscribers@.len() == rows@.len(),
        forall|i: int|
            #![trigger subscribers@[i]]
            0 <= i < rows@.len() ==> match subscribers@[i] {
                Ok(e) => email_is_valid(rows@[i]@) && e@ == rows@[i]@,
                Err(msg) => !email_is_valid(rows@[i]@) && msg@ == rows@[i]@
                    + " is not a valid email"@,
            },
{
    let ghost views = rows@.map_values(|r: String| r@);
    let mut rows = rows;
    let mut reversed: Vec<Result<SubscriberEmail, String>> = Vec::new();
    while rows.len() > 0
        invariant
            rows@.len() + reversed@.len() == views.len(),
            forall|i: int| 0 <= i < rows@.len() ==> #[trigger] rows@[i]@ == views[i],
            forall|k: int|
                #![trigger reversed@[k]]
                0 <= k < reversed@.len() ==> match reversed@[k] {
                    Ok(e) => email_is_valid(views[views.len() - 1 - k]) && e@ == views[views.len() - 1 - k],
                    Err(msg) => !email_is_valid(views[views.len() - 1 - k])
                        && msg@ == invalid_email_message(views[views.len() - 1 - k]),
                },
        decreases rows@.len(),
    {
        let row = rows.pop().unwrap();
        reversed.push(SubscriberEmail::try_from(row));
    }
    let mut subscribers: Vec<Result<SubscriberEmail, String>> = Vec::new();
    while reversed.len() > 0
        invariant
            reversed@.len() + subscribers@.len() == views.len(),
            forall|k: int|
                #![trigger reversed@[k]]
                0 <= k < reversed@.len() ==> match reversed@[k] {
                    Ok(e) => email_is_valid(views[views.len() - 1 - k]) && e@ == views[views.len() - 1 - k],
                    Err(msg) => !email_is_valid(views[views.len() - 1 - k])
                        && msg@ == invalid_email_message(views[views.len() - 1 - k]),
                },
            forall|i: int|
                #![trigger subscribers@[i]]
                0 <= i < subscribers@.len() ==> match subscribers@[i] {
                    Ok(e) => email_is_valid(views[i]) && e@ == views[i],
                    Err(msg) => !email_is_valid(views[i]) && msg@ == invalid_email_message(views[i]),
                },
        decreases reversed@.len(),
    {
        let s = reversed.pop().unwrap();
        subscribers.push(s);
    }
    subscribers
}

/// The stored addresses that the validator accepts, in stored order.
pub open spec fn valid_addresses(rows: Seq<Seq<char>>) -> Seq<Seq<char>> {
    rows.filter(|r: Seq<char>| email_is_valid(r))
}

/// One email of a newsletter issue: the recipient and the issue's title,
/// HTML body and text body.
pub struct NewsletterEmail<'a> {
    pub recipient: &'a SubscriberEmail,
    pub subject: &'a str,
    pub html: &'a str,
    pub text: &'a str,
}

/// What to do for one confirmed subscriber when an issue goes out.
pub enum NewsletterStep<'a> {
    /// Send this email.
    Send(NewsletterEmail<'a>),
    /// Send nothing: the stored address was refused, for this reason.
    Skip(&'a String),
}

/// `step` is what delivering `payload` asks for `subscriber`: the issue
/// sent to the accepted address, or a skip that carries the refusal.
pub open spec fn step_for(
    step: NewsletterStep,
    subscriber: Result<SubscriberEmail, String>,
    payload: FormData,
) -> bool {
    match (subscriber, step) {
        (Ok(e), NewsletterStep::Send(m)) => {
            &&& m.recipient@ == e@
            &&& m.subject@ == payload.title@
            &&& m.html@ == payload.content.html@
            &&& m.text@ == payload.content.text@
        },
        (Err(msg), NewsletterStep::Skip(reason)) => reason@ == msg@,
        _ => false,
    }
}

/// The recipients of the emails that `steps` send, in order.
pub open spec fn recipients(steps: Seq<NewsletterStep>) -> Seq<Seq<char>>
    decreases steps.len(),
{
    if steps.len() == 0 {
        Seq::empty()
    } else {
        let rest = recipients(steps.drop_last());
        match steps.last() {
            NewsletterStep::Send(m) => rest.push(m.recipient@),
            NewsletterStep::Skip(_) => rest,
        }
    }
}

/// The steps that deliver `payload` to `subscribers`, one per subscriber and
/// in their order: an email to each accepted address, a skip for each
/// refused one.
pub fn newsletter_plan<'a>(
    payload: &'a FormData,
    subscribers: &'a Vec<Result<SubscriberEmail, String>>,
) -> (steps: Vec<NewsletterStep<'a>>)
    ensures
        steps@.len() == subscribers@.len(),
        forall|i: int|
            #![trigger steps@[i]]
            0 <= i < steps@.len() ==> step_for(steps@[i], subscribers@[i], *payload),
        forall|i: int|
            #![trigger steps@[i]]
            0 <= i < steps@.len() ==> (steps@[i] is Send <==> subscribers@[i] is Ok),
        forall|i: int|
            #![trigger steps@[i]]
            0 <= i < steps@.len() ==> (steps@[i] matches NewsletterStep::Send(m) ==> {
                &&& subscribers@[i] matches Ok(e) && m.recipient@ == e@
                &&& m.subject@ == payload.title@
                &&& m.html@ == payload.content.html@
                &&& m.text@ == payload.content.text@
            }),
        forall|i: int|
            #![trigger steps@[i]]
            0 <= i < steps@.len() ==> (steps@[i] matches NewsletterStep::Skip(reason) ==> (
            subscribers@[i] matches Err(msg) && reason@ == msg@)),
{
    let mut steps: Vec<NewsletterStep<'a>> = Vec::new();
    let mut i: usize = 0;
    while i < subscribers.len()
        invariant
            i <= subscribers@.len(),
            steps@.len() == i,
            forall|k: int|
                #![trigger steps@[k]]
                0 <= k < i ==> step_for(steps@[k], subscribers@[k], *payload),
        decreases subscribers@.len() - i,
    {
        match &subscribers[i] {
            Ok(recipient) => {
                steps.push(
                    NewsletterStep::Send(
                        NewsletterEmail {
                            recipient,
                            subject: payload.title.as_str(),
                            html: payload.content.html.as_str(),
                            text: payload.content.text.as_str(),
                        },
                    ),
                );
            },
            Err(reason) => {
                steps.push(NewsletterStep::Skip(reason));
            },
        }
        i = i + 1;
    }
    proof {
        lemma_plan_carries_issue_unchanged(*payload, subscribers@, steps@);
    }
    steps
}

/// Every email of a delivery plan carries the issue exactly as posted: its
/// subject is the issue's title and its bodies are the issue's HTML and text
/// bodies, whatever their length, and it goes to the address of the
/// subscriber it stands for; a subscriber is sent an email exactly when its
/// stored address was accepted, and is otherwise skipped with the reason of
/// the refusal.
pub proof fn lemma_plan_carries_issue_unchanged(
    payload: FormData,
    subscribers: Seq<Result<SubscriberEmail, String>>,
    steps: Seq<NewsletterStep>,
)
    requires
        steps.len() == subscribers.len(),
        forall|i: int| 0 <= i < steps.len() ==> #[trigger] step_for(steps[i], subscribers[i], payload),
    ensures
        forall|i: int|
            #![trigger steps[i]]
            0 <= i < steps.len() ==> (steps[i] is Send <==> subscribers[i] is Ok),
        forall|i: int|
            #![trigger steps[i]]
            0 <= i < steps.len() ==> (steps[i] matches NewsletterStep::Send(m) ==> {
                &&& subscribers[i] matches Ok(e) && m.recipient@ == e@
                &&& m.subject@ == payload.title@
                &&& m.html@ == payload.content.html@
                &&& m.text@ == payload.content.text@
            }),
        forall|i: int|
            #![trigger steps[i]]
            0 <= i < steps.len() ==> (steps[i] matches NewsletterStep::Skip(reason) ==> (
            subscribers[i] matches Err(msg) && reason@ == msg@)),
{
    assert forall|i: int| 0 <= i < steps.len() implies (steps[i] is Send <==> subscribers[i] is Ok)
        && (steps[i] matches NewsletterStep::Send(m) ==> {
                &&& subscribers[i] matches Ok(e) && m.recipient@ == e@
                &&& m.subject@ == payload.title@
                &&& m.html@ == payload.content.html@
                &&& m.text@ == payload.content.text@
            })
        && (steps[i] matches NewsletterStep::Skip(reason) ==> (
            subscribers[i] matches Err(msg) && reason@ == msg@)) by {
        assert(step_for(steps[i], subscribers[i], payload));
    }
}

/// A newsletter reaches exactly the stored addresses of confirmed
/// subscribers that the validator accepts, each once and in stored order:
/// checking the stored addresses and planning the delivery sends to the
/// valid stored addresses and to no other.
pub proof fn lemma_newsletter_reaches_valid_addresses(
    rows: Seq<Seq<char>>,
    subscribers: Seq<Result<SubscriberEmail, String>>,
    payload: FormData,
    steps: Seq<NewsletterStep>,
)
    requires
        checked_addresses(rows, subscribers),
        steps.len() == subscribers.len(),
        forall|i: int| 0 <= i < steps.len() ==> #[trigger] step_for(steps[i], subscribers[i], payload),
    ensures
        recipients(steps) == valid_addresses(rows),
    decreases rows.len(),
{
    reveal_with_fuel(Seq::filter, 1);
    if rows.len() > 0 {
        let last = rows.len() - 1;
        assert(subscribers[last] == subscribers.last());
        assert(step_for(steps[last], subscribers[last], payload));
        assert(checked_addresses(rows.drop_last(), subscribers.drop_last())) by {
            assert forall|i: int| 0 <= i < rows.drop_last().len() implies
                #[trigger] subscribers.drop_last()[i] == subscribers[i] && rows.drop_last()[i] == rows[i] by {}
        }
        assert forall|i: int| 0 <= i < steps.drop_last().len() implies
            #[trigger] step_for(steps.drop_last()[i], subscribers.drop_last()[i], payload) by {
            assert(step_for(steps[i], subscribers[i], payload));
        }
        lemma_newsletter_reaches_valid_addresses(
            rows.drop_last(),
            subscribers.drop_last(),
            payload,
            steps.drop_last(),
        );
    }
}

} // verus!
