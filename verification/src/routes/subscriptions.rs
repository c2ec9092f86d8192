use vstd::prelude::*;
use vstd::string::*;

use crate::domain::subscriber_email::email_is_valid;
use crate::domain::subscriber_email::invalid_email_message;
use crate::domain::SubscriberEmail;
use crate::routes::BAD_REQUEST;
use crate::routes::INTERNAL_SERVER_ERROR;
use crate::startup::ApplicationBaseUrl;

verus! {

/// A subscription request as posted by the subscription form.
pub struct FormData {
    pub email: String,
    pub name: String,
}

/// A subscriber whose request passed validation.
pub struct NewSubscriber {
    pub email: SubscriberEmail,
    pub name: String,
}

/// Why a subscription or its confirmation failed.
pub enum SubscribeError {
    /// The request was refused; the message says why.
    ValidationError(String),
    /// Something on the server's side failed.
    UnexpectedError(anyhow::Error),
}

/// The refusal of a request with an empty name.
pub open spec fn empty_name_message() -> Seq<char> {
    "subscriber name is empty"@
}

impl SubscribeError {
    /// The HTTP status code of the response that reports this error.
    pub fn status_code(&self) -> (code: u16)
        ensures
            code == (match self {
                SubscribeError::ValidationError(_) => BAD_REQUEST,
                SubscribeError::UnexpectedError(_) => INTERNAL_SERVER_ERROR,
            }),
            code == (if self is ValidationError { 400u16 } else { 500u16 }),
    {
        match self {
            SubscribeError::ValidationError(_) => BAD_REQUEST,
            SubscribeError::UnexpectedError(_) => INTERNAL_SERVER_ERROR,
        }
    }
}

impl From<anyhow::Error> for SubscribeError {
    fn from(error: anyhow::Error) -> (e: Self) {
        SubscribeError::UnexpectedError(error)
    }
}

impl vstd::std_specs::convert::FromSpecImpl<anyhow::Error> for SubscribeError {
    open spec fn obeys_from_spec() -> bool {
        true
    }

    open spec fn from_spec(v: anyhow::Error) -> Self {
        SubscribeError::UnexpectedError(v)
    }
}

impl NewSubscriber {
    /// Validates a subscription request: the name must not be empty and the
    /// email must be one the validator accepts. The name is checked first.
    pub fn parse(form: FormData) -> (result: Result<NewSubscriber, String>)
        ensures
            result is Ok <==> form.name@.len() > 0 && email_is_valid(form.email@),
            result matches Ok(s) ==> s.name@ == form.name@ && s.email@ == form.email@,
            result matches Err(msg) ==> msg@ == (if form.name@.len() == 0 {
                empty_name_message()
            } else {
                invalid_email_message(form.email@)
            }),
            result matches Err(msg) ==> msg@ == (if form.name@.len() == 0 {
                "subscriber name is empty"@
            } else {
                form.email@ + " is not a valid email"@
            }),
    {
        if form.name.as_str().is_empty() {
            return Err(String::from_str("subscriber name is empty"));
        }
        match SubscriberEmail::try_from(form.email) {
            Ok(email) => Ok(NewSubscriber { email, name: form.name }),
            Err(msg) => Err(msg),
        }
    }
}

/// The confirmation path of the service, with the query parameter that
/// carries the token.
pub open spec fn confirm_path() -> Seq<char> {
    "/subscriptions/confirm?subscription_token="@
}

/// The link that confirms the subscription holding `token`, under
/// `base_url`.
pub open spec fn confirmation_link_for(base_url: Seq<char>, token: Seq<char>) -> Seq<char> {
    base_url + confirm_path() + token
}

/// A lower-case hexadecimal digit.
pub open spec fn is_lower_hex(c: char) -> bool {
    ('0' <= c && c <= '9') || ('a' <= c && c <= 'f')
}

/// A subscription token: 32 lower-case hexadecimal digits, so it stands in
/// a URL query unescaped.
pub open spec fn is_subscription_token(t: Seq<char>) -> bool {
    t.len() == 32 && forall|i: int| 0 <= i < t.len() ==> is_lower_hex(#[trigger] t[i])
}

/// Calls `uuid::Uuid::new_v4` and writes the result with
/// `uuid::Uuid::simple`.
///
/// Trusted: the token is random, so only what holds of every outcome is
/// stated: the simple form is 32 lower-case hexadecimal digits, as the
/// source's formatter writes them.
#[verifier::external_body]
fn random_token() -> (token: String)
    ensures
        is_subscription_token(token@),
{
    uuid::Uuid::new_v4().simple().to_string()
}

/// A fresh confirmation: the token to store, and the link that presents it.
pub struct Confirmation {
    pub token: String,
    pub link: String,
}

/// Draws a fresh subscription token and builds its confirmation link under
/// `base_url`.
pub fn new_confirmation(base_url: &ApplicationBaseUrl) -> (c: Confirmation)
    ensures
        is_subscription_token(c.token@),
        c.link@ == confirmation_link_for(base_url.0@, c.token@),
        c.link@ == base_url.0@ + "/subscriptions/confirm?subscription_token="@ + c.token@,
{
    let token = random_token();
    let link = confirmation_link(base_url.0.as_str(), token.as_str());
    Confirmation { token, link }
}

/// The link that confirms the subscription holding `token`, under
/// `base_url`.
pub fn confirmation_link(base_url: &str, token: &str) -> (link: String)
    ensures
        link@ == confirmation_link_for(base_url@, token@),
        link@ == base_url@ + "/subscriptions/confirm?subscription_token="@ + token@,
{
    let mut link = String::from_str(base_url);
    link.append("/subscriptions/confirm?subscription_token=");
    link.append(token);
    link
}

/// `body` holds `part` somewhere, unchanged.
pub open spec fn carries(body: Seq<char>, part: Seq<char>) -> bool {
    exists|k: int| 0 <= k <= body.len() - part.len() && #[trigger] body.subrange(k, k + part.len()) == part
}

/// A confirmation link is the base URL it was built under, then the path
/// `/subscriptions/confirm` of the confirmation endpoint, then a query whose
/// one parameter is `subscription_token` with the token as its value, and
/// nothing else; so following it reaches the confirmation endpoint with that
/// token.
pub proof fn lemma_link_presents_token(base_url: Seq<char>, token: Seq<char>)
    ensures
        ({
            let link = confirmation_link_for(base_url, token);
            let b = base_url.len() as int;
            &&& link.len() == b + 42 + token.len()
            &&& link.subrange(0, b) == base_url
            &&& link.subrange(b, b + 22) == "/subscriptions/confirm"@
            &&& link[b + 22] == '?'
            &&& link.subrange(b + 23, b + 41) == "subscription_token"@
            &&& link[b + 41] == '='
            &&& link.subrange(b + 42, link.len() as int) == token
        }),
{
    reveal_strlit("/subscriptions/confirm?subscription_token=");
    reveal_strlit("/subscriptions/confirm");
    reveal_strlit("subscription_token");
    let link = confirmation_link_for(base_url, token);
    let b = base_url.len() as int;
    assert(link.subrange(0, b) =~= base_url);
    assert(link.subrange(b, b + 22) =~= "/subscriptions/confirm"@);
    assert(link.subrange(b + 23, b + 41) =~= "subscription_token"@);
    assert(link.subrange(b + 42, link.len() as int) =~= token);
}

/// The subject of a confirmation email.
pub open spec fn confirmation_subject() -> Seq<char> {
    "Welcome!"@
}

/// The HTML body of the confirmation email that carries `link`.
pub open spec fn confirmation_html(link: Seq<char>) -> Seq<char> {
    "Welcome to our newsletter!<br />Click <a href=\""@ + link
        + "\">here</a> to confirm your subscription."@
}

/// The text body of the confirmation email that carries `link`.
pub open spec fn confirmation_text(link: Seq<char>) -> Seq<char> {
    "Welcome to our newsletter!\nVisit "@ + link + " to confirm your subscription."@
}

/// The email that asks a new subscriber to confirm.
pub struct ConfirmationEmail {
    pub subject: String,
    pub html: String,
    pub text: String,
}

/// The confirmation email that carries `link`, in its HTML and its text
/// body.
pub fn confirmation_email(link: &str) -> (email: ConfirmationEmail)
    ensures
        email.subject@ == confirmation_subject(),
        email.subject@ == "Welcome!"@,
        email.html@ == confirmation_html(link@),
        email.text@ == confirmation_text(link@),
        email.html@ == "Welcome to our newsletter!<br />Click <a href=\""@ + link@
            + "\">here</a> to confirm your subscription."@,
        email.text@ == "Welcome to our newsletter!\nVisit "@ + link@
            + " to confirm your subscription."@,
{
    let subject = String::from_str("Welcome!");
    let mut html = String::from_str("Welcome to our newsletter!<br />Click <a href=\"");
    html.append(link);
    html.append("\">here</a> to confirm your subscription.");
    let mut text = String::from_str("Welcome to our newsletter!\nVisit ");
    text.append(link);
    text.append(" to confirm your subscription.");
    ConfirmationEmail { subject, html, text }
}

/// Both bodies of a confirmation email carry its link, unchanged: a reader of
/// either follows the same link.
pub proof fn lemma_both_bodies_carry_the_link(link: Seq<char>)
    ensures
        carries(confirmation_html(link), link),
        carries(confirmation_text(link), link),
{
    let html_prefix = "Welcome to our newsletter!<br />Click <a href=\""@;
    let text_prefix = "Welcome to our newsletter!\nVisit "@;
    let html = confirmation_html(link);
    let text = confirmation_text(link);
    assert(html.subrange(html_prefix.len() as int, (html_prefix.len() + link.len()) as int) =~= link);
    assert(text.subrange(text_prefix.len() as int, (text_prefix.len() + link.len()) as int) =~= link);
}

/// In each body of a confirmation email the link stands whole and
/// delimited: in the text body between two spaces, in the HTML body between
/// the two quotes of the `href` attribute, so a reader, or a program that
/// looks for URLs, takes exactly the link from either body.
pub proof fn lemma_link_is_delimited(link: Seq<char>)
    ensures
        exists|k: int|
            0 < k && k + link.len() < confirmation_text(link).len()
                && #[trigger] confirmation_text(link).subrange(k, k + link.len()) == link
                && confirmation_text(link)[k - 1] == ' '
                && confirmation_text(link)[k + link.len()] == ' ',
        exists|k: int|
            0 < k && k + link.len() < confirmation_html(link).len()
                && #[trigger] confirmation_html(link).subrange(k, k + link.len()) == link
                && confirmation_html(link)[k - 1] == '"'
                && confirmation_html(link)[k + link.len()] == '"',
{
    reveal_strlit("Welcome to our newsletter!\nVisit ");
    reveal_strlit(" to confirm your subscription.");
    reveal_strlit("Welcome to our newsletter!<br />Click <a href=\"");
    reveal_strlit("\">here</a> to confirm your subscription.");
    let text = confirmation_text(link);
    let html = confirmation_html(link);
    let kt = "Welcome to our newsletter!\nVisit "@.len() as int;
    let kh = "Welcome to our newsletter!<br />Click <a href=\""@.len() as int;
    assert(text.subrange(kt, kt + link.len()) =~= link);
    assert(text[kt - 1] == ' ');
    assert(text[kt + link.len()] == ' ');
    assert(html.subrange(kh, kh + link.len()) =~= link);
    assert(html[kh - 1] == '"');
    assert(html[kh + link.len()] == '"');
}

} // verus!
