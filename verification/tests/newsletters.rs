use webserver::routes::newsletters::{
    confirmed_subscribers, newsletter_plan, Content, FormData, NewsletterStep, NewslettersError,
};

fn payload() -> FormData {
    FormData {
        title: "Ursula Le Guin".to_string(),
        content: Content {
            html: "<h1>Newsletter</h1><br />Hello, this is my newsletter!".to_string(),
            text: "NewsletterThis is my newsletter".to_string(),
        },
    }
}

#[test]
fn validation_errors_are_bad_requests() {
    let error = NewslettersError::ValidationError("missing title".to_string());
    assert_eq!(error.status_code(), 400);
}

#[test]
fn internal_errors_are_server_errors() {
    let error = NewslettersError::InternalServerError(anyhow::Error::msg("database down"));
    assert_eq!(error.status_code(), 500);
}

#[test]
fn an_anyhow_error_becomes_an_internal_server_error() {
    let error: NewslettersError = anyhow::Error::msg("send failed").into();
    assert!(matches!(error, NewslettersError::InternalServerError(_)));
    assert_eq!(error.status_code(), 500);
}

#[test]
fn stored_addresses_are_checked_in_order() {
    let rows = vec![
        "ursula_le_guin@gmail.com".to_string(),
        "not-an-email".to_string(),
        "a@b.org".to_string(),
    ];
    let subscribers = confirmed_subscribers(rows);
    assert_eq!(subscribers.len(), 3);
    assert_eq!(subscribers[0].as_ref().unwrap().as_ref(), "ursula_le_guin@gmail.com");
    assert_eq!(
        subscribers[1].as_ref().unwrap_err(),
        "not-an-email is not a valid email"
    );
    assert_eq!(subscribers[2].as_ref().unwrap().as_ref(), "a@b.org");
}

#[test]
fn no_stored_address_means_no_subscriber() {
    assert!(confirmed_subscribers(Vec::new()).is_empty());
}

#[test]
fn newsletter_goes_to_every_valid_address_once_in_order() {
    let rows = vec![
        "first@example.com".to_string(),
        "".to_string(),
        "second@example.com".to_string(),
        "@bad".to_string(),
        "third@example.com".to_string(),
    ];
    let subscribers = confirmed_subscribers(rows);
    let payload = payload();
    let plan = newsletter_plan(&payload, &subscribers);
    assert_eq!(plan.len(), 5);
    let mut recipients = Vec::new();
    let mut skipped = Vec::new();
    for step in &plan {
        match step {
            NewsletterStep::Send(email) => {
                assert_eq!(email.subject, "Ursula Le Guin");
                assert_eq!(email.html, "<h1>Newsletter</h1><br />Hello, this is my newsletter!");
                assert_eq!(email.text, "NewsletterThis is my newsletter");
                recipients.push(email.recipient.as_ref());
            }
            NewsletterStep::Skip(reason) => skipped.push(reason.as_str()),
        }
    }
    assert_eq!(
        recipients,
        vec!["first@example.com", "second@example.com", "third@example.com"]
    );
    assert_eq!(
        skipped,
        vec![" is not a valid email", "@bad is not a valid email"]
    );
    assert!(matches!(plan[1], NewsletterStep::Skip(_)));
    assert!(matches!(plan[3], NewsletterStep::Skip(_)));
}

#[test]
fn newsletter_to_only_invalid_addresses_sends_nothing() {
    let subscribers = confirmed_subscribers(vec!["a".to_string(), "a@".to_string()]);
    let payload = payload();
    let plan = newsletter_plan(&payload, &subscribers);
    assert_eq!(plan.len(), 2);
    assert!(plan.iter().all(|step| matches!(step, NewsletterStep::Skip(_))));
}

#[test]
fn newsletter_without_subscribers_has_no_step() {
    let subscribers = confirmed_subscribers(Vec::new());
    let payload = payload();
    assert!(newsletter_plan(&payload, &subscribers).is_empty());
}
