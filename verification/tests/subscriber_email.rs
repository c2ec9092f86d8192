use webserver::domain::SubscriberEmail;

#[test]
fn invalid_email() {
    let invalid_emails = vec!["", "a", "a@", "@a"];
    for invalid_email in invalid_emails {
        assert!(SubscriberEmail::try_from(invalid_email.to_string()).is_err());
    }
}

#[test]
fn valid_emails_are_accepted() {
    let valid_emails = vec![
        "ursula_le_guin@gmail.com",
        "email@here.com",
        "weirder-email@here.and.there.com",
        "abc@bar",
        "email@[127.0.0.1]",
    ];
    for valid_email in valid_emails {
        let parsed = SubscriberEmail::try_from(valid_email.to_string());
        assert!(parsed.is_ok(), "{} was refused", valid_email);
        assert_eq!(parsed.unwrap().as_ref(), valid_email);
    }
}

#[test]
fn refusal_message_names_the_address() {
    let refused = SubscriberEmail::try_from("definitely-not-an-email".to_string());
    assert_eq!(
        refused.unwrap_err(),
        "definitely-not-an-email is not a valid email"
    );
    assert_eq!(
        SubscriberEmail::try_from(String::new()).unwrap_err(),
        " is not a valid email"
    );
}

#[test]
fn addresses_with_more_than_one_at_are_refused() {
    assert!(SubscriberEmail::try_from("something@@somewhere.com".to_string()).is_err());
    assert!(SubscriberEmail::try_from("a@b@c.com".to_string()).is_err());
}

#[test]
fn overlong_local_part_is_refused() {
    let local = "a".repeat(65);
    assert!(SubscriberEmail::try_from(format!("{}@example.com", local)).is_err());
    let local = "a".repeat(64);
    assert!(SubscriberEmail::try_from(format!("{}@example.com", local)).is_ok());
}

#[test]
fn accepted_address_comes_back_unchanged() {
    let email = SubscriberEmail::try_from("Le.Guin+news@Example.org".to_string()).unwrap();
    assert_eq!(email.as_ref(), "Le.Guin+news@Example.org");
}

#[test]
fn an_accepted_address_is_accepted_again() {
    let first = SubscriberEmail::try_from("ursula_le_guin@gmail.com".to_string()).unwrap();
    let second = SubscriberEmail::try_from(first.as_ref().to_string()).unwrap();
    assert_eq!(first.as_ref(), second.as_ref());
}
