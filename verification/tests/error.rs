use realm::error::in_braces;
use realm::{error, Error, Or404, StringMap};

fn text_of<T>(r: Result<T, Error>) -> String {
    match r {
        Err(e) => e.to_string(),
        Ok(_) => panic!("an error was expected"),
    }
}

#[test]
fn error_is_a_form_error_of_one_field() {
    let r: Result<(), Error> = error("email", "is not an address");
    match r {
        Err(Error::FormError { errors }) => {
            assert_eq!(errors.len(), 1);
            assert_eq!(errors.entry(0), Some(("email", &"is not an address".to_string())));
            assert_eq!(errors.get("email"), Some(&"is not an address".to_string()));
        }
        _ => panic!("a form error was expected"),
    }
}

#[test]
fn texts_of_the_kinds() {
    assert_eq!(
        Error::PageNotFound { message: "no such page".into() }.to_string(),
        "404 Page Not Found: no such page"
    );
    assert_eq!(Error::InputError { error: "id is no number".into() }.to_string(), "Input Error: id is no number");
    assert_eq!(
        Error::CustomError { message: "out of luck".into() }.to_string(),
        "Internal Server Error: out of luck"
    );
    assert_eq!(
        Error::VarError { error: "environment variable not found".into() }.to_string(),
        "Env Var Error: environment variable not found"
    );
    assert_eq!(
        Error::DieselError { error: diesel::result::Error::NotFound }.to_string(),
        "Diesel Error: Record not found"
    );
    let bad = http::Response::builder().status(1000).body(()).unwrap_err();
    let text = Error::HttpError { error: bad }.to_string();
    assert!(text.starts_with("HTTP Error: "));
    assert!(text.len() > "HTTP Error: ".len());
}

#[test]
fn text_of_a_form_error() {
    assert_eq!(text_of(error::<()>("name", "is empty")), "Form Error: {\"name\": \"is empty\"}");
    assert_eq!(
        text_of(error::<()>("quote", "has a \" in it\n")),
        "Form Error: {\"quote\": \"has a \\\" in it\\n\"}"
    );
    assert_eq!(Error::FormError { errors: StringMap::new() }.to_string(), "Form Error: {}");
    let mut errors = StringMap::new();
    errors.insert("a".to_string(), "1".to_string());
    errors.insert("b".to_string(), "2".to_string());
    assert_eq!(Error::FormError { errors }.to_string(), "Form Error: {\"a\": \"1\", \"b\": \"2\"}");
}

#[test]
fn errors_come_from_their_causes() {
    let e: Error = diesel::result::Error::NotFound.into();
    assert!(matches!(e, Error::DieselError { error: diesel::result::Error::NotFound }));
    let bad = http::Response::builder().status(1000).body(()).unwrap_err();
    let e = Error::from(bad);
    assert!(matches!(e, Error::HttpError { .. }));
}

#[test]
fn or_404_leaves_what_was_found() {
    let found: Result<u32, Error> = Ok(7);
    assert!(matches!(found.or_404(), Ok(7)));
}

#[test]
fn or_404_keeps_the_message() {
    let lost: Result<(), Error> = Err(Error::CustomError { message: "missing widget".into() });
    match lost.or_404() {
        Err(Error::PageNotFound { message }) => {
            assert!(message.contains("missing widget"));
            assert_eq!(message, "Internal Server Error: missing widget");
        }
        _ => panic!("PageNotFound was expected"),
    }
}

#[test]
fn or_404_of_every_kind_is_page_not_found() {
    let bad = http::Response::builder().status(1000).body(()).unwrap_err();
    let mut errors = StringMap::new();
    errors.insert("field".to_string(), "missing widget".to_string());
    let all = vec![
        Error::PageNotFound { message: "missing widget".into() },
        Error::InputError { error: "missing widget".into() },
        Error::FormError { errors },
        Error::CustomError { message: "missing widget".into() },
        Error::VarError { error: "missing widget".into() },
        Error::HttpError { error: bad },
        Error::DieselError { error: diesel::result::Error::NotFound },
    ];
    for (at, e) in all.into_iter().enumerate() {
        let text = e.to_string();
        let lost: Result<(), Error> = Err(e);
        match lost.or_404() {
            Err(found) => {
                match &found {
                    Error::PageNotFound { message } => {
                        assert_eq!(message, &text);
                        if at < 5 {
                            assert!(message.contains("missing widget"));
                        }
                    }
                    _ => panic!("PageNotFound was expected"),
                }
                assert_eq!(found.to_string(), format!("404 Page Not Found: {}", text));
            }
            Ok(()) => panic!("an error was expected"),
        }
    }
}

#[test]
fn text_with_puts_the_detail_behind_the_headline() {
    let e = Error::DieselError { error: diesel::result::Error::NotFound };
    assert_eq!(e.text_with("no such row"), "Diesel Error: no such row");
    let e = Error::PageNotFound { message: "ignored".into() };
    assert_eq!(e.text_with(""), "404 Page Not Found: ");
}

#[test]
fn pairs_in_braces() {
    assert_eq!(in_braces(&vec![]), "{}");
    assert_eq!(in_braces(&vec![("a".to_string(), "1".to_string())]), "{a: 1}");
    assert_eq!(
        in_braces(&vec![("a".to_string(), "1".to_string()), ("b".to_string(), "".to_string())]),
        "{a: 1, b: }"
    );
}
