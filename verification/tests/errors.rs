use goose::error::GooseError;
use goose::hosts::host_check;

#[test]
fn each_error_has_its_description() {
    let io = GooseError::from(std::io::Error::new(std::io::ErrorKind::Other, "disk"));
    assert_eq!(io.describe(), "io::Error");
    assert!(matches!(io, GooseError::Io(_)));
    let feature = GooseError::FeatureNotEnabled {
        feature: "gaggle".to_string(),
        detail: String::new(),
    };
    assert_eq!(
        feature.describe(),
        "required compile-time feature not enabled"
    );
    let host = GooseError::InvalidHost {
        host: "x".to_string(),
        detail: String::new(),
        parse_error: url::ParseError::EmptyHost,
    };
    assert_eq!(host.describe(), "failed to parse hostname");
    let option = GooseError::option_error("--users", "0", "too few");
    assert_eq!(option.describe(), "invalid option or value specified");
    match option {
        GooseError::InvalidOption {
            option,
            value,
            detail,
        } => {
            assert_eq!(option, "--users");
            assert_eq!(value, "0");
            assert_eq!(detail, "too few");
        }
        other => panic!("expected an invalid option, got {:?}", other),
    }
    let wait = GooseError::InvalidWaitTime {
        min_wait: 2,
        max_wait: 1,
        detail: String::new(),
    };
    assert_eq!(wait.describe(), "invalid wait_time specified");
    let weight = GooseError::InvalidWeight {
        weight: 0,
        detail: String::new(),
    };
    assert_eq!(weight.describe(), "invalid weight specified");
    let none = GooseError::NoTaskSets {
        detail: String::new(),
    };
    assert_eq!(none.describe(), "no task sets defined");
}

#[test]
fn an_error_of_the_http_client_is_kept() {
    let failed = reqwest::Client::new()
        .get("not a url")
        .build()
        .unwrap_err();
    let text = failed.to_string();
    let error = GooseError::from(failed);
    assert_eq!(error.describe(), "reqwest::Error");
    match error {
        GooseError::Reqwest(inner) => assert_eq!(inner.to_string(), text),
        other => panic!("expected an error of the client, got {:?}", other),
    }
}

#[test]
fn the_answer_of_the_parser_decides_on_a_host() {
    assert!(host_check("http://example.com/", Ok("http://example.com".to_string())).unwrap());
    match host_check("example.com", Err(url::ParseError::RelativeUrlWithoutBase)) {
        Err(GooseError::InvalidHost {
            host,
            detail,
            parse_error,
        }) => {
            assert_eq!(host, "example.com");
            assert_eq!(detail, "Invalid host.");
            assert_eq!(parse_error, url::ParseError::RelativeUrlWithoutBase);
        }
        other => panic!("unexpected answer: {:?}", other.is_ok()),
    }
}
