use dhl_wrapper::error::DhlError;

#[test]
fn message_of_missing_credentials() {
    let error = DhlError::MissingCredentials("no key".to_string());
    assert_eq!(error.message(), "MissingCredentials Error: no key");
}

#[test]
fn message_of_response_not_ok() {
    let error = DhlError::ResponseNotOk {
        status: 404,
        title: "Not \"Found\"".to_string(),
        detail: "line\nbreak".to_string(),
    };
    assert_eq!(
        error.message(),
        "ResponseNotOk (status 404, title \"Not \\\"Found\\\"\", detail \"line\\nbreak\")"
    );
}

#[test]
fn message_of_serde_error() {
    let broken = serde_json::from_str::<serde_json::Value>("{").unwrap_err();
    let text = broken.to_string();
    let error = DhlError::from(broken);
    assert!(matches!(error, DhlError::Serde(_)));
    assert_eq!(error.message(), format!("Serde Error: {}", text));
}

#[test]
fn message_of_reqwest_error() {
    let broken = reqwest::Client::new().get("no url at all").build().unwrap_err();
    let text = broken.to_string();
    let error = DhlError::from(broken);
    assert!(matches!(error, DhlError::Reqwest(_)));
    assert_eq!(error.message(), format!("Reqwest Error: {}", text));
}
