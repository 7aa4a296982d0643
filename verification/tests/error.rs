use autopush_core::error::{
    errno_from_validation_errors, parse_code, ApcErrorKind, ApcFault, ApiErrorKind, PayloadFault,
    RouterFault, ValidationErrors, ValidationErrorsKind, ValidationFault,
};

fn payload(status: u16, overflow: bool) -> ApiErrorKind {
    ApiErrorKind::PayloadError(PayloadFault { status, overflow, message: "payload".to_string() })
}

fn router(status: u16, errno: Option<usize>, too_much_data: bool) -> ApiErrorKind {
    ApiErrorKind::Router(RouterFault { status, errno, too_much_data, message: "router".to_string() })
}

fn field(codes: &[&str]) -> ValidationErrorsKind {
    ValidationErrorsKind::Field(codes.iter().map(|c| c.to_string()).collect())
}

fn errors(fields: Vec<ValidationErrorsKind>) -> ValidationErrors {
    ValidationErrors { errors: fields }
}

fn validation(fields: Vec<ValidationErrorsKind>) -> ApiErrorKind {
    ApiErrorKind::Validation(ValidationFault { errors: errors(fields), message: "ttl: too small".to_string() })
}

fn endpoint_url() -> ApiErrorKind {
    ApiErrorKind::EndpointUrl(ApcFault {
        kind: ApcErrorKind::GeneralError("bad url".to_string()),
        message: "General error: bad url".to_string(),
    })
}

#[test]
fn status_of_each_kind() {
    assert_eq!(payload(413, true).status(), 413);
    assert_eq!(router(503, None, false).status(), 503);
    assert_eq!(validation(vec![]).status(), 400);
    assert_eq!(ApiErrorKind::InvalidEncryption("x".to_string()).status(), 400);
    assert_eq!(ApiErrorKind::NoTTL.status(), 400);
    assert_eq!(ApiErrorKind::InvalidRouterType.status(), 400);
    assert_eq!(ApiErrorKind::InvalidRouterToken.status(), 400);
    assert_eq!(ApiErrorKind::InvalidMessageId.status(), 400);
    assert_eq!(ApiErrorKind::VapidError("x".to_string()).status(), 401);
    assert_eq!(ApiErrorKind::Jwt("x".to_string()).status(), 401);
    assert_eq!(ApiErrorKind::TokenHashValidation("x".to_string()).status(), 401);
    assert_eq!(ApiErrorKind::InvalidAuthentication.status(), 401);
    assert_eq!(ApiErrorKind::InvalidLocalAuth("x".to_string()).status(), 401);
    assert_eq!(ApiErrorKind::InvalidToken.status(), 404);
    assert_eq!(ApiErrorKind::InvalidApiVersion.status(), 404);
    assert_eq!(ApiErrorKind::NoUser.status(), 410);
    assert_eq!(ApiErrorKind::NoSubscription.status(), 410);
    assert_eq!(ApiErrorKind::LogCheck.status(), 418);
    assert_eq!(ApiErrorKind::General("x".to_string()).status(), 500);
    assert_eq!(ApiErrorKind::Io("x".to_string()).status(), 500);
    assert_eq!(ApiErrorKind::Metrics("x".to_string()).status(), 500);
    assert_eq!(ApiErrorKind::Database("x".to_string()).status(), 500);
    assert_eq!(endpoint_url().status(), 500);
    assert_eq!(ApiErrorKind::RegistrationSecretHash("x".to_string()).status(), 500);
}

#[test]
fn errno_of_each_kind() {
    assert_eq!(router(500, Some(901), false).errno(), Some(901));
    assert_eq!(router(500, None, false).errno(), None);
    assert_eq!(ApiErrorKind::InvalidToken.errno(), Some(102));
    assert_eq!(ApiErrorKind::InvalidApiVersion.errno(), Some(102));
    assert_eq!(ApiErrorKind::NoUser.errno(), Some(103));
    assert_eq!(payload(413, true).errno(), Some(104));
    assert_eq!(payload(400, false).errno(), None);
    assert_eq!(ApiErrorKind::NoSubscription.errno(), Some(106));
    assert_eq!(ApiErrorKind::InvalidRouterType.errno(), Some(108));
    assert_eq!(ApiErrorKind::VapidError("x".to_string()).errno(), Some(109));
    assert_eq!(ApiErrorKind::TokenHashValidation("x".to_string()).errno(), Some(109));
    assert_eq!(ApiErrorKind::Jwt("x".to_string()).errno(), Some(109));
    assert_eq!(ApiErrorKind::InvalidAuthentication.errno(), Some(109));
    assert_eq!(ApiErrorKind::InvalidLocalAuth("x".to_string()).errno(), Some(109));
    assert_eq!(ApiErrorKind::InvalidEncryption("x".to_string()).errno(), Some(110));
    assert_eq!(ApiErrorKind::NoTTL.errno(), Some(111));
    assert_eq!(ApiErrorKind::LogCheck.errno(), Some(999));
    assert_eq!(ApiErrorKind::General("x".to_string()).errno(), None);
    assert_eq!(ApiErrorKind::Io("x".to_string()).errno(), None);
    assert_eq!(ApiErrorKind::Metrics("x".to_string()).errno(), None);
    assert_eq!(ApiErrorKind::Database("x".to_string()).errno(), None);
    assert_eq!(ApiErrorKind::InvalidRouterToken.errno(), None);
    assert_eq!(ApiErrorKind::RegistrationSecretHash("x".to_string()).errno(), None);
    assert_eq!(endpoint_url().errno(), None);
    assert_eq!(ApiErrorKind::InvalidMessageId.errno(), None);
}

#[test]
fn errno_of_validation_errors() {
    assert_eq!(validation(vec![field(&["114"])]).errno(), Some(114));
    assert_eq!(validation(vec![]).errno(), None);
    assert_eq!(validation(vec![field(&["range"])]).errno(), None);
}

#[test]
fn label_of_each_kind() {
    assert_eq!(payload(413, true).metric_label(), Some("payload_error"));
    assert_eq!(router(500, None, false).metric_label(), Some("router"));
    assert_eq!(validation(vec![]).metric_label(), Some("validation"));
    assert_eq!(ApiErrorKind::InvalidEncryption("x".to_string()).metric_label(), Some("invalid_encryption"));
    assert_eq!(ApiErrorKind::NoTTL.metric_label(), Some("no_ttl"));
    assert_eq!(ApiErrorKind::InvalidRouterType.metric_label(), Some("invalid_router_type"));
    assert_eq!(ApiErrorKind::InvalidRouterToken.metric_label(), Some("invalid_router_token"));
    assert_eq!(ApiErrorKind::InvalidMessageId.metric_label(), Some("invalid_message_id"));
    assert_eq!(ApiErrorKind::VapidError("x".to_string()).metric_label(), Some("vapid_error"));
    assert_eq!(ApiErrorKind::Jwt("x".to_string()).metric_label(), Some("jwt"));
    assert_eq!(ApiErrorKind::TokenHashValidation("x".to_string()).metric_label(), Some("token_hash_validation"));
    assert_eq!(ApiErrorKind::InvalidAuthentication.metric_label(), Some("invalid_authentication"));
    assert_eq!(ApiErrorKind::InvalidLocalAuth("x".to_string()).metric_label(), Some("invalid_local_auth"));
    assert_eq!(ApiErrorKind::InvalidToken.metric_label(), Some("invalid_token"));
    assert_eq!(ApiErrorKind::InvalidApiVersion.metric_label(), Some("invalid_api_version"));
    assert_eq!(ApiErrorKind::NoUser.metric_label(), Some("no_user"));
    assert_eq!(ApiErrorKind::NoSubscription.metric_label(), Some("no_subscription"));
    assert_eq!(ApiErrorKind::LogCheck.metric_label(), Some("log_check"));
    assert_eq!(ApiErrorKind::General("x".to_string()).metric_label(), Some("general"));
    assert_eq!(ApiErrorKind::Io("x".to_string()).metric_label(), Some("io"));
    assert_eq!(ApiErrorKind::Metrics("x".to_string()).metric_label(), Some("metrics"));
    assert_eq!(ApiErrorKind::Database("x".to_string()).metric_label(), Some("database"));
    assert_eq!(endpoint_url().metric_label(), Some("endpoint_url"));
    assert_eq!(ApiErrorKind::RegistrationSecretHash("x".to_string()).metric_label(), Some("registration_secret_hash"));
}

#[test]
fn which_errors_are_reported() {
    assert!(!ApiErrorKind::NoTTL.is_sentry_event());
    assert!(!ApiErrorKind::InvalidEncryption("x".to_string()).is_sentry_event());
    assert!(!ApiErrorKind::VapidError("x".to_string()).is_sentry_event());
    assert!(!ApiErrorKind::Jwt("x".to_string()).is_sentry_event());
    assert!(!ApiErrorKind::TokenHashValidation("x".to_string()).is_sentry_event());
    assert!(!ApiErrorKind::InvalidAuthentication.is_sentry_event());
    assert!(!ApiErrorKind::InvalidLocalAuth("x".to_string()).is_sentry_event());
    assert!(!ApiErrorKind::NoUser.is_sentry_event());
    assert!(!ApiErrorKind::NoSubscription.is_sentry_event());
    assert!(!router(413, Some(104), true).is_sentry_event());
    assert!(router(500, None, false).is_sentry_event());
    assert!(ApiErrorKind::InvalidToken.is_sentry_event());
    assert!(ApiErrorKind::InvalidMessageId.is_sentry_event());
    assert!(ApiErrorKind::LogCheck.is_sentry_event());
    assert!(ApiErrorKind::General("x".to_string()).is_sentry_event());
    assert!(ApiErrorKind::Database("x".to_string()).is_sentry_event());
    assert!(validation(vec![]).is_sentry_event());
    assert!(payload(413, true).is_sentry_event());
}

#[test]
fn message_of_each_kind() {
    assert_eq!(ApiErrorKind::Io("disk".to_string()).message(), "disk");
    assert_eq!(validation(vec![]).message(), "ttl: too small");
    assert_eq!(payload(413, true).message(), "payload");
    assert_eq!(router(500, None, false).message(), "router");
    assert_eq!(ApiErrorKind::TokenHashValidation("x".to_string()).message(), "Error while validating token");
    assert_eq!(ApiErrorKind::RegistrationSecretHash("x".to_string()).message(), "Error while creating secret");
    assert_eq!(endpoint_url().message(), "Error while creating endpoint URL: General error: bad url");
    assert_eq!(ApiErrorKind::Database("down".to_string()).message(), "Database error: down");
    assert_eq!(ApiErrorKind::InvalidToken.message(), "Invalid token");
    assert_eq!(ApiErrorKind::NoUser.message(), "UAID not found");
    assert_eq!(ApiErrorKind::NoSubscription.message(), "No such subscription");
    assert_eq!(ApiErrorKind::InvalidEncryption("bad salt".to_string()).message(), "bad salt");
    assert_eq!(ApiErrorKind::InvalidApiVersion.message(), "Invalid API version");
    assert_eq!(ApiErrorKind::NoTTL.message(), "Missing TTL value");
    assert_eq!(ApiErrorKind::InvalidRouterType.message(), "Invalid router type");
    assert_eq!(ApiErrorKind::InvalidRouterToken.message(), "Invalid router token");
    assert_eq!(ApiErrorKind::InvalidMessageId.message(), "Invalid message ID");
    assert_eq!(ApiErrorKind::InvalidAuthentication.message(), "Invalid Authentication");
    assert_eq!(ApiErrorKind::InvalidLocalAuth("x".to_string()).message(), "Invalid Local Auth x");
    assert_eq!(ApiErrorKind::General("oops".to_string()).message(), "General error oops");
    assert_eq!(ApiErrorKind::LogCheck.message(), "ERROR:Success");
}

#[test]
fn shared_kind_of_each_kind() {
    let endpoint = |name: &'static str, message: &str| ApcErrorKind::EndpointError(name, message.to_string());
    assert_eq!(ApiErrorKind::General("g".to_string()).into_shared(), ApcErrorKind::GeneralError("g".to_string()));
    assert_eq!(ApiErrorKind::Io("i".to_string()).into_shared(), ApcErrorKind::Io("i".to_string()));
    assert_eq!(ApiErrorKind::Metrics("m".to_string()).into_shared(), ApcErrorKind::MetricError("m".to_string()));
    assert_eq!(validation(vec![]).into_shared(), endpoint("Validation", "ttl: too small"));
    assert_eq!(payload(413, true).into_shared(), ApcErrorKind::PayloadError("payload".to_string()));
    assert_eq!(ApiErrorKind::VapidError("v".to_string()).into_shared(), endpoint("Vapid", "v"));
    assert_eq!(router(500, None, false).into_shared(), endpoint("Router", "router"));
    assert_eq!(ApiErrorKind::Jwt("j".to_string()).into_shared(), endpoint("JWT", "j"));
    assert_eq!(
        ApiErrorKind::TokenHashValidation("t".to_string()).into_shared(),
        ApcErrorKind::TokenHashValidation("t".to_string())
    );
    assert_eq!(
        ApiErrorKind::RegistrationSecretHash("r".to_string()).into_shared(),
        ApcErrorKind::RegistrationSecretHash("r".to_string())
    );
    assert_eq!(endpoint_url().into_shared(), ApcErrorKind::GeneralError("bad url".to_string()));
    assert_eq!(ApiErrorKind::Database("d".to_string()).into_shared(), ApcErrorKind::DatabaseError("d".to_string()));
    assert_eq!(ApiErrorKind::InvalidToken.into_shared(), endpoint("InvalidToken", ""));
    assert_eq!(ApiErrorKind::NoUser.into_shared(), endpoint("NoUser", ""));
    assert_eq!(ApiErrorKind::NoSubscription.into_shared(), endpoint("NoSubscription", ""));
    assert_eq!(ApiErrorKind::InvalidEncryption("e".to_string()).into_shared(), endpoint("InvalidEncryption", "e"));
    assert_eq!(ApiErrorKind::InvalidApiVersion.into_shared(), endpoint("InvalidApiVersion", ""));
    assert_eq!(ApiErrorKind::NoTTL.into_shared(), endpoint("NoTTL", ""));
    assert_eq!(ApiErrorKind::InvalidRouterType.into_shared(), endpoint("InvalidRouterType", ""));
    assert_eq!(ApiErrorKind::InvalidRouterToken.into_shared(), endpoint("InvalidRouterToken", ""));
    assert_eq!(ApiErrorKind::InvalidMessageId.into_shared(), endpoint("InvalidMessageId", ""));
    assert_eq!(ApiErrorKind::InvalidAuthentication.into_shared(), endpoint("InvalidAuthentication", ""));
    assert_eq!(ApiErrorKind::InvalidLocalAuth("l".to_string()).into_shared(), endpoint("InvalidLocalAuth", "l"));
    assert_eq!(ApiErrorKind::LogCheck.into_shared(), endpoint("LogCheck", "testing 1,2,3"));
}

#[test]
fn parse_code_reads_decimal_numbers() {
    assert_eq!(parse_code("0"), Some(0));
    assert_eq!(parse_code("104"), Some(104));
    assert_eq!(parse_code("007"), Some(7));
    assert_eq!(parse_code("+42"), Some(42));
    assert_eq!(parse_code(&usize::MAX.to_string()), Some(usize::MAX));
}

#[test]
fn parse_code_refuses_what_is_no_number() {
    assert_eq!(parse_code(""), None);
    assert_eq!(parse_code("+"), None);
    assert_eq!(parse_code("-1"), None);
    assert_eq!(parse_code("++1"), None);
    assert_eq!(parse_code("1+"), None);
    assert_eq!(parse_code("12a"), None);
    assert_eq!(parse_code("a12"), None);
    assert_eq!(parse_code(" 12"), None);
    assert_eq!(parse_code("12 "), None);
    assert_eq!(parse_code("1_000"), None);
    assert_eq!(parse_code("range"), None);
    assert_eq!(parse_code("\u{663}"), None);
    assert_eq!(parse_code("18446744073709551616"), None);
    assert_eq!(parse_code("99999999999999999999999999"), None);
    assert_eq!(parse_code("99999999999999999999999999x"), None);
}

#[test]
fn parse_code_agrees_with_std() {
    for text in ["", "+", "0", "+0", "1", "104", "0104", "-0", "1e3", "0x10", "18446744073709551615", "18446744073709551616"] {
        assert_eq!(parse_code(text), text.parse::<usize>().ok(), "on {:?}", text);
    }
}

#[test]
fn first_errno_in_walk_order() {
    let e = errors(vec![field(&["range", "114", "115"]), field(&["116"])]);
    assert_eq!(errno_from_validation_errors(&e), Some(114));
    let e = errors(vec![field(&["length"]), field(&["113"])]);
    assert_eq!(errno_from_validation_errors(&e), Some(113));
    assert_eq!(errno_from_validation_errors(&errors(vec![])), None);
    assert_eq!(errno_from_validation_errors(&errors(vec![field(&[])])), None);
}

#[test]
fn first_errno_in_nested_structures() {
    let inner = errors(vec![field(&["regex"]), field(&["120"])]);
    let e = errors(vec![ValidationErrorsKind::Struct(Box::new(inner)), field(&["121"])]);
    assert_eq!(errno_from_validation_errors(&e), Some(120));

    let empty_inner = errors(vec![field(&["regex"])]);
    let e = errors(vec![ValidationErrorsKind::Struct(Box::new(empty_inner)), field(&["121"])]);
    assert_eq!(errno_from_validation_errors(&e), Some(121));
}

#[test]
fn first_errno_in_lists() {
    let items = vec![errors(vec![field(&["x"])]), errors(vec![field(&["130", "131"])]), errors(vec![field(&["132"])])];
    let e = errors(vec![field(&["y"]), ValidationErrorsKind::List(items), field(&["133"])]);
    assert_eq!(errno_from_validation_errors(&e), Some(130));

    let e = errors(vec![ValidationErrorsKind::List(vec![]), field(&["133"])]);
    assert_eq!(errno_from_validation_errors(&e), Some(133));

    let deep = errors(vec![ValidationErrorsKind::List(vec![errors(vec![ValidationErrorsKind::Struct(Box::new(
        errors(vec![field(&["140"])]),
    ))])])]);
    assert_eq!(errno_from_validation_errors(&deep), Some(140));
}
