use akinator::{EngineError, Error, ErrorKind, UpdateFault};

#[test]
fn named_failures_keep_their_kind_and_have_a_fixed_message() {
    let table = [
        (
            EngineError::CantGoBackAnyFurther,
            ErrorKind::CantGoBackAnyFurther,
            "Cannot go back any more questions, we are already on the 0th question",
        ),
        (EngineError::InvalidAnswer, ErrorKind::InvalidAnswer, "Invalid answer string"),
        (EngineError::InvalidLanguage, ErrorKind::InvalidLanguage, "Invalid language string"),
        (
            EngineError::ConnectionError,
            ErrorKind::ConnectionError,
            "Failed to connect to akinator servers",
        ),
        (
            EngineError::NoMoreQuestions,
            ErrorKind::NoMoreQuestions,
            "The akinator has no more questions to ask",
        ),
        (EngineError::TimeoutError, ErrorKind::TimeoutError, "The akinator session timed out"),
        (
            EngineError::TechnicalError,
            ErrorKind::TechnicalError,
            "An unknown technical error occured within the akinator servers",
        ),
        (
            EngineError::ServersDown,
            ErrorKind::ServersDown,
            "The requested akinator servers are down",
        ),
    ];
    for (failure, kind, message) in table {
        assert_eq!(failure.kind(), kind);
        assert_eq!(failure.message(), message);
        let error = Error::AkiError(failure);
        assert_eq!(error.kind(), kind);
        assert_eq!(error.message(), message);
    }
}

#[test]
fn missing_data_is_a_runtime_failure_in_the_words_of_the_engine() {
    let error = Error::AkiError(EngineError::NoDataFound);
    assert_eq!(error.kind(), ErrorKind::RuntimeError);
    assert_eq!(
        error.message(),
        "Failed to find the required information needed to start the game"
    );
    assert_eq!(error.message(), akinator_rs::error::Error::NoDataFound.to_string());
}

#[test]
fn a_missing_field_is_a_runtime_failure_in_the_words_of_the_engine() {
    let update = akinator_rs::error::Error::UpdateInfoError(
        akinator_rs::error::UpdateInfoError::MissingData,
    )
    .to_string();
    assert_eq!(update, "Failed to update data fields: Missing an expected json field");
    let error =
        Error::AkiError(EngineError::UpdateInfoError(UpdateFault::MissingData, update.clone()));
    assert_eq!(error.kind(), ErrorKind::RuntimeError);
    assert_eq!(error.message(), update);
}

#[test]
fn a_field_that_holds_no_number_is_a_value_failure() {
    let cause = "abc".parse::<f32>().unwrap_err();
    let rendered = akinator_rs::error::Error::UpdateInfoError(
        akinator_rs::error::UpdateInfoError::from(cause),
    )
    .to_string();
    assert_eq!(rendered, "Failed to update data fields: Failed to parse data: invalid float literal");
    let error = Error::AkiError(EngineError::UpdateInfoError(
        UpdateFault::ParseFloatError,
        rendered.clone(),
    ));
    assert_eq!(error.kind(), ErrorKind::ValueError);
    assert_eq!(error.message(), rendered);

    let error = Error::AkiError(EngineError::UpdateInfoError(
        UpdateFault::ParseIntError,
        "Failed to update data fields: Faield to parse data: invalid digit found in string"
            .to_string(),
    ));
    assert_eq!(error.kind(), ErrorKind::ValueError);
}

#[test]
fn a_round_trip_that_failed_is_a_connection_failure() {
    let error = Error::AkiError(EngineError::RequestError("RequestError: refused".into()));
    assert_eq!(error.kind(), ErrorKind::ConnectionError);
    assert_eq!(error.message(), "RequestError: refused");
    let inner = EngineError::RequestError("RequestError: dns error".into());
    assert_eq!(inner.kind(), ErrorKind::ConnectionError);
    assert_eq!(inner.message(), "RequestError: dns error");
}

#[test]
fn a_timestamp_that_could_not_be_had_is_a_timeout() {
    let error = Error::AkiError(EngineError::TimeError("Failed to get current time: x".into()));
    assert_eq!(error.kind(), ErrorKind::TimeoutError);
    assert_eq!(error.message(), "Failed to get current time: x");
    let inner = EngineError::TimeError("Failed to get current time: y".into());
    assert_eq!(inner.kind(), ErrorKind::TimeoutError);
}

#[test]
fn a_step_too_large_to_read_is_rendered_by_the_engine_in_these_words() {
    let cause = "340282366920938463463374607431768211456".parse::<usize>().unwrap_err();
    let rendered = akinator_rs::error::Error::UpdateInfoError(
        akinator_rs::error::UpdateInfoError::from(cause),
    )
    .to_string();
    assert_eq!(
        rendered,
        "Failed to update data fields: Faield to parse data: number too large to fit in target type"
    );
    let error =
        Error::AkiError(EngineError::UpdateInfoError(UpdateFault::ParseIntError, rendered));
    assert_eq!(error.kind(), ErrorKind::ValueError);
}

#[test]
fn an_unreadable_body_is_a_value_failure() {
    let error = Error::AkiError(EngineError::JsonParseError(
        "Failed to parse JSON: expected value at line 1 column 1".to_string(),
    ));
    assert_eq!(error.kind(), ErrorKind::ValueError);
    assert_eq!(error.message(), "Failed to parse JSON: expected value at line 1 column 1");
}

#[test]
fn a_poisoned_lock_is_a_runtime_failure() {
    assert_eq!(Error::PoisonError.kind(), ErrorKind::RuntimeError);
    assert_eq!(Error::PoisonError.message(), "Failed to read attribute values");
}

#[test]
fn an_invalid_confidence_is_a_value_failure() {
    assert_eq!(Error::InvalidConfidence.kind(), ErrorKind::ValueError);
    assert_eq!(Error::InvalidConfidence.message(), "invalid float literal");
    assert_eq!(Error::InvalidConfidence.message(), "abc".parse::<f32>().unwrap_err().to_string());
}

#[test]
fn a_copy_of_a_failure_equals_it() {
    let failures = [
        Error::PoisonError,
        Error::InvalidConfidence,
        Error::AkiError(EngineError::NoDataFound),
        Error::AkiError(EngineError::TimeError("Failed to get current time: x".to_string())),
        Error::AkiError(EngineError::JsonParseError("Failed to parse JSON: y".to_string())),
    ];
    for failure in failures {
        assert_eq!(failure.clone(), failure);
        assert_eq!(failure.clone().message(), failure.message());
    }
}
