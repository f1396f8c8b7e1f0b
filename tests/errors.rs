use orb_billing::{
    api_error, error_for_status, is_success, resolve_customer, ApiError, CustomerResponse, Error,
    ErrorBody,
};

fn body(title: &str) -> ErrorBody {
    ErrorBody {
        title: title.to_string(),
        detail: Some("more".to_string()),
        validation_errors: vec!["name is required".to_string()],
    }
}

#[test]
fn undecodable_error_body_falls_back() {
    let e = api_error(502, None);
    assert_eq!(e.status_code, 502);
    assert_eq!(e.title, "decoding failure");
    assert_eq!(e.detail.as_deref(), Some("unable to decode API response as JSON"));
    assert!(e.validation_errors.is_empty());
}

#[test]
fn structured_error_body_is_kept() {
    let e = api_error(400, Some(body("Bad request")));
    assert_eq!(
        e,
        ApiError {
            status_code: 400,
            title: "Bad request".to_string(),
            detail: Some("more".to_string()),
            validation_errors: vec!["name is required".to_string()],
        }
    );
}

#[test]
fn idempotency_conflict_surfaces_as_409() {
    match error_for_status(409, Some(body("Idempotency key conflict"))) {
        Some(Error::Api(e)) => {
            assert_eq!(e.status_code, 409);
            assert_eq!(e.title, "Idempotency key conflict");
        }
        other => panic!("expected an API error, got {other:?}"),
    }
}

#[test]
fn not_found_is_an_api_error() {
    match error_for_status(404, None) {
        Some(Error::Api(e)) => {
            assert_eq!(e.status_code, 404);
            assert_eq!(e.title, "decoding failure");
        }
        other => panic!("expected an API error, got {other:?}"),
    }
}

#[test]
fn success_statuses() {
    assert!(is_success(200));
    assert!(is_success(204));
    assert!(is_success(299));
    assert!(!is_success(199));
    assert!(!is_success(300));
    assert!(!is_success(429));
    assert!(error_for_status(201, None).is_none());
}

#[test]
fn api_error_converts_into_error() {
    let e = api_error(429, None);
    match Error::from(e.clone()) {
        Error::Api(inner) => assert_eq!(inner, e),
        other => panic!("expected an API error, got {other:?}"),
    }
}

#[test]
fn customer_records_are_kept() {
    let r: CustomerResponse<u32> = CustomerResponse::Normal(5);
    assert!(matches!(resolve_customer(r), Ok(Some(5))));
}

#[test]
fn deleted_customers_are_skipped() {
    let r: CustomerResponse<u32> = CustomerResponse::Deleted { id: "cus_1".to_string(), deleted: true };
    assert!(matches!(resolve_customer(r), Ok(None)));
}

#[test]
fn tombstone_not_deleted_is_unexpected() {
    let r: CustomerResponse<u32> =
        CustomerResponse::Deleted { id: "cus_1".to_string(), deleted: false };
    match resolve_customer(r) {
        Err(Error::UnexpectedResponse { detail }) => assert_eq!(
            detail,
            "customer cus_1 used deleted response shape but deleted field was `false`"
        ),
        other => panic!("expected an unexpected-response error, got {other:?}"),
    }
}
