use fiat_verifier::paypal::{
    is_attested, Amount, Capture, Link, Order, Payments, PaypalError, PaypalProcessor,
    PurchaseUnit,
};

fn link(rel: &str, href: &str) -> Link {
    Link {
        rel: rel.into(),
        href: href.into(),
    }
}

fn capture(id: &str, status: &str, amount: Option<Amount>) -> Capture {
    Capture {
        id: id.into(),
        status: Some(status.into()),
        amount,
        custom_id: None,
    }
}

#[test]
fn approval_url_prefers_payer_action() {
    let order = Order {
        id: "ORD1".into(),
        status: Some("CREATED".into()),
        links: vec![
            link(
                "self",
                "https://api.sandbox.paypal.com/v2/checkout/orders/ORD1",
            ),
            link("approve", "https://sandbox.paypal.com/approve"),
            link("payer-action", "https://sandbox.paypal.com/payer-action"),
        ],
        purchase_units: vec![],
    };
    assert_eq!(
        order.approval_url(),
        Some("https://sandbox.paypal.com/payer-action")
    );
}

#[test]
fn approval_url_falls_back_to_approve() {
    let mut order = Order {
        id: "ORD1".into(),
        status: None,
        links: vec![link("self", "https://x.test"), link("approve", "https://a.test")],
        purchase_units: vec![],
    };
    assert_eq!(order.approval_url(), Some("https://a.test"));
    order.links.pop();
    assert_eq!(order.approval_url(), None);
}

#[test]
fn completed_capture_requires_capture_level_completed() {
    let order = Order {
        id: "ORD1".into(),
        status: Some("COMPLETED".into()),
        links: vec![],
        purchase_units: vec![PurchaseUnit {
            payments: Some(Payments {
                captures: vec![
                    capture("CAP1", "PENDING", None),
                    capture(
                        "CAP2",
                        "COMPLETED",
                        Some(Amount {
                            currency_code: "USD".into(),
                            value: "19.99".into(),
                        }),
                    ),
                ],
            }),
        }],
    };
    assert_eq!(order.completed_capture().unwrap().id, "CAP2");
}

#[test]
fn completed_capture_is_the_first_of_all_units() {
    let unit = |captures: Vec<Capture>| PurchaseUnit {
        payments: Some(Payments { captures }),
    };
    let order = Order {
        id: "ORD1".into(),
        status: None,
        links: vec![],
        purchase_units: vec![
            PurchaseUnit { payments: None },
            unit(vec![capture("A", "DECLINED", None)]),
            unit(vec![capture("B", "COMPLETED", None)]),
            unit(vec![capture("C", "COMPLETED", None)]),
        ],
    };
    assert_eq!(order.completed_capture().unwrap().id, "B");
    let none = Order {
        id: "ORD2".into(),
        status: Some("COMPLETED".into()),
        links: vec![],
        purchase_units: vec![unit(vec![capture("A", "PENDING", None)])],
    };
    assert!(none.completed_capture().is_none());
}

#[test]
fn only_success_attests_a_delivery() {
    assert!(is_attested("SUCCESS"));
    assert!(!is_attested("FAILURE"));
    assert!(!is_attested("success"));
}

#[test]
fn error_answers_are_reported() {
    assert_eq!(PaypalProcessor::parse(201, "{}".into()).unwrap(), "{}");
    match PaypalProcessor::parse(422, "no".into()) {
        Err(PaypalError::Api { status, body }) => {
            assert_eq!(status, 422);
            assert_eq!(body, "no");
        }
        other => panic!("{other:?}"),
    }
}
