use shippingservice::pricing::{
    read_reply, request_quote, HttpMethod, PricingFailure, PricingReply, ResponseBody,
};
use shippingservice::quote::{create_quote_from_count, create_quote_from_float, Quote};
use shippingservice::shop::Money;
use shippingservice::text::{append_decimal, append_signed_decimal};
use shippingservice::trace_context::SpanContext;
use shippingservice::tracking::create_tracking_id;
use uuid::{Uuid, Variant, Version};

fn quote_of(total: f64) -> Quote {
    create_quote_from_float(total.to_bits())
}

fn number(status: u16, total: f64) -> PricingReply {
    PricingReply::Answered {
        status,
        body: ResponseBody::Number(total.to_bits()),
    }
}

fn malformed(status: u16, description: &str) -> PricingReply {
    PricingReply::Answered {
        status,
        body: ResponseBody::Malformed(description.to_string()),
    }
}

#[test]
fn quote_splits_a_total_into_dollars_and_cents() {
    assert_eq!(quote_of(0.0), Quote { dollars: 0, cents: 0 });
    assert_eq!(quote_of(8.99), Quote { dollars: 8, cents: 99 });
    assert_eq!(quote_of(17.98), Quote { dollars: 17, cents: 98 });
    assert_eq!(quote_of(26.97), Quote { dollars: 26, cents: 97 });
    assert_eq!(quote_of(100.0), Quote { dollars: 100, cents: 0 });
    assert_eq!(quote_of(0.01), Quote { dollars: 0, cents: 1 });
    assert_eq!(quote_of(1234567.5), Quote { dollars: 1234567, cents: 50 });
}

#[test]
fn quote_cents_follow_double_precision_rounding() {
    // 0.29 * 100 is 28.999999999999996 in double precision.
    assert_eq!(quote_of(0.29), Quote { dollars: 0, cents: 28 });
    // 26.97 lies just below 26.97 as a double, yet the product rounds to 2697.
    assert_eq!(quote_of(26.97), Quote { dollars: 26, cents: 97 });
    assert_eq!(quote_of(1.15), Quote { dollars: 1, cents: 14 });
}

#[test]
fn quote_cents_are_taken_of_the_whole_product() {
    // 30000000.25 * 100 is 3000000025 exactly, beyond the range of 32 bits.
    assert_eq!(quote_of(30000000.25), Quote { dollars: 30000000, cents: 25 });
    assert_eq!(quote_of(21474836.47), Quote { dollars: 21474836, cents: 47 });
    assert_eq!(quote_of(21474836.48), Quote { dollars: 21474836, cents: 48 });
    assert_eq!(quote_of(123456789012.34), Quote { dollars: 123456789012, cents: 34 });
    assert_eq!(quote_of(1e12), Quote { dollars: 1_000_000_000_000, cents: 0 });
    // 2388748 items at 8.99 are the first to cost more than 21474836.47.
    assert_eq!(quote_of(2388748.0 * 8.99), Quote { dollars: 21474844, cents: 52 });
}

#[test]
fn quote_dollars_stop_at_the_largest_integer() {
    assert_eq!(quote_of(3.0e18), Quote { dollars: 3_000_000_000_000_000_000, cents: 0 });
    assert_eq!(quote_of(9.3e18), Quote { dollars: i64::MAX, cents: 0 });
    assert_eq!(quote_of(f64::MAX), Quote { dollars: i64::MAX, cents: 56 });
}

#[test]
fn quote_of_zero_is_zero() {
    assert_eq!(quote_of(0.0), Quote { dollars: 0, cents: 0 });
    assert_eq!(quote_of(-0.0), Quote { dollars: 0, cents: 0 });
    assert_eq!(quote_of(5e-324), Quote { dollars: 0, cents: 0 });
    assert_eq!(quote_of(0.009999999999999998), Quote { dollars: 0, cents: 0 });
}

#[test]
fn default_quote_is_zero() {
    assert_eq!(Quote::default(), Quote { dollars: 0, cents: 0 });
}

#[test]
fn quote_text_joins_dollars_and_cents_with_a_full_stop() {
    assert_eq!(Quote { dollars: 8, cents: 99 }.to_string(), "8.99");
    assert_eq!(Quote { dollars: 26, cents: 97 }.to_string(), "26.97");
    assert_eq!(Quote { dollars: 0, cents: 0 }.to_string(), "0.0");
    assert_eq!(Quote { dollars: 12, cents: 5 }.to_string(), "12.5");
    assert_eq!(Quote { dollars: -9, cents: -99 }.to_string(), "-9.-99");
    assert_eq!(
        Quote { dollars: i64::MIN, cents: i32::MIN }.to_string(),
        "-9223372036854775808.-2147483648"
    );
    assert_eq!(
        Quote { dollars: i64::MAX, cents: i32::MAX }.to_string(),
        "9223372036854775807.2147483647"
    );
}

#[test]
fn decimal_text_of_numbers() {
    let mut out = String::from("n=");
    append_decimal(&mut out, 0);
    assert_eq!(out, "n=0");
    let mut out = String::new();
    append_decimal(&mut out, 10);
    append_decimal(&mut out, 907);
    append_decimal(&mut out, u64::MAX);
    assert_eq!(out, "1090718446744073709551615");
    let mut out = String::new();
    append_signed_decimal(&mut out, -1);
    append_signed_decimal(&mut out, 0);
    append_signed_decimal(&mut out, i64::MIN);
    assert_eq!(out, "-10-9223372036854775808");
}

#[test]
fn money_has_ten_million_nanos_per_cent() {
    for cents in 0..100 {
        let money = Money::from_quote(&Quote { dollars: 3, cents });
        assert_eq!(money.currency_code, "USD");
        assert_eq!(money.units, 3);
        assert_eq!(money.nanos, cents * 10_000_000);
        assert!(0 <= money.nanos && money.nanos < 1_000_000_000);
    }
    assert_eq!(Money::from_quote(&Quote { dollars: 8, cents: 99 }).nanos, 990_000_000);
}

#[test]
fn quote_from_count_gives_the_quote_with_its_annotations() {
    let computed = create_quote_from_count(3, number(200, 26.97)).unwrap();
    assert_eq!(computed.quote, Quote { dollars: 26, cents: 97 });
    assert_eq!(computed.annotations.len(), 3);
}

#[test]
fn quote_from_count_turns_each_failure_into_an_unknown_error() {
    let status =
        create_quote_from_count(3, PricingReply::TransportFailed("timed out".to_string()))
            .unwrap_err();
    assert_eq!(status.code.number(), 2);
    assert_eq!(status.message, "timed out");
    let status = create_quote_from_count(3, malformed(200, "invalid float literal")).unwrap_err();
    assert_eq!(status.code.number(), 2);
    assert_eq!(status.message, "invalid float literal");
    let status = create_quote_from_count(3, number(200, -1.0)).unwrap_err();
    assert_eq!(status.code.number(), 2);
    assert_eq!(status.message, "total price is not a finite, non-negative number");
    let status = create_quote_from_count(3, number(500, 26.97)).unwrap_err();
    assert_eq!(status.code.number(), 2);
    assert_eq!(status.message, "pricing service answered with status 500");
}

#[test]
fn replies_are_read_into_totals_or_failures() {
    assert_eq!(read_reply(number(200, 8.99)), Ok(8.99_f64.to_bits()));
    assert_eq!(read_reply(number(200, 0.0)), Ok(0));
    assert_eq!(read_reply(number(200, -0.0)), Ok((-0.0_f64).to_bits()));
    assert_eq!(read_reply(number(200, f64::MAX)), Ok(f64::MAX.to_bits()));
    assert_eq!(
        read_reply(PricingReply::TransportFailed("connection refused".to_string())),
        Err(PricingFailure::Unavailable("connection refused".to_string()))
    );
    assert_eq!(
        read_reply(malformed(200, "invalid float literal")),
        Err(PricingFailure::InvalidResponse("invalid float literal".to_string()))
    );
    for total in [f64::NAN, f64::INFINITY, f64::NEG_INFINITY, -5e-324, -1.0] {
        assert_eq!(
            read_reply(number(200, total)),
            Err(PricingFailure::InvalidResponse(
                "total price is not a finite, non-negative number".to_string()
            ))
        );
    }
    assert_eq!(
        PricingFailure::Unavailable("down".to_string()).into_description(),
        "down"
    );
}

#[test]
fn a_status_that_is_no_success_makes_the_service_unavailable() {
    for status in [0_u16, 100, 199, 300, 301, 404, 500, 503, u16::MAX] {
        let description = format!("pricing service answered with status {}", status);
        assert_eq!(
            read_reply(number(status, 8.99)),
            Err(PricingFailure::Unavailable(description.clone())),
        );
        assert_eq!(
            read_reply(malformed(status, "invalid float literal")),
            Err(PricingFailure::Unavailable(description)),
        );
    }
    for status in [200_u16, 201, 204, 299] {
        assert_eq!(read_reply(number(status, 8.99)), Ok(8.99_f64.to_bits()));
    }
}

#[test]
fn quote_request_is_a_json_post_to_the_quote_path() {
    let context = SpanContext {
        trace_id: 0,
        span_id: 0,
        trace_flags: 0,
        trace_state: String::new(),
    };
    let request = request_quote("http://localhost:8090", u32::MAX, &context);
    assert_eq!(request.method, HttpMethod::Post);
    assert_eq!(request.content_type, "application/json");
    assert_eq!(request.url, "http://localhost:8090/getquote");
    assert_eq!(request.body, "{\"numberOfItems\":4294967295}");
    assert_eq!(request.headers, Vec::new());
}

#[test]
fn tracking_id_is_a_random_uuid_in_lower_case() {
    for _ in 0..200 {
        let id = create_tracking_id();
        let parsed = Uuid::parse_str(&id).unwrap();
        assert_eq!(parsed.get_version(), Some(Version::Random));
        assert_eq!(parsed.get_variant(), Variant::RFC4122);
        assert_eq!(id.len(), 36);
        assert_eq!(id, id.to_lowercase());
        assert_eq!(id, parsed.hyphenated().to_string());
        let bytes = id.as_bytes();
        assert_eq!(bytes[14], b'4');
        assert!(matches!(bytes[19], b'8' | b'9' | b'a' | b'b'));
    }
}
