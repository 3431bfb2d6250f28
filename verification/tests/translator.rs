use finance_chat::decimal::{fmt_cents, fmt_u64};
use finance_chat::translator::{translate, IncomingQuery, MAX_OUTPUT_TOKENS, TEMPERATURE_HUNDREDTHS};

#[test]
fn fmt_u64_exact_values() {
    assert_eq!(fmt_u64(0), "0");
    assert_eq!(fmt_u64(7), "7");
    assert_eq!(fmt_u64(10), "10");
    assert_eq!(fmt_u64(401), "401");
    assert_eq!(fmt_u64(u64::MAX), "18446744073709551615");
}

#[test]
fn fmt_cents_exact_values() {
    assert_eq!(fmt_cents(0), "0.00");
    assert_eq!(fmt_cents(5), "0.05");
    assert_eq!(fmt_cents(50), "0.50");
    assert_eq!(fmt_cents(100), "1.00");
    assert_eq!(fmt_cents(123456), "1234.56");
    assert_eq!(fmt_cents(-1), "-0.01");
    assert_eq!(fmt_cents(-50), "-0.50");
    assert_eq!(fmt_cents(-123456), "-1234.56");
}

#[test]
fn fmt_cents_extremes() {
    assert_eq!(fmt_cents(i64::MAX), "92233720368547758.07");
    assert_eq!(fmt_cents(i64::MIN), "-92233720368547758.08");
}

#[test]
fn translate_builds_system_and_user_messages() {
    let q = IncomingQuery {
        question: "How can I save money?".to_string(),
        food_total_cents: 1234,
        rent_total_cents: 80000,
        entertainment_total_cents: 5550,
    };
    let r = translate(&q);
    assert_eq!(r.model, "gpt-4o-mini");
    assert_eq!(r.messages.len(), 2);
    assert_eq!(r.messages[0].role, "system");
    assert_eq!(
        r.messages[0].content,
        "You are a personal finance assistant. You have access to the user's spending data: \
         Food: $12.34, Rent: $800.00, Entertainment: $55.50. Use this information to provide \
         personalized advice when relevant. Be conversational and helpful."
    );
    assert_eq!(r.messages[1].role, "user");
    assert_eq!(r.messages[1].content, "How can I save money?");
}

#[test]
fn translate_formats_totals_with_two_decimal_digits() {
    let q = IncomingQuery {
        question: "q".to_string(),
        food_total_cents: 900,
        rent_total_cents: -75,
        entertainment_total_cents: 0,
    };
    let r = translate(&q);
    let system = &r.messages[0].content;
    assert!(system.contains("$9.00"));
    assert!(system.contains("$-0.75"));
    assert!(system.contains("$0.00"));
}

#[test]
fn translate_fixes_generation_parameters() {
    let quiet = IncomingQuery {
        question: String::new(),
        food_total_cents: 0,
        rent_total_cents: 0,
        entertainment_total_cents: 0,
    };
    let loud = IncomingQuery {
        question: "a very long question that changes nothing about the parameters".to_string(),
        food_total_cents: i64::MAX,
        rent_total_cents: i64::MIN,
        entertainment_total_cents: -1,
    };
    for q in [quiet, loud] {
        let r = translate(&q);
        assert_eq!(r.max_output_tokens, 500);
        assert_eq!(r.temperature_hundredths, 70);
        assert_eq!(r.max_output_tokens, MAX_OUTPUT_TOKENS);
        assert_eq!(r.temperature_hundredths, TEMPERATURE_HUNDREDTHS);
    }
}
