use saros_analytics_backend::json::{analytics_to_json, append_date, health_to_json, position_to_json, summary_to_json};
use saros_analytics_backend::model::{AnalyticsData, Date, HealthStatus, PortfolioSummary, Position, Status};
use saros_analytics_backend::text::{append_digits, append_fixed2, str_eq};

fn render_fixed2(n: i64) -> String {
    let mut s = String::new();
    append_fixed2(&mut s, n);
    s
}

fn render_digits(n: u64) -> String {
    let mut s = String::new();
    append_digits(&mut s, n);
    s
}

#[test]
fn fixed2_renders_like_a_float() {
    assert_eq!(render_fixed2(1250050), "12500.5");
    assert_eq!(render_fixed2(12575), "125.75");
    assert_eq!(render_fixed2(-230), "-2.3");
    assert_eq!(render_fixed2(560000), "5600.0");
    assert_eq!(render_fixed2(120), "1.2");
    assert_eq!(render_fixed2(-80), "-0.8");
    assert_eq!(render_fixed2(0), "0.0");
    assert_eq!(render_fixed2(5), "0.05");
    assert_eq!(render_fixed2(30), "0.3");
    assert_eq!(render_fixed2(-1), "-0.01");
    assert_eq!(render_fixed2(i64::MAX), "92233720368547758.07");
}

#[test]
fn digits_render_decimal() {
    assert_eq!(render_digits(0), "0");
    assert_eq!(render_digits(7), "7");
    assert_eq!(render_digits(10), "10");
    assert_eq!(render_digits(9876543210), "9876543210");
}

#[test]
fn dates_render_iso_padded() {
    let mut s = String::new();
    append_date(&mut s, &Date { year: 2024, month: 1, day: 7 });
    assert_eq!(s, "2024-01-07");
    let mut t = String::new();
    append_date(&mut t, &Date { year: 2024, month: 12, day: 31 });
    assert_eq!(t, "2024-12-31");
}

#[test]
fn position_encodes_every_field() {
    let p = Position {
        id: String::from("42"),
        pair: String::from("A/B"),
        liquidity: 100,
        fees_earned: -5,
        impermanent_loss: 0,
        apr: 999999,
        status: Status::Inactive,
    };
    assert_eq!(
        position_to_json(&p),
        "{\"id\":\"42\",\"pair\":\"A/B\",\"liquidity\":1.0,\"fees_earned\":-0.05,\"impermanent_loss\":0.0,\"apr\":9999.99,\"status\":\"inactive\"}"
    );
}

#[test]
fn summary_encodes_every_field() {
    let s = PortfolioSummary {
        total_liquidity: 2640075,
        total_fees_earned: 22775,
        average_apr: 1540,
        total_positions: 3,
    };
    assert_eq!(
        summary_to_json(&s),
        "{\"total_liquidity\":26400.75,\"total_fees_earned\":227.75,\"average_apr\":15.4,\"total_positions\":3}"
    );
}

#[test]
fn analytics_encodes_every_field() {
    let d = AnalyticsData {
        date: Date { year: 2024, month: 1, day: 1 },
        liquidity: 1000000,
        fees: 5000,
        volume: 2500000,
    };
    assert_eq!(
        analytics_to_json(&d),
        "{\"date\":\"2024-01-01\",\"liquidity\":10000.0,\"fees\":50.0,\"volume\":25000.0}"
    );
}

#[test]
fn string_content_is_escaped() {
    let h = HealthStatus {
        status: String::from("a\"b\\c\nd\u{1}"),
        service: String::from("tab\there"),
    };
    let body = health_to_json(&h);
    assert_eq!(body, "{\"status\":\"a\\\"b\\\\c\\nd\\u0001\",\"service\":\"tab\\there\"}");
    let v: serde_json::Value = serde_json::from_str(&body).unwrap();
    assert_eq!(v["status"].as_str(), Some("a\"b\\c\nd\u{1}"));
    assert_eq!(v["service"].as_str(), Some("tab\there"));
}

#[test]
fn escaped_positions_stay_valid_json() {
    let p = Position {
        id: String::from("x\"y"),
        pair: String::from("new\nline"),
        liquidity: 0,
        fees_earned: 0,
        impermanent_loss: 0,
        apr: 0,
        status: Status::Active,
    };
    let body = position_to_json(&p);
    let v: serde_json::Value = serde_json::from_str(&body).unwrap();
    assert_eq!(v["id"].as_str(), Some("x\"y"));
    assert_eq!(v["pair"].as_str(), Some("new\nline"));
}

#[test]
fn str_eq_compares_characters() {
    assert!(str_eq("", ""));
    assert!(str_eq("/health", "/health"));
    assert!(!str_eq("/health", "/healt"));
    assert!(!str_eq("/healt", "/health"));
    assert!(!str_eq("/health", "/heälth"));
    assert!(str_eq("héllo", "héllo"));
}
