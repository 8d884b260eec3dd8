use saros_analytics_backend::model::get_positions;
use saros_analytics_backend::json::position_to_json;
use saros_analytics_backend::routes::{handle_request, match_route, Route};

const POSITIONS_BODY: &str = "[{\"id\":\"1\",\"pair\":\"SOL/USDC\",\"liquidity\":12500.5,\"fees_earned\":125.75,\"impermanent_loss\":-2.3,\"apr\":15.4,\"status\":\"active\"},{\"id\":\"2\",\"pair\":\"RAY/SOL\",\"liquidity\":8300.25,\"fees_earned\":67.8,\"impermanent_loss\":1.2,\"apr\":18.7,\"status\":\"active\"},{\"id\":\"3\",\"pair\":\"ORCA/USDC\",\"liquidity\":5600.0,\"fees_earned\":34.2,\"impermanent_loss\":-0.8,\"apr\":12.1,\"status\":\"inactive\"}]";

const SUMMARY_BODY: &str = "{\"total_liquidity\":26400.75,\"total_fees_earned\":227.75,\"average_apr\":15.4,\"total_positions\":3}";

const ANALYTICS_BODY: &str = "[{\"date\":\"2024-01-01\",\"liquidity\":10000.0,\"fees\":50.0,\"volume\":25000.0},{\"date\":\"2024-01-02\",\"liquidity\":12000.0,\"fees\":75.0,\"volume\":30000.0},{\"date\":\"2024-01-03\",\"liquidity\":15000.0,\"fees\":90.0,\"volume\":35000.0},{\"date\":\"2024-01-04\",\"liquidity\":18000.0,\"fees\":110.0,\"volume\":28000.0},{\"date\":\"2024-01-05\",\"liquidity\":20000.0,\"fees\":125.0,\"volume\":42000.0},{\"date\":\"2024-01-06\",\"liquidity\":22000.0,\"fees\":140.0,\"volume\":38000.0},{\"date\":\"2024-01-07\",\"liquidity\":26400.0,\"fees\":227.0,\"volume\":45000.0}]";

const HEALTH_BODY: &str = "{\"status\":\"healthy\",\"service\":\"saros-analytics-backend\"}";

#[test]
fn match_route_table() {
    assert_eq!(match_route("/health"), Some(Route::Health));
    assert_eq!(match_route("/api/positions"), Some(Route::Positions));
    assert_eq!(match_route("/api/portfolio-summary"), Some(Route::PortfolioSummary));
    assert_eq!(match_route("/api/analytics"), Some(Route::Analytics));
    assert_eq!(match_route("/"), None);
    assert_eq!(match_route(""), None);
    assert_eq!(match_route("/api/positions/"), None);
    assert_eq!(match_route("/Health"), None);
}

#[test]
fn health_route_body() {
    let resp = handle_request("/health", None).unwrap();
    assert_eq!(resp.status, 200);
    assert_eq!(resp.content_type, "application/json");
    assert_eq!(resp.body, HEALTH_BODY);
}

#[test]
fn positions_route_first_element() {
    let resp = handle_request("/api/positions", Some("ABC123")).unwrap();
    assert_eq!(resp.status, 200);
    assert_eq!(resp.body, POSITIONS_BODY);
    let first = position_to_json(&get_positions()[0]);
    assert_eq!(
        first,
        "{\"id\":\"1\",\"pair\":\"SOL/USDC\",\"liquidity\":12500.5,\"fees_earned\":125.75,\"impermanent_loss\":-2.3,\"apr\":15.4,\"status\":\"active\"}"
    );
    assert!(resp.body.starts_with(&format!("[{}", first)));
}

#[test]
fn positions_same_without_query() {
    let with_wallet = handle_request("/api/positions", Some("ABC123")).unwrap();
    let without = handle_request("/api/positions", None).unwrap();
    assert_eq!(with_wallet.body, without.body);
    assert_eq!(without.body, POSITIONS_BODY);
}

#[test]
fn wallet_values_do_not_change_any_route() {
    let wallets: [Option<&str>; 4] = [None, Some(""), Some("ABC123"), Some("arbitrary wallet !?")];
    for path in ["/health", "/api/positions", "/api/portfolio-summary", "/api/analytics"] {
        let bodies: Vec<String> = wallets
            .iter()
            .map(|w| handle_request(path, *w).unwrap().body)
            .collect();
        for b in &bodies {
            assert_eq!(b, &bodies[0]);
        }
    }
}

#[test]
fn summary_route_body() {
    let resp = handle_request("/api/portfolio-summary", Some("w")).unwrap();
    assert_eq!(resp.status, 200);
    assert_eq!(resp.body, SUMMARY_BODY);
    let v: serde_json::Value = serde_json::from_str(&resp.body).unwrap();
    assert_eq!(v["total_positions"].as_u64(), Some(3));
    assert_eq!(v["total_liquidity"].as_f64(), Some(26400.75));
    assert_eq!(v["total_fees_earned"].as_f64(), Some(227.75));
    assert_eq!(v["average_apr"].as_f64(), Some(15.4));
}

#[test]
fn analytics_route_body() {
    let resp = handle_request("/api/analytics", None).unwrap();
    assert_eq!(resp.status, 200);
    assert_eq!(resp.body, ANALYTICS_BODY);
    let v: serde_json::Value = serde_json::from_str(&resp.body).unwrap();
    let entries = v.as_array().unwrap();
    assert_eq!(entries.len(), 7);
    let expected_dates = [
        "2024-01-01",
        "2024-01-02",
        "2024-01-03",
        "2024-01-04",
        "2024-01-05",
        "2024-01-06",
        "2024-01-07",
    ];
    for (i, e) in entries.iter().enumerate() {
        assert_eq!(e["date"].as_str(), Some(expected_dates[i]));
        if i > 0 {
            assert!(entries[i - 1]["date"].as_str() < e["date"].as_str());
        }
    }
    assert_eq!(entries[0]["liquidity"].as_f64(), Some(10000.0));
    assert_eq!(entries[6]["fees"].as_f64(), Some(227.0));
}

#[test]
fn positions_body_parses_as_json() {
    let resp = handle_request("/api/positions", None).unwrap();
    let v: serde_json::Value = serde_json::from_str(&resp.body).unwrap();
    let entries = v.as_array().unwrap();
    assert_eq!(entries.len(), 3);
    assert_eq!(entries[0]["id"].as_str(), Some("1"));
    assert_eq!(entries[0]["pair"].as_str(), Some("SOL/USDC"));
    assert_eq!(entries[0]["liquidity"].as_f64(), Some(12500.5));
    assert_eq!(entries[0]["impermanent_loss"].as_f64(), Some(-2.3));
    assert_eq!(entries[1]["fees_earned"].as_f64(), Some(67.8));
    assert_eq!(entries[2]["status"].as_str(), Some("inactive"));
}

#[test]
fn unknown_route_is_unhandled() {
    assert!(handle_request("/nonexistent", None).is_none());
    assert!(handle_request("/nonexistent", Some("ABC123")).is_none());
    assert!(handle_request("/api", None).is_none());
}

#[test]
fn all_routes_status_and_content_type() {
    for path in ["/health", "/api/positions", "/api/portfolio-summary", "/api/analytics"] {
        for wallet in [None, Some("x")] {
            let resp = handle_request(path, wallet).unwrap();
            assert_eq!(resp.status, 200);
            assert_eq!(resp.content_type, "application/json");
        }
    }
}
