//! The route-to-response mapping: which path serves which document.
//!
//! `handle_request` is the whole application layer. Its contract pins,
//! for every path and every value of the `wallet` query parameter, the
//! exact response: status 200, content type `application/json`, and
//! the body character for character. Unmatched paths yield `None`; the
//! transport layer answers those with its default not-found response.
//! The wallet parameter is accepted and ignored, which
//! `lemma_response_ignores_wallet` states as a law.

use vstd::prelude::*;
use crate::json::{
    health_to_json, positions_to_json, analytics_seq_to_json, summary_to_json,
    spec_analytics_array, spec_analytics_items, spec_analytics_json, spec_analytics_json_of,
    spec_health_json, spec_position_json, spec_position_json_of, spec_positions_array,
    spec_positions_items, spec_summary_json,
};
use crate::model::{
    get_analytics_data, get_portfolio_summary, get_positions, health_check, spec_analytics_fixed,
    spec_positions_fixed, Date, Status,
};
use crate::text::{str_eq, string_of};

verus! {

/// The four routes the service answers.
#[derive(Clone, Copy, Debug, PartialEq, Eq, Structural)]
pub enum Route {
    Health,
    Positions,
    PortfolioSummary,
    Analytics,
}

/// The route a request path selects, if any.
pub open spec fn spec_match_route(path: Seq<char>) -> Option<Route> {
    if path == "/health"@ {
        Some(Route::Health)
    } else if path == "/api/positions"@ {
        Some(Route::Positions)
    } else if path == "/api/portfolio-summary"@ {
        Some(Route::PortfolioSummary)
    } else if path == "/api/analytics"@ {
        Some(Route::Analytics)
    } else {
        None
    }
}

/// Maps a request path to its route.
pub fn match_route(path: &str) -> (r: Option<Route>)
    ensures
        r == spec_match_route(path@),
{
    if str_eq(path, "/health") {
        Some(Route::Health)
    } else if str_eq(path, "/api/positions") {
        Some(Route::Positions)
    } else if str_eq(path, "/api/portfolio-summary") {
        Some(Route::PortfolioSummary)
    } else if str_eq(path, "/api/analytics") {
        Some(Route::Analytics)
    } else {
        None
    }
}

/// The body served on the health route.
pub open spec fn spec_health_body() -> Seq<char> {
    spec_health_json("healthy"@, "saros-analytics-backend"@)
}

/// The body served on the positions route: the three fixed records.
pub open spec fn spec_positions_body() -> Seq<char> {
    "["@ + spec_position_json("1"@, "SOL/USDC"@, 1250050, 12575, -230, 1540, Status::Active)
        + ","@ + spec_position_json("2"@, "RAY/SOL"@, 830025, 6780, 120, 1870, Status::Active)
        + ","@ + spec_position_json("3"@, "ORCA/USDC"@, 560000, 3420, -80, 1210, Status::Inactive)
        + "]"@
}

/// The body served on the portfolio-summary route.
pub open spec fn spec_summary_body() -> Seq<char> {
    spec_summary_json(2640075, 22775, 1540, 3)
}

/// The body served on the analytics route: the seven fixed records.
pub open spec fn spec_analytics_body() -> Seq<char> {
    "["@ + spec_analytics_json(Date { year: 2024, month: 1, day: 1 }, 1000000, 5000, 2500000)
        + ","@ + spec_analytics_json(Date { year: 2024, month: 1, day: 2 }, 1200000, 7500, 3000000)
        + ","@ + spec_analytics_json(Date { year: 2024, month: 1, day: 3 }, 1500000, 9000, 3500000)
        + ","@ + spec_analytics_json(Date { year: 2024, month: 1, day: 4 }, 1800000, 11000, 2800000)
        + ","@ + spec_analytics_json(Date { year: 2024, month: 1, day: 5 }, 2000000, 12500, 4200000)
        + ","@ + spec_analytics_json(Date { year: 2024, month: 1, day: 6 }, 2200000, 14000, 3800000)
        + ","@ + spec_analytics_json(Date { year: 2024, month: 1, day: 7 }, 2640000, 22700, 4500000)
        + "]"@
}

/// The body each route serves.
pub open spec fn spec_body_for(r: Route) -> Seq<char> {
    match r {
        Route::Health => spec_health_body(),
        Route::Positions => spec_positions_body(),
        Route::PortfolioSummary => spec_summary_body(),
        Route::Analytics => spec_analytics_body(),
    }
}

/// The view of an optional query parameter.
pub open spec fn spec_wallet_view(w: Option<&str>) -> Option<Seq<char>> {
    match w {
        Some(s) => Some(s@),
        None => None,
    }
}

/// The body of the response to a request, if the path matches a
/// route; the wallet parameter does not enter into it.
pub open spec fn spec_response_body(path: Seq<char>, wallet: Option<Seq<char>>) -> Option<Seq<char>> {
    match spec_match_route(path) {
        Some(r) => Some(spec_body_for(r)),
        None => None,
    }
}

/// An HTTP response the service produces: always status 200 with a
/// JSON content type.
#[derive(Debug)]
pub struct ApiResponse {
    pub status: u16,
    pub content_type: String,
    pub body: String,
}

/// Encoding the fixed position data set yields the fixed positions
/// body.
proof fn lemma_positions_body_fixed(s: Seq<crate::model::Position>)
    requires
        spec_positions_fixed(s),
    ensures
        spec_positions_array(s) == spec_positions_body(),
{
    let t3 = s;
    let t2 = t3.drop_last();
    let t1 = t2.drop_last();
    assert(t1.len() == 1);
    assert(t1[0] == s[0]);
    assert(t2[1] == s[1]);
    assert(spec_positions_items(t1) == spec_position_json_of(s[0]));
    assert(spec_positions_items(t2) == spec_positions_items(t1) + ","@ + spec_position_json_of(s[1]));
    assert(spec_positions_items(t3) == spec_positions_items(t2) + ","@ + spec_position_json_of(s[2]));
    assert(spec_positions_array(s) =~= spec_positions_body());
}

/// Encoding the fixed analytics data set yields the fixed analytics
/// body.
#[verifier::rlimit(50)]
proof fn lemma_analytics_body_fixed(s: Seq<crate::model::AnalyticsData>)
    requires
        spec_analytics_fixed(s),
    ensures
        spec_analytics_array(s) == spec_analytics_body(),
{
    let t7 = s;
    let t6 = t7.drop_last();
    let t5 = t6.drop_last();
    let t4 = t5.drop_last();
    let t3 = t4.drop_last();
    let t2 = t3.drop_last();
    let t1 = t2.drop_last();
    assert(t1.len() == 1);
    assert(t1[0] == s[0]);
    assert(t2[1] == s[1]);
    assert(t3[2] == s[2]);
    assert(t4[3] == s[3]);
    assert(t5[4] == s[4]);
    assert(t6[5] == s[5]);
    assert(spec_analytics_items(t1) == spec_analytics_json_of(s[0]));
    assert(spec_analytics_items(t2) == spec_analytics_items(t1) + ","@ + spec_analytics_json_of(s[1]));
    assert(spec_analytics_items(t3) == spec_analytics_items(t2) + ","@ + spec_analytics_json_of(s[2]));
    assert(spec_analytics_items(t4) == spec_analytics_items(t3) + ","@ + spec_analytics_json_of(s[3]));
    assert(spec_analytics_items(t5) == spec_analytics_items(t4) + ","@ + spec_analytics_json_of(s[4]));
    assert(spec_analytics_items(t6) == spec_analytics_items(t5) + ","@ + spec_analytics_json_of(s[5]));
    assert(spec_analytics_items(t7) == spec_analytics_items(t6) + ","@ + spec_analytics_json_of(s[6]));
    assert(spec_analytics_array(s) =~= spec_analytics_body());
}

/// Answers one request. For each of the four routes the result is
/// status 200, content type `application/json`, and the fixed body of
/// that route; for every other path it is `None`. The `wallet`
/// parameter never affects the outcome.
pub fn handle_request(path: &str, wallet: Option<&str>) -> (r: Option<ApiResponse>)
    ensures
        match r {
            Some(resp) => {
                &&& Some(resp.body@) == spec_response_body(path@, spec_wallet_view(wallet))
                &&& resp.status == 200
                &&& resp.content_type@ == "application/json"@
            },
            None => spec_response_body(path@, spec_wallet_view(wallet)) is None,
        },
{
    let route = match match_route(path) {
        Some(route) => route,
        None => {
            return None;
        },
    };
    let body = match route {
        Route::Health => {
            let h = health_check();
            health_to_json(&h)
        },
        Route::Positions => {
            let ps = get_positions();
            let body = positions_to_json(&ps);
            proof {
                lemma_positions_body_fixed(ps@);
            }
            body
        },
        Route::PortfolioSummary => {
            let s = get_portfolio_summary();
            summary_to_json(&s)
        },
        Route::Analytics => {
            let ds = get_analytics_data();
            let body = analytics_seq_to_json(&ds);
            proof {
                lemma_analytics_body_fixed(ds@);
            }
            body
        },
    };
    Some(ApiResponse { status: 200, content_type: string_of("application/json"), body })
}

/// The wallet query parameter is ignored: for any path, any two
/// wallet values (absent, empty or arbitrary) select the same
/// response body.
pub proof fn lemma_response_ignores_wallet(
    path: Seq<char>,
    w1: Option<Seq<char>>,
    w2: Option<Seq<char>>,
)
    ensures
        spec_response_body(path, w1) == spec_response_body(path, w2),
{
}

} // verus!
