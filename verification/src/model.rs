//! The data records the service reports: liquidity positions, the
//! portfolio summary, the seven-day analytics series and the health
//! status, together with the constructors for the fixed data set.
//!
//! Monetary amounts and percentages are held in hundredths of their
//! unit (USD cents, hundredths of a percent), so that every field is
//! a plain integer and every value is stated exactly.

use vstd::prelude::*;
use vstd::string::StringExecFns;

verus! {

/// Whether a liquidity position currently earns fees.
#[derive(Clone, Copy, Debug, PartialEq, Eq, Structural)]
pub enum Status {
    Active,
    Inactive,
}

/// A single liquidity-provision record. `liquidity` and `fees_earned`
/// are USD hundredths; `impermanent_loss` and `apr` are hundredths of
/// a percent, signed.
#[derive(Debug)]
pub struct Position {
    pub id: String,
    pub pair: String,
    pub liquidity: i64,
    pub fees_earned: i64,
    pub impermanent_loss: i64,
    pub apr: i64,
    pub status: Status,
}

impl Position {
    /// The amounts stay clear of the one signed value whose negation
    /// overflows, so each can be rendered as a decimal.
    pub open spec fn wf(self) -> bool {
        &&& self.liquidity != i64::MIN
        &&& self.fees_earned != i64::MIN
        &&& self.impermanent_loss != i64::MIN
        &&& self.apr != i64::MIN
    }
}

/// The aggregate over all positions. Amounts in USD hundredths,
/// `average_apr` in hundredths of a percent.
#[derive(Debug)]
pub struct PortfolioSummary {
    pub total_liquidity: i64,
    pub total_fees_earned: i64,
    pub average_apr: i64,
    pub total_positions: u32,
}

impl PortfolioSummary {
    pub open spec fn wf(self) -> bool {
        &&& self.total_liquidity != i64::MIN
        &&& self.total_fees_earned != i64::MIN
        &&& self.average_apr != i64::MIN
    }
}

/// A calendar date, kept as plain year, month and day numbers.
#[derive(Clone, Copy, Debug, PartialEq, Eq, Structural)]
pub struct Date {
    pub year: u16,
    pub month: u8,
    pub day: u8,
}

impl Date {
    /// A four-digit year and month and day numbers in range, so the
    /// ISO rendering is `YYYY-MM-DD`.
    pub open spec fn wf(self) -> bool {
        &&& 1000 <= self.year <= 9999
        &&& 1 <= self.month <= 12
        &&& 1 <= self.day <= 31
    }

    /// The date as one integer, ordered as the calendar is.
    pub open spec fn spec_key(self) -> int {
        self.year * 10000 + self.month * 100 + self.day
    }
}

/// One day of the analytics series. `liquidity`, `fees` and `volume`
/// are USD hundredths.
#[derive(Debug)]
pub struct AnalyticsData {
    pub date: Date,
    pub liquidity: i64,
    pub fees: i64,
    pub volume: i64,
}

impl AnalyticsData {
    pub open spec fn wf(self) -> bool {
        &&& self.date.wf()
        &&& self.liquidity != i64::MIN
        &&& self.fees != i64::MIN
        &&& self.volume != i64::MIN
    }
}

/// The health report: a status word and the service name.
#[derive(Debug)]
pub struct HealthStatus {
    pub status: String,
    pub service: String,
}

/// The first fixed position record.
pub open spec fn is_position_1(p: Position) -> bool {
    &&& p.id@ == "1"@
    &&& p.pair@ == "SOL/USDC"@
    &&& p.liquidity == 1250050
    &&& p.fees_earned == 12575
    &&& p.impermanent_loss == -230
    &&& p.apr == 1540
    &&& p.status == Status::Active
}

/// The second fixed position record.
pub open spec fn is_position_2(p: Position) -> bool {
    &&& p.id@ == "2"@
    &&& p.pair@ == "RAY/SOL"@
    &&& p.liquidity == 830025
    &&& p.fees_earned == 6780
    &&& p.impermanent_loss == 120
    &&& p.apr == 1870
    &&& p.status == Status::Active
}

/// The third fixed position record.
pub open spec fn is_position_3(p: Position) -> bool {
    &&& p.id@ == "3"@
    &&& p.pair@ == "ORCA/USDC"@
    &&& p.liquidity == 560000
    &&& p.fees_earned == 3420
    &&& p.impermanent_loss == -80
    &&& p.apr == 1210
    &&& p.status == Status::Inactive
}

/// The fixed three-position data set, in its served order.
pub open spec fn spec_positions_fixed(s: Seq<Position>) -> bool {
    &&& s.len() == 3
    &&& is_position_1(s[0])
    &&& is_position_2(s[1])
    &&& is_position_3(s[2])
}

/// One fixed analytics record: a day of January 2024 with its
/// liquidity, fees and volume in USD hundredths.
pub open spec fn is_analytics_point(d: AnalyticsData, day: int, liquidity: int, fees: int, volume: int) -> bool {
    &&& d.date == (Date { year: 2024, month: 1, day: day as u8 })
    &&& d.liquidity == liquidity
    &&& d.fees == fees
    &&& d.volume == volume
}

/// The fixed seven-day analytics series, in its served order:
/// 2024-01-01 through 2024-01-07.
pub open spec fn spec_analytics_fixed(s: Seq<AnalyticsData>) -> bool {
    &&& s.len() == 7
    &&& is_analytics_point(s[0], 1, 1000000, 5000, 2500000)
    &&& is_analytics_point(s[1], 2, 1200000, 7500, 3000000)
    &&& is_analytics_point(s[2], 3, 1500000, 9000, 3500000)
    &&& is_analytics_point(s[3], 4, 1800000, 11000, 2800000)
    &&& is_analytics_point(s[4], 5, 2000000, 12500, 4200000)
    &&& is_analytics_point(s[5], 6, 2200000, 14000, 3800000)
    &&& is_analytics_point(s[6], 7, 2640000, 22700, 4500000)
}

/// Returns the three fixed liquidity positions, in their served order.
pub fn get_positions() -> (v: Vec<Position>)
    ensures
        spec_positions_fixed(v@),
        forall|i: int| 0 <= i < v@.len() ==> (#[trigger] v@[i]).wf(),
{
    let mut v: Vec<Position> = Vec::new();
    v.push(Position {
        id: String::from_str("1"),
        pair: String::from_str("SOL/USDC"),
        liquidity: 1250050,
        fees_earned: 12575,
        impermanent_loss: -230,
        apr: 1540,
        status: Status::Active,
    });
    v.push(Position {
        id: String::from_str("2"),
        pair: String::from_str("RAY/SOL"),
        liquidity: 830025,
        fees_earned: 6780,
        impermanent_loss: 120,
        apr: 1870,
        status: Status::Active,
    });
    v.push(Position {
        id: String::from_str("3"),
        pair: String::from_str("ORCA/USDC"),
        liquidity: 560000,
        fees_earned: 3420,
        impermanent_loss: -80,
        apr: 1210,
        status: Status::Inactive,
    });
    v
}

/// Returns the fixed portfolio aggregate: total liquidity 26400.75
/// USD, total fees 227.75 USD, average APR 15.4 %, three positions.
pub fn get_portfolio_summary() -> (s: PortfolioSummary)
    ensures
        s.total_liquidity == 2640075,
        s.total_fees_earned == 22775,
        s.average_apr == 1540,
        s.total_positions == 3,
        s.wf(),
{
    PortfolioSummary {
        total_liquidity: 2640075,
        total_fees_earned: 22775,
        average_apr: 1540,
        total_positions: 3,
    }
}

/// Returns the fixed seven-day analytics series, one record per day
/// of 2024-01-01 through 2024-01-07, ascending.
pub fn get_analytics_data() -> (v: Vec<AnalyticsData>)
    ensures
        spec_analytics_fixed(v@),
        forall|i: int| 0 <= i < v@.len() ==> (#[trigger] v@[i]).wf(),
{
    let mut v: Vec<AnalyticsData> = Vec::new();
    v.push(AnalyticsData { date: Date { year: 2024, month: 1, day: 1 }, liquidity: 1000000, fees: 5000, volume: 2500000 });
    v.push(AnalyticsData { date: Date { year: 2024, month: 1, day: 2 }, liquidity: 1200000, fees: 7500, volume: 3000000 });
    v.push(AnalyticsData { date: Date { year: 2024, month: 1, day: 3 }, liquidity: 1500000, fees: 9000, volume: 3500000 });
    v.push(AnalyticsData { date: Date { year: 2024, month: 1, day: 4 }, liquidity: 1800000, fees: 11000, volume: 2800000 });
    v.push(AnalyticsData { date: Date { year: 2024, month: 1, day: 5 }, liquidity: 2000000, fees: 12500, volume: 4200000 });
    v.push(AnalyticsData { date: Date { year: 2024, month: 1, day: 6 }, liquidity: 2200000, fees: 14000, volume: 3800000 });
    v.push(AnalyticsData { date: Date { year: 2024, month: 1, day: 7 }, liquidity: 2640000, fees: 22700, volume: 4500000 });
    v
}

/// Returns the fixed health report.
pub fn health_check() -> (h: HealthStatus)
    ensures
        h.status@ == "healthy"@,
        h.service@ == "saros-analytics-backend"@,
{
    HealthStatus { status: String::from_str("healthy"), service: String::from_str("saros-analytics-backend") }
}

/// The analytics series is strictly ascending by date with no gaps:
/// each record's date is the day after the previous record's date.
pub proof fn lemma_analytics_dates_ascending(s: Seq<AnalyticsData>)
    requires
        spec_analytics_fixed(s),
    ensures
        s.len() == 7,
        forall|i: int, j: int|
            0 <= i < j < s.len() ==> (#[trigger] s[i]).date.spec_key() < (#[trigger] s[j]).date.spec_key(),
        forall|i: int|
            0 <= i < s.len() - 1 ==> (#[trigger] s[i + 1]).date.spec_key() == s[i].date.spec_key() + 1,
{
    assert forall|i: int| 0 <= i < 7 implies (#[trigger] s[i]).date.spec_key() == 20240100 + i + 1 by {
        if i == 0 {
        } else if i == 1 {
        } else if i == 2 {
        } else if i == 3 {
        } else if i == 4 {
        } else if i == 5 {
        } else {
        }
    }
}

} // verus!
