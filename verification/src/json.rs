//! Verified JSON encoders for the data records. Each encoder's
//! contract pins the produced text down exactly, character for
//! character, as a function of the record's fields. Field names are
//! snake_case; amounts render as decimal numbers with at least one
//! fraction digit; string content is escaped.

use vstd::prelude::*;
use crate::model::{AnalyticsData, Date, HealthStatus, PortfolioSummary, Position, Status};
use crate::text::{
    append_digits, append_escaped, append_fixed2, append_pad2, push_char, spec_digits,
    spec_escape, spec_fixed2, spec_pad2, string_of,
};

verus! {

/// The JSON string content for a position status.
pub open spec fn spec_status_chars(st: Status) -> Seq<char> {
    match st {
        Status::Active => "active"@,
        Status::Inactive => "inactive"@,
    }
}

/// The ISO `YYYY-MM-DD` rendering of a date.
pub open spec fn spec_date_chars(d: Date) -> Seq<char> {
    spec_digits(d.year as nat) + seq!['-'] + spec_pad2(d.month as nat) + seq!['-'] + spec_pad2(d.day as nat)
}

/// The JSON object for a position, by its field values.
pub open spec fn spec_position_json(
    id: Seq<char>,
    pair: Seq<char>,
    liquidity: int,
    fees_earned: int,
    impermanent_loss: int,
    apr: int,
    status: Status,
) -> Seq<char> {
    "{\"id\":\""@ + spec_escape(id) + "\",\"pair\":\""@ + spec_escape(pair) + "\",\"liquidity\":"@
        + spec_fixed2(liquidity) + ",\"fees_earned\":"@ + spec_fixed2(fees_earned)
        + ",\"impermanent_loss\":"@ + spec_fixed2(impermanent_loss) + ",\"apr\":"@ + spec_fixed2(apr)
        + ",\"status\":\""@ + spec_status_chars(status) + "\"}"@
}

/// The JSON object for a position value.
pub open spec fn spec_position_json_of(p: Position) -> Seq<char> {
    spec_position_json(
        p.id@,
        p.pair@,
        p.liquidity as int,
        p.fees_earned as int,
        p.impermanent_loss as int,
        p.apr as int,
        p.status,
    )
}

/// The JSON object for the portfolio summary, by its field values.
pub open spec fn spec_summary_json(
    total_liquidity: int,
    total_fees_earned: int,
    average_apr: int,
    total_positions: nat,
) -> Seq<char> {
    "{\"total_liquidity\":"@ + spec_fixed2(total_liquidity) + ",\"total_fees_earned\":"@
        + spec_fixed2(total_fees_earned) + ",\"average_apr\":"@ + spec_fixed2(average_apr)
        + ",\"total_positions\":"@ + spec_digits(total_positions) + "}"@
}

/// The JSON object for one analytics record, by its field values.
pub open spec fn spec_analytics_json(date: Date, liquidity: int, fees: int, volume: int) -> Seq<char> {
    "{\"date\":\""@ + spec_date_chars(date) + "\",\"liquidity\":"@ + spec_fixed2(liquidity)
        + ",\"fees\":"@ + spec_fixed2(fees) + ",\"volume\":"@ + spec_fixed2(volume) + "}"@
}

/// The JSON object for an analytics value.
pub open spec fn spec_analytics_json_of(d: AnalyticsData) -> Seq<char> {
    spec_analytics_json(d.date, d.liquidity as int, d.fees as int, d.volume as int)
}

/// The JSON object for the health report, by its field values.
pub open spec fn spec_health_json(status: Seq<char>, service: Seq<char>) -> Seq<char> {
    "{\"status\":\""@ + spec_escape(status) + "\",\"service\":\""@ + spec_escape(service) + "\"}"@
}

/// The comma-joined JSON objects of a position sequence.
pub open spec fn spec_positions_items(s: Seq<Position>) -> Seq<char>
    decreases s.len(),
{
    if s.len() == 0 {
        Seq::empty()
    } else if s.len() == 1 {
        spec_position_json_of(s[0])
    } else {
        spec_positions_items(s.drop_last()) + ","@ + spec_position_json_of(s.last())
    }
}

/// The JSON array of a position sequence.
pub open spec fn spec_positions_array(s: Seq<Position>) -> Seq<char> {
    "["@ + spec_positions_items(s) + "]"@
}

/// The comma-joined JSON objects of an analytics sequence.
pub open spec fn spec_analytics_items(s: Seq<AnalyticsData>) -> Seq<char>
    decreases s.len(),
{
    if s.len() == 0 {
        Seq::empty()
    } else if s.len() == 1 {
        spec_analytics_json_of(s[0])
    } else {
        spec_analytics_items(s.drop_last()) + ","@ + spec_analytics_json_of(s.last())
    }
}

/// The JSON array of an analytics sequence.
pub open spec fn spec_analytics_array(s: Seq<AnalyticsData>) -> Seq<char> {
    "["@ + spec_analytics_items(s) + "]"@
}

/// The JSON string content for a position status.
pub fn status_str(st: Status) -> (r: &'static str)
    ensures
        r@ == spec_status_chars(st),
{
    match st {
        Status::Active => "active",
        Status::Inactive => "inactive",
    }
}

/// Appends the ISO `YYYY-MM-DD` rendering of a date.
pub fn append_date(out: &mut String, d: &Date)
    requires
        d.wf(),
    ensures
        final(out)@ == old(out)@ + spec_date_chars(*d),
{
    append_digits(out, d.year as u64);
    push_char(out, '-');
    append_pad2(out, d.month);
    push_char(out, '-');
    append_pad2(out, d.day);
}

/// Encodes one position as a JSON object.
pub fn position_to_json(p: &Position) -> (r: String)
    requires
        p.wf(),
    ensures
        r@ == spec_position_json_of(*p),
{
    let mut out = string_of("{\"id\":\"");
    append_escaped(&mut out, p.id.as_str());
    out.append("\",\"pair\":\"");
    append_escaped(&mut out, p.pair.as_str());
    out.append("\",\"liquidity\":");
    append_fixed2(&mut out, p.liquidity);
    out.append(",\"fees_earned\":");
    append_fixed2(&mut out, p.fees_earned);
    out.append(",\"impermanent_loss\":");
    append_fixed2(&mut out, p.impermanent_loss);
    out.append(",\"apr\":");
    append_fixed2(&mut out, p.apr);
    out.append(",\"status\":\"");
    out.append(status_str(p.status));
    out.append("\"}");
    out
}

/// Encodes the portfolio summary as a JSON object.
pub fn summary_to_json(s: &PortfolioSummary) -> (r: String)
    requires
        s.wf(),
    ensures
        r@ == spec_summary_json(
            s.total_liquidity as int,
            s.total_fees_earned as int,
            s.average_apr as int,
            s.total_positions as nat,
        ),
{
    let mut out = string_of("{\"total_liquidity\":");
    append_fixed2(&mut out, s.total_liquidity);
    out.append(",\"total_fees_earned\":");
    append_fixed2(&mut out, s.total_fees_earned);
    out.append(",\"average_apr\":");
    append_fixed2(&mut out, s.average_apr);
    out.append(",\"total_positions\":");
    append_digits(&mut out, s.total_positions as u64);
    out.append("}");
    out
}

/// Encodes one analytics record as a JSON object.
pub fn analytics_to_json(d: &AnalyticsData) -> (r: String)
    requires
        d.wf(),
    ensures
        r@ == spec_analytics_json_of(*d),
{
    let mut out = string_of("{\"date\":\"");
    append_date(&mut out, &d.date);
    out.append("\",\"liquidity\":");
    append_fixed2(&mut out, d.liquidity);
    out.append(",\"fees\":");
    append_fixed2(&mut out, d.fees);
    out.append(",\"volume\":");
    append_fixed2(&mut out, d.volume);
    out.append("}");
    out
}

/// Encodes the health report as a JSON object.
pub fn health_to_json(h: &HealthStatus) -> (r: String)
    ensures
        r@ == spec_health_json(h.status@, h.service@),
{
    let mut out = string_of("{\"status\":\"");
    append_escaped(&mut out, h.status.as_str());
    out.append("\",\"service\":\"");
    append_escaped(&mut out, h.service.as_str());
    out.append("\"}");
    out
}

/// Encodes a position sequence as a JSON array, in order.
pub fn positions_to_json(v: &Vec<Position>) -> (r: String)
    requires
        forall|i: int| 0 <= i < v@.len() ==> (#[trigger] v@[i]).wf(),
    ensures
        r@ == spec_positions_array(v@),
{
    let mut out = string_of("[");
    let mut i: usize = 0;
    while i < v.len()
        invariant
            i <= v@.len(),
            forall|k: int| 0 <= k < v@.len() ==> (#[trigger] v@[k]).wf(),
            out@ == "["@ + spec_positions_items(v@.subrange(0, i as int)),
        decreases v@.len() - i,
    {
        if i > 0 {
            out.append(",");
        }
        let item = position_to_json(&v[i]);
        out.append(item.as_str());
        proof {
            let pre = v@.subrange(0, i as int);
            let post = v@.subrange(0, i + 1);
            assert(post.drop_last() =~= pre);
            assert(post.last() == v@[i as int]);
            assert(out@ =~= "["@ + spec_positions_items(post));
        }
        i += 1;
    }
    proof {
        assert(v@.subrange(0, v@.len() as int) =~= v@);
    }
    out.append("]");
    out
}

/// Encodes an analytics sequence as a JSON array, in order.
pub fn analytics_seq_to_json(v: &Vec<AnalyticsData>) -> (r: String)
    requires
        forall|i: int| 0 <= i < v@.len() ==> (#[trigger] v@[i]).wf(),
    ensures
        r@ == spec_analytics_array(v@),
{
    let mut out = string_of("[");
    let mut i: usize = 0;
    while i < v.len()
        invariant
            i <= v@.len(),
            forall|k: int| 0 <= k < v@.len() ==> (#[trigger] v@[k]).wf(),
            out@ == "["@ + spec_analytics_items(v@.subrange(0, i as int)),
        decreases v@.len() - i,
    {
        if i > 0 {
            out.append(",");
        }
        let item = analytics_to_json(&v[i]);
        out.append(item.as_str());
        proof {
            let pre = v@.subrange(0, i as int);
            let post = v@.subrange(0, i + 1);
            assert(post.drop_last() =~= pre);
            assert(post.last() == v@[i as int]);
            assert(out@ =~= "["@ + spec_analytics_items(post));
        }
        i += 1;
    }
    proof {
        assert(v@.subrange(0, v@.len() as int) =~= v@);
    }
    out.append("]");
    out
}

} // verus!
