//! The Prometheus text of the contract-whale monitor: whether it is on, the
//! feed of each exchange, the signals generated by severity and kind, the
//! Discord sends and skips, data quality and the 60-second trend.
//!
//! Figures that are floating point come in already written as text.
use vstd::prelude::*;

use crate::formatter::joined;
use crate::tally::{is_tally, keys_view, tallies_view, tally};
use crate::text::{append_chars, chars_of, lower, nat_decimal, push_str, string_of, u64_decimal};
use crate::whale_labels::{label_chars, metric_label, trend_summary_unit, unit_of, TrendUnitFields};
use crate::whale_query::{ContractWhaleSeverity, ContractWhaleSignalType};

verus! {

/// The feed of one exchange.
pub struct MetricsExchange {
    pub name: String,
    pub connected: bool,
    pub reconnect_count: u64,
    pub has_last_trade: bool,
}

/// What the metrics read of a signal.
pub struct MetricsSignal {
    pub severity: ContractWhaleSeverity,
    pub signal_type: ContractWhaleSignalType,
    pub discord_sent: bool,
    pub discord_reason: String,
}

/// One 60-second trend: its unit fields and its volumes written with six
/// places.
pub struct MetricsTrend {
    pub unit: TrendUnitFields,
    pub buy_volume: String,
    pub sell_volume: String,
    pub total_volume: String,
    pub net_volume: String,
}

/// The figures of the first trend (or an empty one) and the mean data
/// quality: whether its total BTC volume is positive, its BTC volumes with
/// six places, and the mean with one place.
pub struct MetricsFigures {
    pub flushed: bool,
    pub buy_volume_btc: String,
    pub sell_volume_btc: String,
    pub data_quality: String,
}

pub open spec fn metric_label_of(s: Seq<char>) -> Seq<char> {
    lower(label_chars(s))
}

pub open spec fn flag(b: bool) -> Seq<char> {
    if b {
        "1"@
    } else {
        "0"@
    }
}

pub open spec fn severity_name(s: ContractWhaleSeverity) -> Seq<char> {
    match s {
        ContractWhaleSeverity::S => "s"@,
        ContractWhaleSeverity::Critical => "critical"@,
        ContractWhaleSeverity::High => "high"@,
        ContractWhaleSeverity::Medium => "medium"@,
        ContractWhaleSeverity::Calm => "calm"@,
    }
}

pub open spec fn signal_kind_name(t: ContractWhaleSignalType) -> Seq<char> {
    match t {
        ContractWhaleSignalType::AggressiveBuy => "aggressivebuy"@,
        ContractWhaleSignalType::AggressiveSell => "aggressivesell"@,
        ContractWhaleSignalType::DownsideAbsorption => "downsideabsorption"@,
        ContractWhaleSignalType::UpsideSuppression => "upsidesuppression"@,
    }
}

/// The four lines of an exchange's feed.
pub open spec fn exchange_lines(e: MetricsExchange, enabled: bool) -> Seq<Seq<char>> {
    let l = metric_label_of(e.name@);
    seq![
        "cwm_ws_connected{exchange=\""@ + l + "\"} "@ + flag(enabled && e.connected),
        "cwm_ws_reconnect_total{exchange=\""@ + l + "\"} "@ + nat_decimal(e.reconnect_count as nat),
        "cwm_trades_received_total{exchange=\""@ + l + "\"} "@ + flag(e.has_last_trade),
        "cwm_trade_normalize_errors_total{exchange=\""@ + l + "\"} 0"@
    ]
}

pub open spec fn all_exchange_lines(es: Seq<MetricsExchange>, enabled: bool) -> Seq<Seq<char>>
    decreases es.len(),
{
    if es.len() == 0 {
        Seq::empty()
    } else {
        all_exchange_lines(es.drop_last(), enabled) + exchange_lines(es.last(), enabled)
    }
}

/// The four lines of a trend.
pub open spec fn trend_lines(t: MetricsTrend) -> Seq<Seq<char>> {
    let u = metric_label_of(unit_of(t.unit));
    let tags = "{symbol=\""@ + u + "\",quantity_unit=\""@ + u + "\"} "@;
    seq![
        "cwm_trend_60s_buy_volume"@ + tags + t.buy_volume@,
        "cwm_trend_60s_sell_volume"@ + tags + t.sell_volume@,
        "cwm_trend_60s_total_volume"@ + tags + t.total_volume@,
        "cwm_trend_60s_net_volume"@ + tags + t.net_volume@
    ]
}

pub open spec fn all_trend_lines(ts: Seq<MetricsTrend>) -> Seq<Seq<char>>
    decreases ts.len(),
{
    if ts.len() == 0 {
        Seq::empty()
    } else {
        all_trend_lines(ts.drop_last()) + trend_lines(ts.last())
    }
}

/// The generation key of a signal: its severity and kind as labels.
pub open spec fn generated_key(s: MetricsSignal) -> (Seq<char>, Seq<char>) {
    (metric_label_of(severity_name(s.severity)), metric_label_of(signal_kind_name(s.signal_type)))
}

/// The generation keys of the signals, in order.
pub open spec fn generated_keys(ss: Seq<MetricsSignal>) -> Seq<(Seq<char>, Seq<char>)> {
    ss.map_values(|s: MetricsSignal| generated_key(s))
}

/// The skip keys of the signals not sent, in order: the reason as a label.
pub open spec fn skipped_keys(ss: Seq<MetricsSignal>) -> Seq<(Seq<char>, Seq<char>)>
    decreases ss.len(),
{
    if ss.len() == 0 {
        Seq::empty()
    } else {
        let rest = skipped_keys(ss.drop_last());
        if ss.last().discord_sent {
            rest
        } else {
            rest.push((metric_label_of(ss.last().discord_reason@), Seq::empty()))
        }
    }
}

pub open spec fn sent_count(ss: Seq<MetricsSignal>) -> nat
    decreases ss.len(),
{
    if ss.len() == 0 {
        0
    } else {
        sent_count(ss.drop_last()) + if ss.last().discord_sent {
            1nat
        } else {
            0nat
        }
    }
}

pub open spec fn generated_line(t: ((Seq<char>, Seq<char>), nat)) -> Seq<char> {
    "cwm_signals_generated_total{severity=\""@ + t.0.0 + "\",type=\""@ + t.0.1 + "\"} "@ + nat_decimal(
        t.1,
    )
}

pub open spec fn skipped_line(t: ((Seq<char>, Seq<char>), nat)) -> Seq<char> {
    "cwm_discord_skipped_total{reason=\""@ + t.0.0 + "\"} "@ + nat_decimal(t.1)
}

/// The metrics text, line by line: the enabled flag, the exchange feeds in
/// the order given, the flush counters, one line per generated
/// severity and kind (from `generated`, the tally of the signals' keys),
/// the sends, one line per skip reason (from `skipped`), data quality, the
/// trends, and the BTC volumes of the first trend.
pub open spec fn metrics_lines(
    enabled: bool,
    exchanges: Seq<MetricsExchange>,
    trends: Seq<MetricsTrend>,
    signals: Seq<MetricsSignal>,
    figures: MetricsFigures,
    generated: Seq<((Seq<char>, Seq<char>), nat)>,
    skipped: Seq<((Seq<char>, Seq<char>), nat)>,
) -> Seq<Seq<char>> {
    seq![
        "# HELP cwm_enabled Contract whale monitor enabled flag."@,
        "# TYPE cwm_enabled gauge"@,
        "cwm_enabled "@ + flag(enabled),
        "# HELP cwm_ws_connected WebSocket connection status by exchange."@,
        "# TYPE cwm_ws_connected gauge"@
    ] + all_exchange_lines(exchanges, enabled) + seq![
        "cwm_bucket_flush_total "@ + flag(figures.flushed),
        "cwm_bucket_flush_errors_total 0"@
    ] + generated.map_values(|t: ((Seq<char>, Seq<char>), nat)| generated_line(t)) + seq![
        "cwm_discord_sent_total "@ + nat_decimal(sent_count(signals))
    ] + skipped.map_values(|t: ((Seq<char>, Seq<char>), nat)| skipped_line(t)) + seq![
        "cwm_data_quality "@ + figures.data_quality@
    ] + all_trend_lines(trends) + seq![
        "cwm_trend_60s_buy_volume_btc "@ + figures.buy_volume_btc@,
        "cwm_trend_60s_sell_volume_btc "@ + figures.sell_volume_btc@
    ]
}

/// The lines of `ls`, each ended by a newline.
fn join_lines(ls: &Vec<Vec<char>>) -> (r: Vec<char>)
    ensures
        r@ == joined(ls@.map_values(|v: Vec<char>| v@)),
{
    let ghost all = ls@.map_values(|v: Vec<char>| v@);
    let mut out: Vec<char> = Vec::new();
    let mut i: usize = 0;
    proof {
        assert(all.take(0) =~= Seq::<Seq<char>>::empty());
    }
    while i < ls.len()
        invariant
            i <= ls@.len(),
            all == ls@.map_values(|v: Vec<char>| v@),
            out@ == joined(all.take(i as int)),
        decreases ls.len() - i,
    {
        append_chars(&mut out, &ls[i]);
        out.push('\n');
        proof {
            reveal_strlit("\n");
            assert(all.take(i + 1).drop_last() =~= all.take(i as int));
            assert(out@ =~= joined(all.take(i as int)) + all[i as int] + "\n"@);
        }
        i = i + 1;
    }
    proof {
        assert(all.take(ls@.len() as int) =~= all);
    }
    out
}

fn push_line(lines: &mut Vec<Vec<char>>, line: Vec<char>)
    ensures
        final(lines)@.map_values(|v: Vec<char>| v@) == old(lines)@.map_values(|v: Vec<char>| v@).push(
            line@,
        ),
{
    let ghost before = lines@;
    let ghost l = line@;
    lines.push(line);
    proof {
        assert(lines@.map_values(|v: Vec<char>| v@) =~= before.map_values(|v: Vec<char>| v@).push(l));
    }
}

fn labeled(a: &str, label: &Vec<char>, b: &str, value: &Vec<char>) -> (r: Vec<char>)
    ensures
        r@ == a@ + label@ + b@ + value@,
{
    let mut v = chars_of(a);
    append_chars(&mut v, label);
    push_str(&mut v, b);
    append_chars(&mut v, value);
    v
}

fn flag_exec(b: bool) -> (r: Vec<char>)
    ensures
        r@ == flag(b),
{
    if b {
        chars_of("1")
    } else {
        chars_of("0")
    }
}

fn label_of(s: &str) -> (r: Vec<char>)
    ensures
        r@ == metric_label_of(s@),
{
    chars_of(metric_label(s).as_str())
}

fn severity_name_exec(s: ContractWhaleSeverity) -> (r: &'static str)
    ensures
        r@ == severity_name(s),
{
    match s {
        ContractWhaleSeverity::S => "s",
        ContractWhaleSeverity::Critical => "critical",
        ContractWhaleSeverity::High => "high",
        ContractWhaleSeverity::Medium => "medium",
        ContractWhaleSeverity::Calm => "calm",
    }
}

fn signal_kind_name_exec(t: ContractWhaleSignalType) -> (r: &'static str)
    ensures
        r@ == signal_kind_name(t),
{
    match t {
        ContractWhaleSignalType::AggressiveBuy => "aggressivebuy",
        ContractWhaleSignalType::AggressiveSell => "aggressivesell",
        ContractWhaleSignalType::DownsideAbsorption => "downsideabsorption",
        ContractWhaleSignalType::UpsideSuppression => "upsidesuppression",
    }
}

/// The metrics text of the monitor; see [`metrics_lines`]. The generated
/// and skipped lines come in key order, each key once with its count.
#[verifier::rlimit(60)]
pub fn build_contract_whale_metrics_text_with_trends(
    enabled: bool,
    exchanges: &Vec<MetricsExchange>,
    trends: &Vec<MetricsTrend>,
    signals: &Vec<MetricsSignal>,
    figures: &MetricsFigures,
) -> (r: String)
    requires
        signals@.len() + 1 < usize::MAX,
    ensures
        exists|
            generated: Seq<((Seq<char>, Seq<char>), nat)>,
            skipped: Seq<((Seq<char>, Seq<char>), nat)>,
        |
            {
                &&& is_tally(generated, generated_keys(signals@))
                &&& is_tally(skipped, skipped_keys(signals@))
                &&& r@ == joined(
                    metrics_lines(enabled, exchanges@, trends@, signals@, *figures, generated, skipped),
                )
            },
{
    let mut lines: Vec<Vec<char>> = Vec::new();
    push_line(&mut lines, chars_of("# HELP cwm_enabled Contract whale monitor enabled flag."));
    push_line(&mut lines, chars_of("# TYPE cwm_enabled gauge"));
    let mut en = chars_of("cwm_enabled ");
    append_chars(&mut en, &flag_exec(enabled));
    push_line(&mut lines, en);
    push_line(&mut lines, chars_of("# HELP cwm_ws_connected WebSocket connection status by exchange."));
    push_line(&mut lines, chars_of("# TYPE cwm_ws_connected gauge"));
    let ghost head = lines@.map_values(|v: Vec<char>| v@);

    let mut i: usize = 0;
    proof {
        assert(exchanges@.take(0) =~= Seq::<MetricsExchange>::empty());
        assert(head + all_exchange_lines(exchanges@.take(0), enabled) =~= head);
    }
    while i < exchanges.len()
        invariant
            i <= exchanges@.len(),
            lines@.map_values(|v: Vec<char>| v@) == head + all_exchange_lines(
                exchanges@.take(i as int),
                enabled,
            ),
        decreases exchanges.len() - i,
    {
        let e = &exchanges[i];
        let l = label_of(e.name.as_str());
        let ghost before = lines@.map_values(|v: Vec<char>| v@);
        push_line(&mut lines, labeled("cwm_ws_connected{exchange=\"", &l, "\"} ", &flag_exec(enabled && e.connected)));
        push_line(&mut lines, labeled("cwm_ws_reconnect_total{exchange=\"", &l, "\"} ", &u64_decimal(e.reconnect_count)));
        push_line(&mut lines, labeled("cwm_trades_received_total{exchange=\"", &l, "\"} ", &flag_exec(e.has_last_trade)));
        push_line(&mut lines, labeled("cwm_trade_normalize_errors_total{exchange=\"", &l, "\"} 0", &Vec::new()));
        proof {
            assert(exchanges@.take(i + 1).drop_last() =~= exchanges@.take(i as int));
            assert(lines@.map_values(|v: Vec<char>| v@) =~~= before + exchange_lines(exchanges@[i as int], enabled));
        }
        i = i + 1;
    }
    proof {
        assert(exchanges@.take(exchanges@.len() as int) =~= exchanges@);
    }
    let mut fl = chars_of("cwm_bucket_flush_total ");
    append_chars(&mut fl, &flag_exec(figures.flushed));
    push_line(&mut lines, fl);
    push_line(&mut lines, chars_of("cwm_bucket_flush_errors_total 0"));

    // Keys of the generated and skipped signals, and the sends.
    let mut gen_keys: Vec<(Vec<char>, Vec<char>)> = Vec::new();
    let mut skip_keys: Vec<(Vec<char>, Vec<char>)> = Vec::new();
    let mut sent: usize = 0;
    let mut j: usize = 0;
    while j < signals.len()
        invariant
            j <= signals@.len(),
            signals@.len() + 1 < usize::MAX,
            keys_view(gen_keys@) == generated_keys(signals@.take(j as int)),
            keys_view(skip_keys@) == skipped_keys(signals@.take(j as int)),
            sent == sent_count(signals@.take(j as int)),
            sent <= j,
            skip_keys@.len() <= j,
        decreases signals.len() - j,
    {
        let s = &signals[j];
        proof {
            assert(signals@.take(j + 1).drop_last() =~= signals@.take(j as int));
        }
        let ghost g0 = gen_keys@;
        gen_keys.push((label_of(severity_name_exec(s.severity)), label_of(signal_kind_name_exec(s.signal_type))));
        proof {
            assert(keys_view(gen_keys@) =~= keys_view(g0).push(generated_key(signals@[j as int])));
            assert(generated_keys(signals@.take(j + 1)) =~= generated_keys(signals@.take(j as int)).push(
                generated_key(signals@[j as int]),
            ));
        }
        if s.discord_sent {
            sent = sent + 1;
        } else {
            let ghost s0 = skip_keys@;
            skip_keys.push((label_of(s.discord_reason.as_str()), Vec::new()));
            proof {
                assert(keys_view(skip_keys@) =~= keys_view(s0).push(
                    (metric_label_of(signals@[j as int].discord_reason@), Seq::<char>::empty()),
                ));
            }
        }
        j = j + 1;
    }
    proof {
        assert(signals@.take(signals@.len() as int) =~= signals@);
    }
    let generated = tally(&gen_keys);
    let skipped = tally(&skip_keys);
    let ghost gv = tallies_view(generated@);
    let ghost sv = tallies_view(skipped@);

    let ghost before_gen = lines@.map_values(|v: Vec<char>| v@);
    let mut k: usize = 0;
    while k < generated.len()
        invariant
            k <= generated@.len(),
            gv == tallies_view(generated@),
            lines@.map_values(|v: Vec<char>| v@) == before_gen + gv.take(k as int).map_values(
                |t: ((Seq<char>, Seq<char>), nat)| generated_line(t),
            ),
        decreases generated.len() - k,
    {
        let t = &generated[k];
        let mut line = chars_of("cwm_signals_generated_total{severity=\"");
        append_chars(&mut line, &t.first);
        push_str(&mut line, "\",type=\"");
        append_chars(&mut line, &t.second);
        push_str(&mut line, "\"} ");
        append_chars(&mut line, &u64_decimal(t.count as u64));
        let ghost prev = lines@.map_values(|v: Vec<char>| v@);
        push_line(&mut lines, line);
        proof {
            assert(gv[k as int] == ((t.first@, t.second@), t.count as nat));
            assert(gv.take(k + 1).map_values(|t: ((Seq<char>, Seq<char>), nat)| generated_line(t))
                =~= gv.take(k as int).map_values(|t: ((Seq<char>, Seq<char>), nat)| generated_line(t)).push(
                generated_line(gv[k as int]),
            ));
        }
        k = k + 1;
    }
    proof {
        assert(gv.take(generated@.len() as int) =~= gv);
    }
    let mut st = chars_of("cwm_discord_sent_total ");
    append_chars(&mut st, &u64_decimal(sent as u64));
    push_line(&mut lines, st);

    let ghost before_skip = lines@.map_values(|v: Vec<char>| v@);
    let mut m: usize = 0;
    while m < skipped.len()
        invariant
            m <= skipped@.len(),
            sv == tallies_view(skipped@),
            lines@.map_values(|v: Vec<char>| v@) == before_skip + sv.take(m as int).map_values(
                |t: ((Seq<char>, Seq<char>), nat)| skipped_line(t),
            ),
        decreases skipped.len() - m,
    {
        let t = &skipped[m];
        let line = labeled("cwm_discord_skipped_total{reason=\"", &t.first, "\"} ", &u64_decimal(t.count as u64));
        push_line(&mut lines, line);
        proof {
            assert(sv[m as int] == ((t.first@, t.second@), t.count as nat));
            assert(sv.take(m + 1).map_values(|t: ((Seq<char>, Seq<char>), nat)| skipped_line(t))
                =~= sv.take(m as int).map_values(|t: ((Seq<char>, Seq<char>), nat)| skipped_line(t)).push(
                skipped_line(sv[m as int]),
            ));
        }
        m = m + 1;
    }
    proof {
        assert(sv.take(skipped@.len() as int) =~= sv);
    }
    let mut dq = chars_of("cwm_data_quality ");
    push_str(&mut dq, figures.data_quality.as_str());
    push_line(&mut lines, dq);

    let ghost before_trends = lines@.map_values(|v: Vec<char>| v@);
    let mut n: usize = 0;
    proof {
        assert(trends@.take(0) =~= Seq::<MetricsTrend>::empty());
        assert(before_trends + all_trend_lines(trends@.take(0)) =~= before_trends);
    }
    while n < trends.len()
        invariant
            n <= trends@.len(),
            lines@.map_values(|v: Vec<char>| v@) == before_trends + all_trend_lines(trends@.take(n as int)),
        decreases trends.len() - n,
    {
        let t = &trends[n];
        let u = label_of(trend_summary_unit(&t.unit).as_str());
        let mut tags = chars_of("{symbol=\"");
        append_chars(&mut tags, &u);
        push_str(&mut tags, "\",quantity_unit=\"");
        append_chars(&mut tags, &u);
        push_str(&mut tags, "\"} ");
        let ghost before = lines@.map_values(|v: Vec<char>| v@);
        push_line(&mut lines, labeled("cwm_trend_60s_buy_volume", &tags, "", &chars_of(t.buy_volume.as_str())));
        push_line(&mut lines, labeled("cwm_trend_60s_sell_volume", &tags, "", &chars_of(t.sell_volume.as_str())));
        push_line(&mut lines, labeled("cwm_trend_60s_total_volume", &tags, "", &chars_of(t.total_volume.as_str())));
        push_line(&mut lines, labeled("cwm_trend_60s_net_volume", &tags, "", &chars_of(t.net_volume.as_str())));
        proof {
            reveal_strlit("");
            assert(trends@.take(n + 1).drop_last() =~= trends@.take(n as int));
            assert(lines@.map_values(|v: Vec<char>| v@) =~~= before + trend_lines(trends@[n as int]));
        }
        n = n + 1;
    }
    proof {
        assert(trends@.take(trends@.len() as int) =~= trends@);
    }
    let mut bb = chars_of("cwm_trend_60s_buy_volume_btc ");
    push_str(&mut bb, figures.buy_volume_btc.as_str());
    push_line(&mut lines, bb);
    let mut sb = chars_of("cwm_trend_60s_sell_volume_btc ");
    push_str(&mut sb, figures.sell_volume_btc.as_str());
    push_line(&mut lines, sb);
    proof {
        reveal_strlit("");
        let target = metrics_lines(enabled, exchanges@, trends@, signals@, *figures, gv, sv);
        assert(lines@.map_values(|v: Vec<char>| v@) =~~= target);
    }
    let out = join_lines(&lines);
    string_of(&out)
}

/// The metrics text of the monitor with a single trend.
pub fn build_contract_whale_metrics_text(
    enabled: bool,
    exchanges: &Vec<MetricsExchange>,
    trend_60s: MetricsTrend,
    signals: &Vec<MetricsSignal>,
    figures: &MetricsFigures,
) -> (r: String)
    requires
        signals@.len() + 1 < usize::MAX,
    ensures
        exists|
            generated: Seq<((Seq<char>, Seq<char>), nat)>,
            skipped: Seq<((Seq<char>, Seq<char>), nat)>,
        |
            {
                &&& is_tally(generated, generated_keys(signals@))
                &&& is_tally(skipped, skipped_keys(signals@))
                &&& r@ == joined(
                    metrics_lines(
                        enabled,
                        exchanges@,
                        seq![trend_60s],
                        signals@,
                        *figures,
                        generated,
                        skipped,
                    ),
                )
            },
{
    let ghost t = trend_60s;
    let mut trends: Vec<MetricsTrend> = Vec::new();
    trends.push(trend_60s);
    proof {
        assert(trends@ =~= seq![t]);
    }
    build_contract_whale_metrics_text_with_trends(enabled, exchanges, &trends, signals, figures)
}

} // verus!
