//! The daily report: an aggregate of the day's summaries, asked of the
//! remote model when a credential is set and falling back to their plain
//! concatenation, and the per-day statistics.

use vstd::prelude::*;
use crate::records::Summary;
use crate::remote::ClientError;
use crate::settings::Language;

verus! {

/// One day's persisted report.
#[derive(Debug, Clone, PartialEq, Eq)]
pub struct DailySummary {
    pub id: i64,
    /// `YYYY-MM-DD`.
    pub date: String,
    pub content: String,
    pub screenshot_count: i32,
    pub summary_count: i32,
    pub total_duration_seconds: i64,
    pub created_at_ms: i64,
    pub updated_at_ms: i64,
}

/// The counts of one day, for charts.
#[derive(Debug, Clone, PartialEq, Eq)]
pub struct HistoricalStats {
    /// `YYYY-MM-DD`.
    pub date: String,
    pub screenshot_count: i64,
    pub summary_count: i64,
    pub total_duration_seconds: i64,
}

/// The texts joined with a blank line between each two.
pub open spec fn joined(texts: Seq<String>) -> Seq<char>
    decreases texts.len(),
{
    if texts.len() == 0 {
        Seq::empty()
    } else if texts.len() == 1 {
        texts[0]@
    } else {
        joined(texts.drop_last()) + "\n\n"@ + texts.last()@
    }
}

/// The contents of the summaries, in order, joined with a blank line.
pub fn combine_summaries(summaries: &Vec<Summary>) -> (r: String)
    ensures
        r@ == joined(summaries@.map_values(|s: Summary| s.content)),
{
    let ghost contents = summaries@.map_values(|s: Summary| s.content);
    let mut r = String::new();
    let mut i: usize = 0;
    while i < summaries.len()
        invariant
            i <= summaries@.len(),
            contents == summaries@.map_values(|s: Summary| s.content),
            r@ == joined(contents.subrange(0, i as int)),
        decreases summaries@.len() - i,
    {
        if i > 0 {
            r.append("\n\n");
        }
        r.append(summaries[i].content.as_str());
        proof {
            let s = contents.subrange(0, i + 1);
            assert(s.drop_last() =~= contents.subrange(0, i as int));
            if i == 0 {
                assert(r@ =~= joined(s));
            } else {
                assert(r@ =~= joined(s));
            }
        }
        i = i + 1;
    }
    assert(contents.subrange(0, i as int) =~= contents);
    r
}

/// The report of a day without any summary.
pub open spec fn no_activity_spec(l: Language) -> Seq<char> {
    match l {
        Language::En => "No activity recorded for this day."@,
        Language::Zh => "今天没有记录任何活动。"@,
    }
}

/// The report of a day without any summary.
pub fn no_activity_text(l: Language) -> (r: &'static str)
    ensures
        r@ == no_activity_spec(l),
{
    match l {
        Language::En => "No activity recorded for this day.",
        Language::Zh => "今天没有记录任何活动。",
    }
}

/// The instruction that asks for a daily report over the joined summaries.
pub open spec fn daily_prompt_spec(l: Language, combined: Seq<char>) -> Seq<char> {
    match l {
        Language::En => "Based on the following activity summaries from today, provide a comprehensive daily summary. Include: 1) Overall productivity assessment; 2) Main activities and time distribution; 3) Key insights and recommendations for improvement.\n\nToday's summaries:\n"@ + combined,
        Language::Zh => "基于以下今天的所有活动摘要，生成一份综合的每日总结。包括：1) 整体效率评估；2) 主要活动和时间分布；3) 关键洞察和改进建议。\n\n今天的摘要：\n"@ + combined,
    }
}

/// The instruction that asks for a daily report over the joined summaries.
pub fn daily_prompt(l: Language, combined: &str) -> (r: String)
    ensures
        r@ == daily_prompt_spec(l, combined@),
{
    let mut r = match l {
        Language::En => String::from_str("Based on the following activity summaries from today, provide a comprehensive daily summary. Include: 1) Overall productivity assessment; 2) Main activities and time distribution; 3) Key insights and recommendations for improvement.\n\nToday's summaries:\n"),
        Language::Zh => String::from_str("基于以下今天的所有活动摘要，生成一份综合的每日总结。包括：1) 整体效率评估；2) 主要活动和时间分布；3) 关键洞察和改进建议。\n\n今天的摘要：\n"),
    };
    r.append(combined);
    r
}

/// How the day's report is obtained.
#[derive(Debug, Clone, PartialEq, Eq)]
pub enum DailyPlan {
    /// The report is this text; no remote call.
    Report { content: String },
    /// Ask the remote model with `prompt`; if that fails, report `fallback`.
    AskRemote { prompt: String, fallback: String },
}

/// Plans the day's report: a fixed text when there is no summary, the
/// joined summaries when no credential is set, and otherwise a request to
/// the remote model that falls back to the joined summaries.
pub fn plan_daily_report(summaries: &Vec<Summary>, l: Language, has_credential: bool) -> (r: DailyPlan)
    ensures
        summaries@.len() == 0 ==> (r matches DailyPlan::Report { content } && content@
            == no_activity_spec(l)),
        summaries@.len() > 0 && !has_credential ==> (r matches DailyPlan::Report { content }
            && content@ == joined(summaries@.map_values(|s: Summary| s.content))),
        summaries@.len() > 0 && has_credential ==> (r matches DailyPlan::AskRemote {
            prompt,
            fallback,
        } && fallback@ == joined(summaries@.map_values(|s: Summary| s.content)) && prompt@
            == daily_prompt_spec(l, fallback@)),
{
    if summaries.len() == 0 {
        return DailyPlan::Report { content: String::from_str(no_activity_text(l)) };
    }
    let combined = combine_summaries(summaries);
    if !has_credential {
        return DailyPlan::Report { content: combined };
    }
    let prompt = daily_prompt(l, combined.as_str());
    DailyPlan::AskRemote { prompt, fallback: combined }
}

/// The report once the remote model answered: its text, or the fallback
/// when it failed.
pub fn daily_report(remote: Result<String, ClientError>, fallback: String) -> (r: String)
    ensures
        r@ == (match remote {
            Ok(t) => t@,
            Err(_) => fallback@,
        }),
{
    match remote {
        Ok(t) => t,
        Err(_) => fallback,
    }
}

/// Whole seconds from `start_ms` to `end_ms`, truncated toward zero.
pub open spec fn span_seconds(start_ms: i64, end_ms: i64) -> int {
    let d = end_ms - start_ms;
    if d >= 0 {
        d / 1000
    } else {
        -((-d) / 1000)
    }
}

/// The summed durations of the summaries, in seconds.
pub open spec fn total_seconds(s: Seq<Summary>) -> int
    decreases s.len(),
{
    if s.len() == 0 {
        0
    } else {
        total_seconds(s.drop_last()) + span_seconds(s.last().start_time_ms, s.last().end_time_ms)
    }
}

/// The summed durations of the summaries, in whole seconds each; `None`
/// when the sum does not fit in an `i64`.
pub fn total_duration_seconds(summaries: &Vec<Summary>) -> (r: Option<i64>)
    ensures
        i64::MIN <= total_seconds(summaries@) <= i64::MAX ==> r == Some(
            total_seconds(summaries@) as i64,
        ),
        !(i64::MIN <= total_seconds(summaries@) <= i64::MAX) ==> r is None,
{
    let mut sum: i128 = 0;
    let mut i: usize = 0;
    while i < summaries.len()
        invariant
            i <= summaries@.len(),
            sum == total_seconds(summaries@.subrange(0, i as int)),
            -(i as int) * 0x4000_0000_0000_0000 <= sum <= (i as int) * 0x4000_0000_0000_0000,
        decreases summaries@.len() - i,
    {
        let s = &summaries[i];
        let d: i128 = s.end_time_ms as i128 - s.start_time_ms as i128;
        let secs: i128 = if d >= 0 {
            d / 1000
        } else {
            -((-d) / 1000)
        };
        proof {
            let t = summaries@.subrange(0, i + 1);
            assert(t.drop_last() =~= summaries@.subrange(0, i as int));
            assert(i < usize::MAX);
        }
        sum = sum + secs;
        i = i + 1;
    }
    assert(summaries@.subrange(0, i as int) =~= summaries@);
    if sum < i64::MIN as i128 || sum > i64::MAX as i128 {
        None
    } else {
        Some(sum as i64)
    }
}

/// The stored report's counts for `date`, when a report for it is stored.
pub fn stored_stats(date: &str, stored: &Vec<DailySummary>) -> (r: Option<HistoricalStats>)
    ensures
        r is None <==> forall|k: int| 0 <= k < stored@.len() ==> (#[trigger] stored@[k]).date@
            != date@,
        r matches Some(h) ==> exists|k: int|
            0 <= k < stored@.len() && (#[trigger] stored@[k]).date@ == date@ && h.date@ == date@
                && h.screenshot_count == stored@[k].screenshot_count as i64 && h.summary_count
                == stored@[k].summary_count as i64 && h.total_duration_seconds
                == stored@[k].total_duration_seconds,
{
    let mut i: usize = 0;
    while i < stored.len()
        invariant
            i <= stored@.len(),
            forall|k: int| 0 <= k < i ==> (#[trigger] stored@[k]).date@ != date@,
        decreases stored@.len() - i,
    {
        let d = &stored[i];
        if d.date.as_str().unicode_len() == date.unicode_len() && crate::settings::same_text(
            d.date.as_str(),
            date,
        ) {
            return Some(
                HistoricalStats {
                    date: d.date.clone(),
                    screenshot_count: d.screenshot_count as i64,
                    summary_count: d.summary_count as i64,
                    total_duration_seconds: d.total_duration_seconds,
                },
            );
        }
        i = i + 1;
    }
    None
}

/// A day's counts computed from its raw captures and summaries, for a day
/// without a stored report; `None` when the summed duration does not fit.
pub fn computed_stats(date: String, screenshot_count: usize, summaries: &Vec<Summary>) -> (r: Option<
    HistoricalStats,
>)
    requires
        screenshot_count <= i64::MAX,
        summaries@.len() <= i64::MAX,
    ensures
        i64::MIN <= total_seconds(summaries@) <= i64::MAX <==> r is Some,
        r matches Some(h) ==> h.date@ == date@ && h.screenshot_count == screenshot_count
            && h.summary_count == summaries@.len() && h.total_duration_seconds == total_seconds(
            summaries@,
        ),
{
    let total = total_duration_seconds(summaries)?;
    Some(
        HistoricalStats {
            date,
            screenshot_count: screenshot_count as i64,
            summary_count: summaries.len() as i64,
            total_duration_seconds: total,
        },
    )
}

} // verus!
