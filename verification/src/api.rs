//! Data carried by the remote announcement API and the logic that turns
//! its responses into the payload the dashboard shows. The HTTP requests
//! themselves happen outside the library; this module combines their
//! decoded results.

use vstd::prelude::*;
use vstd::string::StringExecFns;
use crate::state::{Announcement, FetchOutcome};

verus! {

/// Envelope every API endpoint answers with.
#[derive(Debug)]
pub struct ApiResponse<T> {
    pub code: i32,
    pub message: String,
    pub data: T,
}

/// Body of the notice query.
#[derive(Debug)]
pub struct NoticeData {
    pub notice: String,
}

/// Body of the tips query.
#[derive(Debug)]
pub struct TipsData {
    pub tips: Vec<String>,
}

/// What the home tab needs from the two queries together.
#[derive(Debug)]
pub struct HomeDisplayData {
    pub notice_html: String,
    pub tips: Vec<String>,
}

/// Combine the two query responses into the home display payload. Success
/// needs both application-level codes to be 200; then the notice text and
/// the tips are taken over unchanged. A failing query yields an error
/// carrying that query's server-provided message, the notice query
/// checked first.
pub fn combine_home_responses(notice: ApiResponse<NoticeData>, tips: ApiResponse<TipsData>) -> (r:
    Result<HomeDisplayData, String>)
    ensures
        notice.code != 200 ==> (r is Err && r->Err_0@ == "获取公告错误："@ + notice.message@),
        notice.code == 200 && tips.code != 200 ==> (r is Err && r->Err_0@ == "获取提示错误："@
            + tips.message@),
        notice.code == 200 && tips.code == 200 ==> (r is Ok && r->Ok_0.notice_html
            == notice.data.notice && r->Ok_0.tips == tips.data.tips),
{
    if notice.code != 200 {
        Err(String::from_str("获取公告错误：").concat(notice.message.as_str()))
    } else if tips.code != 200 {
        Err(String::from_str("获取提示错误：").concat(tips.message.as_str()))
    } else {
        Ok(HomeDisplayData { notice_html: notice.data.notice, tips: tips.data.tips })
    }
}

/// Wrap the fetched payload as the announcement the dashboard shows, under
/// the fixed notice headline.
pub fn announcement_from_display(d: HomeDisplayData) -> (a: Announcement)
    ensures
        a.title@ == "公告"@,
        a.content == d.notice_html,
        a.tips == d.tips,
{
    Announcement { title: String::from_str("公告"), content: d.notice_html, tips: d.tips }
}

/// The single message the background fetcher reports: the announcement on
/// success, the human-readable cause on any failure.
pub fn outcome_from_fetch(r: Result<HomeDisplayData, String>) -> (m: FetchOutcome)
    ensures
        r matches Ok(d) ==> (m matches FetchOutcome::Loaded(a) && a.title@ == "公告"@
            && a.content == d.notice_html && a.tips == d.tips),
        r matches Err(e) ==> m == FetchOutcome::Failed(e),
{
    match r {
        Ok(d) => FetchOutcome::Loaded(announcement_from_display(d)),
        Err(e) => FetchOutcome::Failed(e),
    }
}

} // verus!
