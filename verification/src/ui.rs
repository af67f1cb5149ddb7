//! Pure render model: what one frame of the dashboard shows, computed from
//! the application state. Drawing the frame on a terminal happens outside
//! the library; rendering here is deterministic and side-effect free.

use vstd::prelude::*;
use vstd::string::StringExecFns;
use crate::state::{
    AppState, Announcement, FetchOutcome, KeyEvent, LoopEvent, TAB_COUNT, key_step,
    lemma_home_data_stable, message_step, run, run_messages,
};

verus! {

/// Fixed-width navigation region: the six tab labels and which one is
/// highlighted.
pub struct SidebarView {
    pub labels: Vec<String>,
    pub selected: usize,
}

/// Content region: headline, right-aligned tips line, and body text.
pub struct BannerView {
    pub title: String,
    pub tips_line: String,
    pub content: String,
}

/// Everything one frame shows.
pub struct HomeView {
    pub sidebar: SidebarView,
    pub banner: BannerView,
}

/// The six sidebar entries, in display order.
pub open spec fn spec_tab_labels() -> Seq<Seq<char>> {
    seq![" 主页 "@, " 服务器 "@, " 映射 "@, " 联机 "@, " 设置 "@, " 关于 "@]
}

/// Headline shown while the announcement is still loading.
pub open spec fn spec_placeholder_title() -> Seq<char> {
    "公告"@
}

/// Body text shown while the announcement is still loading.
pub open spec fn spec_placeholder_content() -> Seq<char> {
    "公告加载中..."@
}

/// The elements of `ts` joined with `sep` between neighbours.
pub open spec fn spec_join(ts: Seq<Seq<char>>, sep: Seq<char>) -> Seq<char>
    decreases ts.len(),
{
    if ts.len() == 0 {
        Seq::empty()
    } else if ts.len() == 1 {
        ts[0]
    } else {
        ts[0] + sep + spec_join(ts.drop_first(), sep)
    }
}

/// The secondary tips line: empty when there are no tips, otherwise the
/// tips joined by a separator under a fixed prefix.
pub open spec fn spec_tips_line(tips: Seq<Seq<char>>) -> Seq<char> {
    if tips.len() == 0 {
        Seq::empty()
    } else {
        " Tips: "@ + spec_join(tips, " | "@)
    }
}

/// What the frame `v` must show for state `s`: the sidebar highlights the
/// selected tab, and the banner shows the fetched announcement, or the
/// loading placeholder while none has arrived.
pub open spec fn view_matches(v: HomeView, s: AppState) -> bool {
    &&& v.sidebar.selected == s.selected_tab
    &&& v.sidebar.labels@.map_values(|l: String| l@) == spec_tab_labels()
    &&& match s.home_data {
        Some(a) => {
            &&& v.banner.title@ == a.title@
            &&& v.banner.content@ == a.content@
            &&& v.banner.tips_line@ == spec_tips_line(a.tips@.map_values(|t: String| t@))
        },
        None => {
            &&& v.banner.title@ == spec_placeholder_title()
            &&& v.banner.content@ == spec_placeholder_content()
            &&& v.banner.tips_line@ == Seq::<char>::empty()
        },
    }
}

/// Joining one more element appends a separator and that element.
proof fn lemma_join_push(ts: Seq<Seq<char>>, sep: Seq<char>, x: Seq<char>)
    ensures
        spec_join(ts.push(x), sep) == if ts.len() == 0 {
            x
        } else {
            spec_join(ts, sep) + sep + x
        },
    decreases ts.len(),
{
    if ts.len() == 0 {
        assert(ts.push(x).len() == 1);
        assert(ts.push(x)[0] == x);
    } else {
        assert(ts.push(x).drop_first() =~= ts.drop_first().push(x));
        lemma_join_push(ts.drop_first(), sep, x);
        if ts.len() == 1 {
            assert(spec_join(ts, sep) == ts[0]);
        }
    }
}

/// The six tab labels, in display order.
pub fn tab_labels() -> (r: Vec<String>)
    ensures
        r@.len() == TAB_COUNT,
        r@.map_values(|l: String| l@) == spec_tab_labels(),
{
    let mut v: Vec<String> = Vec::new();
    v.push(String::from_str(" 主页 "));
    v.push(String::from_str(" 服务器 "));
    v.push(String::from_str(" 映射 "));
    v.push(String::from_str(" 联机 "));
    v.push(String::from_str(" 设置 "));
    v.push(String::from_str(" 关于 "));
    proof {
        assert(v@.map_values(|l: String| l@) =~= spec_tab_labels());
    }
    v
}

/// Sidebar for the current state: all six labels, the selected one
/// highlighted.
pub fn render_sidebar(state: &AppState) -> (v: SidebarView)
    requires
        state.wf(),
    ensures
        v.selected == state.selected_tab,
        v.labels@.map_values(|l: String| l@) == spec_tab_labels(),
{
    SidebarView { labels: tab_labels(), selected: state.selected_tab }
}

/// The tips joined by `" | "`.
pub fn join_tips(tips: &Vec<String>) -> (r: String)
    ensures
        r@ == spec_join(tips@.map_values(|t: String| t@), " | "@),
{
    let ghost ts = tips@.map_values(|t: String| t@);
    let mut r = String::new();
    let mut i: usize = 0;
    while i < tips.len()
        invariant
            i <= tips.len(),
            ts == tips@.map_values(|t: String| t@),
            r@ == spec_join(ts.take(i as int), " | "@),
        decreases tips.len() - i,
    {
        if i > 0 {
            r.append(" | ");
        }
        r.append(tips[i].as_str());
        proof {
            assert(ts.take(i + 1 as int) =~= ts.take(i as int).push(ts[i as int]));
            lemma_join_push(ts.take(i as int), " | "@, ts[i as int]);
        }
        i = i + 1;
    }
    proof {
        assert(ts.take(tips@.len() as int) =~= ts);
    }
    r
}

/// The full tips line, or the empty string when there are no tips.
pub fn tips_line(tips: &Vec<String>) -> (r: String)
    ensures
        r@ == spec_tips_line(tips@.map_values(|t: String| t@)),
{
    if tips.len() == 0 {
        String::new()
    } else {
        String::from_str(" Tips: ").concat(join_tips(tips).as_str())
    }
}

/// Assemble the banner region from its three text parts.
pub fn render_banner(title: &str, tips: &str, content: &str) -> (b: BannerView)
    ensures
        b.title@ == title@,
        b.tips_line@ == tips@,
        b.content@ == content@,
{
    BannerView {
        title: String::from_str(title),
        tips_line: String::from_str(tips),
        content: String::from_str(content),
    }
}

/// Render one frame from the current state. Deterministic: equal states
/// yield equal frames, and the state is not changed.
pub fn render(state: &AppState) -> (v: HomeView)
    requires
        state.wf(),
    ensures
        view_matches(v, *state),
{
    let sidebar = render_sidebar(state);
    let banner = match &state.home_data {
        Some(data) => {
            let line = tips_line(&data.tips);
            render_banner(data.title.as_str(), line.as_str(), data.content.as_str())
        },
        None => {
            let b = render_banner("公告", "", "公告加载中...");
            proof {
                reveal_strlit("");
                assert(""@ =~= Seq::<char>::empty());
            }
            b
        },
    };
    HomeView { sidebar, banner }
}

/// Law: once a `Loaded(a)` message has been drained, every frame rendered
/// after any further events shows that announcement's title, content and
/// tips, and the announcement never reverts to absent.
pub proof fn lemma_loaded_then_every_render_shows(
    s: AppState,
    a: Announcement,
    es: Seq<LoopEvent>,
    v: HomeView,
)
    requires
        s.home_data is None,
        view_matches(v, run(message_step(s, FetchOutcome::Loaded(a)), es)),
    ensures
        run(message_step(s, FetchOutcome::Loaded(a)), es).home_data == Some(a),
        v.banner.title@ == a.title@,
        v.banner.content@ == a.content@,
        v.banner.tips_line@ == spec_tips_line(a.tips@.map_values(|t: String| t@)),
{
    lemma_home_data_stable(message_step(s, FetchOutcome::Loaded(a)), es, a);
}

impl AppState {
    /// One event-loop tick: drain the queued messages, render the frame
    /// from the updated state, then apply the polled key event, if any.
    /// Message mutations land strictly before the render; the key strictly
    /// after it, so a frame never shows a half-applied update.
    pub fn tick(&mut self, msgs: Vec<FetchOutcome>, key: Option<KeyEvent>) -> (frame: HomeView)
        requires
            old(self).wf(),
        ensures
            final(self).wf(),
            view_matches(frame, run_messages(*old(self), msgs@)),
            *final(self) == (match key {
                Some(k) => key_step(run_messages(*old(self), msgs@), k),
                None => run_messages(*old(self), msgs@),
            }),
    {
        self.drain_messages(msgs);
        let frame = render(self);
        match key {
            Some(k) => self.handle_key(k),
            None => {},
        }
        frame
    }
}

} // verus!
