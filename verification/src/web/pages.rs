//! The admin pages' own decisions: delete confirmations, the errors a page
//! shows, the source forms and list, the overview figures, the Clash
//! template draft, the login page's view and a few display classes.
use vstd::prelude::*;

use crate::text::{dec, dec_int, fmt_i64, fmt_u64, seq_join, str_eq, trim, trimmed};
use crate::web_core::dto::SourceDto;

verus! {

/// A confirmation dialog; closed dialogs show nothing.
#[derive(Debug, Clone)]
pub struct ConfirmState {
    pub open: bool,
    pub title: String,
    pub message: String,
    pub confirm_text: String,
    pub danger: bool,
}

/// What a delete confirmation is about.
#[derive(Debug, Clone, Copy, PartialEq, Eq, Structural)]
pub enum DeleteTarget {
    Source,
    Combined,
}

/// The title of a delete confirmation.
pub open spec fn delete_title(t: DeleteTarget) -> Seq<char> {
    match t {
        DeleteTarget::Source => "删除订阅源"@,
        DeleteTarget::Combined => "删除组合订阅"@,
    }
}

/// The question of a delete confirmation for `name`.
pub open spec fn delete_message(name: Seq<char>) -> Seq<char> {
    "确定删除「"@ + name + "」？此操作不可撤销。"@
}

impl ConfirmState {
    /// The closed dialog.
    pub fn closed() -> (r: Self)
        ensures
            !r.open,
            r.title@.len() == 0,
            r.message@.len() == 0,
            r.confirm_text@.len() == 0,
            !r.danger,
    {
        proof {
            reveal_strlit("");
        }
        ConfirmState {
            open: false,
            title: String::new(),
            message: String::new(),
            confirm_text: String::new(),
            danger: false,
        }
    }
}

/// The confirmation of deleting the source or combined subscription `name`:
/// open, dangerous, with the button `删除`.
pub fn delete_confirm(target: DeleteTarget, name: &str) -> (r: ConfirmState)
    ensures
        r.open,
        r.title@ == delete_title(target),
        r.message@ == delete_message(name@),
        r.confirm_text@ == "删除"@,
        r.danger,
{
    let title = match target {
        DeleteTarget::Source => String::from_str("删除订阅源"),
        DeleteTarget::Combined => String::from_str("删除组合订阅"),
    };
    let mut message = String::from_str("确定删除「");
    message.append(name);
    message.append("」？此操作不可撤销。");
    ConfirmState {
        open: true,
        title,
        message,
        confirm_text: String::from_str("删除"),
        danger: true,
    }
}

/// The non-empty texts of `es`, in order.
pub open spec fn non_empty(es: Seq<Seq<char>>) -> Seq<Seq<char>>
    decreases es.len(),
{
    if es.len() == 0 {
        seq![]
    } else if es.last().len() == 0 {
        non_empty(es.drop_last())
    } else {
        non_empty(es.drop_last()).push(es.last())
    }
}

/// The error of a page that shows several data units: their non-empty
/// errors joined by `; `.
pub open spec fn joined_errors(es: Seq<Seq<char>>) -> Seq<char> {
    seq_join(non_empty(es), "; "@)
}

/// The non-empty errors of `errors`, joined by `; `.
pub fn join_errors(errors: &Vec<String>) -> (r: String)
    ensures
        r@ == joined_errors(errors@.map_values(|e: String| e@)),
{
    let ghost views = errors@.map_values(|e: String| e@);
    let mut r = String::new();
    let mut count: usize = 0;
    let mut i: usize = 0;
    proof {
        reveal_strlit("");
    }
    while i < errors.len()
        invariant
            i <= errors.len(),
            views == errors@.map_values(|e: String| e@),
            r@ == seq_join(non_empty(views.take(i as int)), "; "@),
            count == non_empty(views.take(i as int)).len(),
            count <= i,
        decreases errors.len() - i,
    {
        let ghost pre = views.take(i as int);
        assert(views.take(i + 1).drop_last() =~= pre);
        assert(views.take(i + 1).last() == errors@[i as int]@);
        let e = &errors[i];
        if e.unicode_len() > 0 {
            if count > 0 {
                r.append("; ");
            }
            r.append(e.as_str());
            proof {
                let ne = non_empty(pre).push(e@);
                assert(ne.drop_last() =~= non_empty(pre));
                if count == 0 {
                    assert(seq_join(ne, "; "@) == ne[0]);
                    assert(r@ =~= e@);
                }
            }
            count = count + 1;
        }
        i = i + 1;
    }
    assert(views.take(errors.len() as int) =~= views);
    r
}

/// The error a page shows: its own where it has one, else the error of the
/// data it reads.
pub open spec fn shown_error(local: Seq<char>, cached: Seq<char>) -> Seq<char> {
    if local.len() > 0 {
        local
    } else {
        cached
    }
}

/// The error a page shows.
pub fn page_error(local: &str, cached: &str) -> (r: String)
    ensures
        r@ == shown_error(local@, cached@),
{
    if local.unicode_len() > 0 {
        String::from_str(local)
    } else {
        String::from_str(cached)
    }
}

/// The error of the combined subscriptions page: the form's own error
/// first, else the errors of the data units it reads, joined.
pub fn combined_page_error(form_error: &str, unit_errors: &Vec<String>) -> (r: String)
    ensures
        r@ == (if form_error@.len() > 0 {
            form_error@
        } else {
            joined_errors(unit_errors@.map_values(|e: String| e@))
        }),
{
    if form_error.unicode_len() > 0 {
        String::from_str(form_error)
    } else {
        join_errors(unit_errors)
    }
}

/// The message of a source form with an empty URL or name.
pub open spec fn source_form_problem(url: Seq<char>, name: Seq<char>) -> Option<Seq<char>> {
    if url.len() == 0 || name.len() == 0 {
        Some("URL 和名称不能为空"@)
    } else {
        None
    }
}

/// Checks a source form (adding or editing) before it is sent.
pub fn source_form_error(url: &str, name: &str) -> (r: Option<&'static str>)
    ensures
        match r {
            Some(m) => source_form_problem(url@, name@) == Some(m@),
            None => source_form_problem(url@, name@) is None,
        },
{
    if url.unicode_len() == 0 || name.unicode_len() == 0 {
        Some("URL 和名称不能为空")
    } else {
        None
    }
}

/// The sources of kind `kind`, in order.
pub open spec fn of_kind(s: Seq<SourceDto>, kind: Seq<char>) -> Seq<SourceDto>
    decreases s.len(),
{
    if s.len() == 0 {
        seq![]
    } else if s.last().kind@ == kind {
        of_kind(s.drop_last(), kind).push(s.last())
    } else {
        of_kind(s.drop_last(), kind)
    }
}

/// The sources that a page of kind `kind` lists.
pub fn sources_of_kind(list: Vec<SourceDto>, kind: &str) -> (r: Vec<SourceDto>)
    ensures
        r@ == of_kind(list@, kind@),
{
    let ghost all = list@;
    let mut rest = list;
    let mut out: Vec<SourceDto> = Vec::new();
    let ghost mut done: int = 0;
    while rest.len() > 0
        invariant
            0 <= done <= all.len(),
            rest@ == all.skip(done),
            out@ == of_kind(all.take(done), kind@),
        decreases rest.len(),
    {
        let s = rest.remove(0);
        proof {
            assert(all[done] == s);
            assert(all.skip(done + 1) =~= all.skip(done).drop_first());
            assert(all.take(done + 1).drop_last() =~= all.take(done));
            assert(all.take(done + 1).last() == s);
        }
        if str_eq(s.kind.as_str(), kind) {
            out.push(s);
        }
        proof {
            done = done + 1;
        }
    }
    assert(all.take(all.len() as int) =~= all);
    out
}

/// The placeholder of the URL field on a page of kind `kind`.
pub fn url_placeholder(kind: &str) -> (r: &'static str)
    ensures
        r@ == (if kind@ == "single"@ {
            "ss://..., vmess://... 单条节点链接"@
        } else {
            "https://example.com/sub"@
        }),
{
    if str_eq(kind, "single") {
        "ss://..., vmess://... 单条节点链接"
    } else {
        "https://example.com/sub"
    }
}

/// The class of a source kind's badge.
pub fn kind_badge_class(kind: &str) -> (r: &'static str)
    ensures
        r@ == (if kind@ == "single"@ {
            "badge info"@
        } else {
            "badge off"@
        }),
{
    if str_eq(kind, "single") {
        "badge info"
    } else {
        "badge off"
    }
}

/// The address of the source `id` in the admin API.
pub fn source_path(id: i64) -> (r: String)
    ensures
        r@ == "/admin/sources/"@ + dec_int(id as int),
{
    let mut r = String::from_str("/admin/sources/");
    let digits = fmt_i64(id);
    r.append(digits.as_str());
    r
}

/// The title of the dialog that edits the source `name`.
pub fn edit_title(name: &str) -> (r: String)
    ensures
        r@ == "编辑「"@ + name@ + "」"@,
{
    let mut r = String::from_str("编辑「");
    r.append(name);
    r.append("」");
    r
}

/// The figures of the overview page.
#[derive(Debug, Clone, Copy, PartialEq, Eq, Structural)]
pub struct OverviewFigures {
    pub sources: usize,
    pub enabled: usize,
    pub nodes: usize,
    pub failed: usize,
}

/// How many of `flags` are set.
pub open spec fn count_set(flags: Seq<bool>) -> nat
    decreases flags.len(),
{
    if flags.len() == 0 {
        0
    } else {
        count_set(flags.drop_last()) + if flags.last() {
            1nat
        } else {
            0nat
        }
    }
}

proof fn lemma_count_set_le(flags: Seq<bool>)
    ensures
        count_set(flags) <= flags.len(),
    decreases flags.len(),
{
    if flags.len() > 0 {
        lemma_count_set_le(flags.drop_last());
    }
}

/// The overview's figures from the sources' enabled flags (where the source
/// list is loaded) and the preview's node count and number of failed sources
/// (where the preview is loaded); zero for what is not loaded.
pub fn overview_figures(enabled: Option<&Vec<bool>>, preview: Option<(usize, usize)>) -> (r: OverviewFigures)
    ensures
        match enabled {
            Some(f) => r.sources == f@.len() && r.enabled == count_set(f@),
            None => r.sources == 0 && r.enabled == 0,
        },
        match preview {
            Some((n, e)) => r.nodes == n && r.failed == e,
            None => r.nodes == 0 && r.failed == 0,
        },
{
    let (sources, on) = match enabled {
        Some(f) => {
            let mut c: usize = 0;
            let mut i: usize = 0;
            while i < f.len()
                invariant
                    i <= f.len(),
                    c == count_set(f@.take(i as int)),
                decreases f.len() - i,
            {
                proof {
                    assert(f@.take(i + 1).drop_last() =~= f@.take(i as int));
                    lemma_count_set_le(f@.take(i as int));
                }
                if f[i] {
                    c = c + 1;
                }
                i = i + 1;
            }
            assert(f@.take(f.len() as int) =~= f@);
            (f.len(), c)
        },
        None => (0, 0),
    };
    let (nodes, failed) = match preview {
        Some((n, e)) => (n, e),
        None => (0, 0),
    };
    OverviewFigures { sources, enabled: on, nodes, failed }
}

/// The class of a figure's icon: red where something failed.
pub fn stat_icon_class(danger: bool) -> (r: &'static str)
    ensures
        r@ == (if danger {
            "stat-icon danger"@
        } else {
            "stat-icon"@
        }),
{
    if danger {
        "stat-icon danger"
    } else {
        "stat-icon"
    }
}

/// The badge of a source's state: its class and its label.
pub fn enabled_badge(enabled: bool) -> (r: (&'static str, &'static str))
    ensures
        r.0@ == (if enabled {
            "badge on"@
        } else {
            "badge off"@
        }),
        r.1@ == (if enabled {
            "启用"@
        } else {
            "停用"@
        }),
{
    if enabled {
        ("badge on", "启用")
    } else {
        ("badge off", "停用")
    }
}

/// The message of a Clash template that is blank.
pub open spec fn template_form_problem(t: Seq<char>) -> Option<Seq<char>> {
    if trimmed(t).len() == 0 {
        Some("模板不能为空"@)
    } else {
        None
    }
}

/// Checks the Clash template before it is sent.
pub fn template_form_error(t: &str) -> (r: Option<&'static str>)
    ensures
        match r {
            Some(m) => template_form_problem(t@) == Some(m@),
            None => template_form_problem(t@) is None,
        },
{
    if trim(t).unicode_len() == 0 {
        Some("模板不能为空")
    } else {
        None
    }
}

/// The Clash template editor's draft: filled once from the stored template
/// as soon as it is loaded, then only the user changes it.
pub open spec fn draft_after(inited: bool, draft: Seq<char>, cached: Option<Seq<char>>) -> (Seq<char>, bool) {
    if !inited {
        match cached {
            Some(t) => (t, true),
            None => (draft, false),
        }
    } else {
        (draft, true)
    }
}

/// The draft and whether it was filled, after the cache is read.
pub fn init_draft(inited: bool, draft: String, cached: Option<String>) -> (r: (String, bool))
    ensures
        (r.0@, r.1) == draft_after(
            inited,
            draft@,
            match cached {
                Some(t) => Some(t@),
                None => None,
            },
        ),
{
    if !inited {
        match cached {
            Some(t) => (t, true),
            None => (draft, false),
        }
    } else {
        (draft, true)
    }
}

/// Once filled, the draft holds the user's text whatever the cache holds
/// later.
pub proof fn lemma_draft_kept(draft: Seq<char>, cached: Option<Seq<char>>)
    ensures
        draft_after(true, draft, cached) == (draft, true),
{
}

/// Filling is done once: a second read of the cache keeps the first fill.
pub proof fn lemma_draft_filled_once(draft: Seq<char>, first: Seq<char>, later: Option<Seq<char>>)
    ensures
        draft_after(draft_after(false, draft, Some(first)).1, draft_after(false, draft, Some(first)).0, later)
            == (first, true),
{
}

/// The class of a theme button: active for the theme in use.
pub fn seg_class(current: &str, theme: &str) -> (r: &'static str)
    ensures
        r@ == (if current@ == theme@ {
            "seg active"@
        } else {
            "seg"@
        }),
{
    if str_eq(current, theme) {
        "seg active"
    } else {
        "seg"
    }
}

/// What the login page shows.
#[derive(Debug, Clone, Copy, PartialEq, Eq, Structural)]
pub enum LoginView {
    /// A spinner while it asks whether an account exists.
    Probing,
    /// The error of that question, which did not get an answer.
    ProbeFailed,
    /// The form that creates the first account.
    Setup,
    /// The login form.
    Login,
}

/// The login page's view from the answer about the first account (none
/// yet) and whether an error is on record.
pub fn login_view(needs_setup: Option<bool>, has_error: bool) -> (r: LoginView)
    ensures
        r == (match needs_setup {
            None => if has_error {
                LoginView::ProbeFailed
            } else {
                LoginView::Probing
            },
            Some(true) => LoginView::Setup,
            Some(false) => LoginView::Login,
        }),
{
    match needs_setup {
        None => if has_error {
            LoginView::ProbeFailed
        } else {
            LoginView::Probing
        },
        Some(true) => LoginView::Setup,
        Some(false) => LoginView::Login,
    }
}

/// A step of a page that can fail with a message.
#[derive(Debug, Clone, Copy, PartialEq, Eq, Structural)]
pub enum Failure {
    /// Asking whether an account exists.
    Probe,
    /// Creating the first account.
    Setup,
    Login,
    /// Reading an answer's body.
    Parse,
    /// Adding a source.
    Add,
    Save,
    Delete,
    /// Copying a link to the clipboard.
    Copy,
}

/// The words before the message of a failed step.
pub open spec fn failure_prefix(f: Failure) -> Seq<char> {
    match f {
        Failure::Probe => "检查初始化状态失败: "@,
        Failure::Setup => "创建失败: "@,
        Failure::Login => "登录失败: "@,
        Failure::Parse => "解析失败: "@,
        Failure::Add => "添加失败: "@,
        Failure::Save => "保存失败: "@,
        Failure::Delete => "删除失败: "@,
        Failure::Copy => "复制失败: "@,
    }
}

/// The text shown when step `f` fails with `msg`.
pub fn failure_text(f: Failure, msg: &str) -> (r: String)
    ensures
        r@ == failure_prefix(f) + msg@,
{
    let mut r = match f {
        Failure::Probe => String::from_str("检查初始化状态失败: "),
        Failure::Setup => String::from_str("创建失败: "),
        Failure::Login => String::from_str("登录失败: "),
        Failure::Parse => String::from_str("解析失败: "),
        Failure::Add => String::from_str("添加失败: "),
        Failure::Save => String::from_str("保存失败: "),
        Failure::Delete => String::from_str("删除失败: "),
        Failure::Copy => String::from_str("复制失败: "),
    };
    r.append(msg);
    r
}

/// A success that a toast announces.
#[derive(Debug, Clone, Copy, PartialEq, Eq, Structural)]
pub enum Notice {
    CombinedSaved,
    Deleted,
    SourceAdded,
    SourceUpdated,
    ClashSaved,
    Copied,
}

/// The text of a success toast.
pub fn notice_text(n: Notice) -> (r: &'static str)
    ensures
        r@ == (match n {
            Notice::CombinedSaved => "组合订阅已保存"@,
            Notice::Deleted => "已删除"@,
            Notice::SourceAdded => "订阅源已添加"@,
            Notice::SourceUpdated => "订阅源已更新"@,
            Notice::ClashSaved => "Clash 配置已保存"@,
            Notice::Copied => "已复制到剪贴板"@,
        }),
{
    match n {
        Notice::CombinedSaved => "组合订阅已保存",
        Notice::Deleted => "已删除",
        Notice::SourceAdded => "订阅源已添加",
        Notice::SourceUpdated => "订阅源已更新",
        Notice::ClashSaved => "Clash 配置已保存",
        Notice::Copied => "已复制到剪贴板",
    }
}

/// What a count badge counts.
#[derive(Debug, Clone, Copy, PartialEq, Eq, Structural)]
pub enum Counted {
    /// Sources on a source page.
    Sources,
    /// Members of a combined subscription.
    Members,
    /// Nodes of a preview.
    Nodes,
}

/// The text of a count badge.
pub open spec fn count_text(n: nat, what: Counted) -> Seq<char> {
    match what {
        Counted::Sources => dec(n) + " 个源"@,
        Counted::Members => dec(n) + " 个成员"@,
        Counted::Nodes => "共 "@ + dec(n) + " 个节点"@,
    }
}

/// The text of a count badge.
pub fn count_label(n: usize, what: Counted) -> (r: String)
    ensures
        r@ == count_text(n as nat, what),
{
    let digits = fmt_u64(n as u64);
    match what {
        Counted::Sources => {
            let mut r = digits;
            r.append(" 个源");
            r
        },
        Counted::Members => {
            let mut r = digits;
            r.append(" 个成员");
            r
        },
        Counted::Nodes => {
            let mut r = String::from_str("共 ");
            r.append(digits.as_str());
            r.append(" 个节点");
            r
        },
    }
}

} // verus!
