use submerge::web::combineds::{
    expire_copy, is_copied, save_request, subscription_links, CombinedForm,
};
use submerge::web::pages::{
    combined_page_error, count_label, delete_confirm, edit_title, enabled_badge, failure_text, init_draft,
    kind_badge_class, login_view, notice_text, overview_figures, page_error, seg_class,
    source_form_error, source_path, sources_of_kind, stat_icon_class, template_form_error,
    url_placeholder, ConfirmState, Counted, DeleteTarget, Failure, LoginView, Notice,
};
use submerge::web::preview::{
    modal_key, modal_path, preview_request, section_key, section_path, PreviewLoad,
    PreviewRequest,
};
use submerge::web::shell::{
    app_view, chevron_class, nav_item_class, sidebar_class, AppView, NavGroup, NavState, Page,
};
use submerge::web::toast::ToastList;
use submerge::web_core::dto::SourceDto;
use submerge::web_core::fmt::{ToastIdCounter, ToastKind};

fn members(f: &CombinedForm) -> Vec<i64> {
    let mut v: Vec<i64> = f.checked.iter().copied().collect();
    v.sort();
    v
}

#[test]
fn shell_starts_on_local_sources() {
    let wide = NavState::new(false);
    assert_eq!(wide.tab, 0);
    assert_eq!(wide.pending, None);
    assert!(wide.subs_open && wide.single_open && !wide.menu_open);
    let narrow = NavState::new(true);
    assert!(!narrow.subs_open && !narrow.single_open);
}

#[test]
fn shell_first_render_loads_then_shows() {
    let mut s = NavState::new(false);
    assert_eq!(s.autoload(true), Some(0));
    assert_eq!(s.page(), Page::Loading);
    assert_eq!(s.autoload(true), None);
    s.settle(false);
    assert_eq!(s.page(), Page::Loading);
    s.settle(true);
    assert_eq!(s.page(), Page::LocalSources);
}

#[test]
fn shell_go_ready_switches_at_once() {
    let mut s = NavState::new(true);
    s.menu_open = true;
    assert_eq!(s.go(2, true), None);
    assert_eq!(s.tab, 2);
    assert_eq!(s.page(), Page::Combineds);
    assert!(!s.menu_open);
    assert!(s.subs_open);
    assert!(!s.single_open);
}

#[test]
fn shell_go_waits_for_data() {
    let mut s = NavState::new(true);
    assert_eq!(s.go(1, false), Some(1));
    assert_eq!(s.tab, 0);
    assert_eq!(s.pending, Some(1));
    assert!(s.subs_open && s.single_open);
    assert_eq!(s.page(), Page::LocalSources);
    // A second click on the loading entry changes nothing.
    assert_eq!(s.go(1, false), None);
    assert_eq!(s.pending, Some(1));
    s.settle(true);
    assert_eq!(s.page(), Page::RemoteSources);
    assert_eq!(s.pending, None);
}

#[test]
fn shell_pages_by_number() {
    let mut s = NavState::new(false);
    for (i, p) in [
        (0, Page::LocalSources),
        (1, Page::RemoteSources),
        (2, Page::Combineds),
        (3, Page::ClashConfig),
        (4, Page::Config),
        (9, Page::Config),
    ] {
        s.go(i, true);
        assert_eq!(s.page(), p);
    }
}

#[test]
fn shell_groups_and_drawer() {
    let mut s = NavState::new(false);
    s.toggle_group(NavGroup::Subs);
    assert!(!s.subs_open && s.single_open);
    s.toggle_group(NavGroup::Subs);
    assert_eq!(s, NavState::new(false));
    s.menu_open = true;
    s.escape();
    assert!(!s.menu_open);
    s.menu_open = true;
    s.on_breakpoint(true);
    assert!(s.menu_open && !s.subs_open && !s.single_open);
    s.on_breakpoint(false);
    assert!(!s.menu_open && s.subs_open && s.single_open);
}

#[test]
fn shell_classes_and_app_view() {
    assert_eq!(nav_item_class(true), "nav-item active");
    assert_eq!(nav_item_class(false), "nav-item");
    assert_eq!(chevron_class(true), "nav-chevron open");
    assert_eq!(chevron_class(false), "nav-chevron");
    assert_eq!(sidebar_class(true), "sidebar open");
    assert_eq!(sidebar_class(false), "sidebar");
    assert_eq!(app_view(true, true), AppView::Checking);
    assert_eq!(app_view(false, true), AppView::Shell);
    assert_eq!(app_view(false, false), AppView::Login);
}

#[test]
fn section_paths() {
    let k = section_key(Some("single"), None);
    assert_eq!(k, "single|");
    assert_eq!(section_path(&k), "/admin/preview?kind=single");
    assert_eq!(section_path(&section_key(Some("remote"), Some("home"))), "/admin/preview?kind=remote");
    let k = section_key(None, Some("home"));
    assert_eq!(k, "|home");
    assert_eq!(section_path(&k), "/admin/preview?combined=home");
    assert_eq!(section_path(&section_key(None, None)), "/admin/preview");
    assert_eq!(section_path(&section_key(None, Some(""))), "/admin/preview");
    // Only the second `|`-separated field names the subscription.
    assert_eq!(section_path("|a|b"), "/admin/preview?combined=a");
    assert_eq!(section_path("other|x"), "/admin/preview?combined=x");
    assert_eq!(section_path("no-bar"), "/admin/preview");
}

#[test]
fn modal_paths() {
    let k = modal_key(Some(42), Some("ignored"));
    assert_eq!(k, "sid:42");
    assert_eq!(modal_path(&k), "/admin/preview?source_id=42");
    assert_eq!(modal_path(&modal_key(Some(-7), None)), "/admin/preview?source_id=-7");
    assert_eq!(
        modal_path(&modal_key(Some(i64::MIN), None)),
        "/admin/preview?source_id=-9223372036854775808"
    );
    let k = modal_key(None, Some("home"));
    assert_eq!(k, "c:home");
    assert_eq!(modal_path(&k), "/admin/preview?combined=home");
    assert_eq!(modal_path(&modal_key(None, None)), "/admin/preview");
    assert_eq!(modal_path("x"), "/admin/preview");
}

#[test]
fn preview_page_requests() {
    assert_eq!(preview_request(None), PreviewRequest::RefreshAll);
    assert_eq!(
        preview_request(Some("home")),
        PreviewRequest::Fetch("/admin/preview?combined=home".to_string())
    );
}

#[test]
fn preview_load_keeps_latest_answer() {
    let mut l: PreviewLoad<u32> = PreviewLoad::new(false);
    assert!(!l.loading);
    let first = l.begin();
    let second = l.begin();
    assert_eq!((first, second), (1, 2));
    assert!(l.loading);
    // The slow first answer arrives last and is dropped.
    l.finish(second, Ok(Ok(20)));
    assert_eq!(l.data, Some(20));
    assert!(!l.loading);
    l.finish(first, Ok(Ok(10)));
    assert_eq!(l.data, Some(20));
    l.finish(first, Err("boom".to_string()));
    assert_eq!(l.error, "");
}

#[test]
fn preview_load_errors() {
    let mut l: PreviewLoad<u32> = PreviewLoad::new(true);
    assert!(l.loading);
    let s = l.begin();
    l.finish(s, Ok(Err("expected value".to_string())));
    assert_eq!(l.error, "解析失败: expected value");
    assert!(!l.loading);
    assert_eq!(l.data, None);
    let s = l.begin();
    assert_eq!(l.error, "");
    l.finish(s, Err("HTTP 500: oops".to_string()));
    assert_eq!(l.error, "HTTP 500: oops");
    // An older stale request that fails while a new one runs leaves it running.
    let old = l.begin();
    let _new = l.begin();
    l.finish(old, Err("late".to_string()));
    assert!(l.loading);
    assert_eq!(l.error, "");
}

#[test]
fn combined_form_members() {
    let f = CombinedForm::for_create();
    assert!(f.open && f.edit_id.is_none() && f.name.is_empty() && f.checked.is_empty());
    let mut f = CombinedForm::for_edit(7, "home".to_string(), &vec![3, 1, 3, 2, 1]);
    assert_eq!(f.edit_id, Some(7));
    assert_eq!(members(&f), vec![1, 2, 3]);
    f.toggle(2);
    assert_eq!(members(&f), vec![1, 3]);
    f.toggle(5);
    assert_eq!(members(&f), vec![1, 3, 5]);
    f.toggle(5);
    f.toggle(2);
    assert_eq!(members(&f), vec![1, 2, 3]);
    let c = CombinedForm::closed();
    assert!(!c.open);
}

#[test]
fn combined_form_requests() {
    let f = CombinedForm::for_create();
    assert_eq!(save_request(&f).unwrap_err(), "组合名称不能为空");
    let mut f = CombinedForm::for_create();
    f.name = "home".to_string();
    let q = save_request(&f).unwrap();
    assert_eq!((q.method, q.path.as_str()), ("POST", "/admin/combineds"));
    let f = CombinedForm::for_edit(12, "home".to_string(), &vec![]);
    let q = save_request(&f).unwrap();
    assert_eq!((q.method, q.path.as_str()), ("PUT", "/admin/combineds/12"));
}

#[test]
fn combined_links_and_copy_feedback() {
    let links = subscription_links("http://h:8080", "home");
    assert_eq!(
        links,
        vec![
            ("clash", "http://h:8080/subscribe/home?format=clash".to_string()),
            ("v2ray", "http://h:8080/subscribe/home?format=v2ray".to_string()),
            ("singbox", "http://h:8080/subscribe/home?format=singbox".to_string()),
        ]
    );
    let copied = Some(("home".to_string(), "v2ray".to_string()));
    assert!(is_copied(&copied, "home", "v2ray"));
    assert!(!is_copied(&copied, "home", "clash"));
    assert!(!is_copied(&None, "home", "v2ray"));
    let first = ("home".to_string(), "clash".to_string());
    // The timer of an earlier copy keeps a later copy's feedback.
    assert_eq!(expire_copy(copied.clone(), &first), copied);
    let key = ("home".to_string(), "v2ray".to_string());
    assert_eq!(expire_copy(copied, &key), None);
}

#[test]
fn delete_confirmations() {
    let c = delete_confirm(DeleteTarget::Source, "机场A");
    assert!(c.open && c.danger);
    assert_eq!(c.title, "删除订阅源");
    assert_eq!(c.message, "确定删除「机场A」？此操作不可撤销。");
    assert_eq!(c.confirm_text, "删除");
    let c = delete_confirm(DeleteTarget::Combined, "home");
    assert_eq!(c.title, "删除组合订阅");
    let c = ConfirmState::closed();
    assert!(!c.open && !c.danger && c.title.is_empty() && c.message.is_empty());
}

#[test]
fn page_errors() {
    assert_eq!(page_error("保存失败: x", "load failed"), "保存失败: x");
    assert_eq!(page_error("", "load failed"), "load failed");
    let units = vec!["a".to_string(), "".to_string(), "b".to_string()];
    assert_eq!(combined_page_error("", &units), "a; b");
    assert_eq!(combined_page_error("组合名称不能为空", &units), "组合名称不能为空");
    assert_eq!(combined_page_error("", &vec!["".to_string(), "".to_string()]), "");
}

fn source(id: i64, kind: &str) -> SourceDto {
    SourceDto {
        id,
        url: format!("https://example.com/{id}"),
        name: format!("s{id}"),
        kind: kind.to_string(),
        created_at: "now".to_string(),
    }
}

#[test]
fn source_page_helpers() {
    assert_eq!(source_form_error("", "a"), Some("URL 和名称不能为空"));
    assert_eq!(source_form_error("u", ""), Some("URL 和名称不能为空"));
    assert_eq!(source_form_error("u", "a"), None);
    let list = vec![source(1, "single"), source(2, "remote"), source(3, "single")];
    let singles = sources_of_kind(list.clone(), "single");
    assert_eq!(singles.iter().map(|s| s.id).collect::<Vec<_>>(), vec![1, 3]);
    assert_eq!(sources_of_kind(list, "remote").len(), 1);
    assert_eq!(url_placeholder("single"), "ss://..., vmess://... 单条节点链接");
    assert_eq!(url_placeholder("remote"), "https://example.com/sub");
    assert_eq!(kind_badge_class("single"), "badge info");
    assert_eq!(kind_badge_class("remote"), "badge off");
    assert_eq!(source_path(9), "/admin/sources/9");
    assert_eq!(edit_title("机场A"), "编辑「机场A」");
}

#[test]
fn overview_and_badges() {
    let f = overview_figures(Some(&vec![true, false, true]), Some((12, 1)));
    assert_eq!((f.sources, f.enabled, f.nodes, f.failed), (3, 2, 12, 1));
    let f = overview_figures(None, None);
    assert_eq!((f.sources, f.enabled, f.nodes, f.failed), (0, 0, 0, 0));
    assert_eq!(stat_icon_class(true), "stat-icon danger");
    assert_eq!(stat_icon_class(false), "stat-icon");
    assert_eq!(enabled_badge(true), ("badge on", "启用"));
    assert_eq!(enabled_badge(false), ("badge off", "停用"));
}

#[test]
fn clash_draft_and_template_check() {
    assert_eq!(template_form_error("  \n\t"), Some("模板不能为空"));
    assert_eq!(template_form_error("mode: rule"), None);
    let (d, inited) = init_draft(false, String::new(), None);
    assert_eq!((d.as_str(), inited), ("", false));
    let (d, inited) = init_draft(false, String::new(), Some("stored".to_string()));
    assert_eq!((d.as_str(), inited), ("stored", true));
    let (d, inited) = init_draft(inited, "edited".to_string(), Some("refreshed".to_string()));
    assert_eq!((d.as_str(), inited), ("edited", true));
}

#[test]
fn theme_buttons_and_login_view() {
    assert_eq!(seg_class("dark", "dark"), "seg active");
    assert_eq!(seg_class("dark", "light"), "seg");
    assert_eq!(login_view(None, false), LoginView::Probing);
    assert_eq!(login_view(None, true), LoginView::ProbeFailed);
    assert_eq!(login_view(Some(true), false), LoginView::Setup);
    assert_eq!(login_view(Some(false), true), LoginView::Login);
}

#[test]
fn toasts_push_and_dismiss() {
    let mut counter = ToastIdCounter::new();
    let mut list = ToastList::new();
    let a = list.push(&mut counter, ToastKind::Success, "已删除".to_string());
    let b = list.push(&mut counter, ToastKind::Error, "删除失败".to_string());
    let c = list.push(&mut counter, ToastKind::Info, "x".to_string());
    assert_eq!((a, b, c), (1, 2, 3));
    list.dismiss(b);
    assert_eq!(list.items.iter().map(|t| t.id).collect::<Vec<_>>(), vec![1, 3]);
    list.dismiss(99);
    assert_eq!(list.items.len(), 2);
    assert_eq!(list.items[1].text, "x");
    assert_eq!(list.items[0].kind, ToastKind::Success);
}

#[test]
fn failure_and_notice_texts() {
    assert_eq!(failure_text(Failure::Probe, "x"), "检查初始化状态失败: x");
    assert_eq!(failure_text(Failure::Setup, "x"), "创建失败: x");
    assert_eq!(failure_text(Failure::Login, "HTTP 401: bad"), "登录失败: HTTP 401: bad");
    assert_eq!(failure_text(Failure::Parse, "eof"), "解析失败: eof");
    assert_eq!(failure_text(Failure::Add, "x"), "添加失败: x");
    assert_eq!(failure_text(Failure::Save, "x"), "保存失败: x");
    assert_eq!(failure_text(Failure::Delete, "x"), "删除失败: x");
    assert_eq!(failure_text(Failure::Copy, "x"), "复制失败: x");
    assert_eq!(notice_text(Notice::CombinedSaved), "组合订阅已保存");
    assert_eq!(notice_text(Notice::Deleted), "已删除");
    assert_eq!(notice_text(Notice::SourceAdded), "订阅源已添加");
    assert_eq!(notice_text(Notice::SourceUpdated), "订阅源已更新");
    assert_eq!(notice_text(Notice::ClashSaved), "Clash 配置已保存");
    assert_eq!(notice_text(Notice::Copied), "已复制到剪贴板");
}

#[test]
fn count_badges() {
    assert_eq!(count_label(3, Counted::Sources), "3 个源");
    assert_eq!(count_label(0, Counted::Members), "0 个成员");
    assert_eq!(count_label(120, Counted::Nodes), "共 120 个节点");
}
