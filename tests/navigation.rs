use nested_context::ids::IdentifierSpace;
use nested_context::load::{
    about_blank_url, get_url, resolved_or_about_blank, DocumentContext, LoadBlocker, ReferrerPolicy,
    WindowGeometry,
};
use nested_context::navigation::{HistoryDisposition, NavigationCoordinator, NavigationPlan, ProcessingMode};

fn document(ids: &mut IdentifierSpace) -> DocumentContext {
    DocumentContext {
        pipeline_id: ids.new_pipeline_id(),
        base_url: "https://example.com/dir/index.html".to_string(),
        referrer: "https://example.com/dir/index.html".to_string(),
        referrer_policy: ReferrerPolicy::StrictOriginWhenCrossOrigin,
        is_secure_context: true,
        window_geometry: WindowGeometry {
            viewport_width_bits: 800.0f32.to_bits(),
            viewport_height_bits: 600.0f32.to_bits(),
            device_pixel_ratio_bits: 1.0f32.to_bits(),
        },
    }
}

#[test]
fn first_time_without_source_skips() {
    let mut ids = IdentifierSpace::new();
    let doc = document(&mut ids);
    for blank in [true, false] {
        for url in ["about:blank", "https://example.com/x.html"] {
            let plan = NavigationCoordinator::plan(ProcessingMode::FirstTime, false, url.to_string(), blank, &doc);
            assert!(matches!(plan, NavigationPlan::Skip));
        }
    }
}

#[test]
fn blank_document_is_replaced_other_appended() {
    let mut ids = IdentifierSpace::new();
    let doc = document(&mut ids);
    let cases = [
        (ProcessingMode::FirstTime, true),
        (ProcessingMode::NotFirstTime, true),
        (ProcessingMode::NotFirstTime, false),
    ];
    for (mode, has_src) in cases {
        match NavigationCoordinator::plan(mode, has_src, "https://example.com/a".to_string(), true, &doc) {
            NavigationPlan::Navigate { history, load } => {
                assert_eq!(history, HistoryDisposition::Replace);
                assert_eq!(load.url, "https://example.com/a");
                assert_eq!(load.initiator, None);
                assert!(load.from_script);
                assert_eq!(load.referrer, "https://example.com/dir/index.html");
                assert_eq!(load.referrer_policy, ReferrerPolicy::StrictOriginWhenCrossOrigin);
                assert!(load.is_secure_context);
            },
            NavigationPlan::Skip => panic!("expected a navigation"),
        }
        match NavigationCoordinator::plan(mode, has_src, "https://example.com/a".to_string(), false, &doc) {
            NavigationPlan::Navigate { history, .. } => assert_eq!(history, HistoryDisposition::Append),
            NavigationPlan::Skip => panic!("expected a navigation"),
        }
    }
}

#[test]
fn source_is_resolved_against_base_url() {
    let url = get_url(Some("page.html"), "https://example.com/dir/index.html");
    assert_eq!(url, "https://example.com/dir/page.html");
    let url = get_url(Some("/top.html"), "https://example.com/dir/index.html");
    assert_eq!(url, "https://example.com/top.html");
    let url = get_url(Some("https://other.org/x"), "https://example.com/dir/index.html");
    assert_eq!(url, "https://other.org/x");
}

#[test]
fn absent_or_empty_source_gives_about_blank() {
    assert_eq!(get_url(None, "https://example.com/"), "about:blank");
    assert_eq!(get_url(Some(""), "https://example.com/"), "about:blank");
}

#[test]
fn unresolvable_source_gives_about_blank() {
    assert_eq!(get_url(Some("page.html"), "not a url"), "about:blank");
    assert_eq!(get_url(Some("http://[::1"), "https://example.com/"), "about:blank");
}

#[test]
fn resolution_result_or_about_blank() {
    assert_eq!(resolved_or_about_blank(Some("https://a.example/".to_string())), "https://a.example/");
    assert_eq!(resolved_or_about_blank(None), "about:blank");
    assert_eq!(about_blank_url(), "about:blank");
}

#[test]
fn load_blocker_keeps_one_load() {
    let mut ids = IdentifierSpace::new();
    let p1 = ids.new_pipeline_id();
    let p2 = ids.new_pipeline_id();
    let mut blocker = LoadBlocker::new();
    assert!(!blocker.is_blocking());
    blocker.block(p1);
    blocker.block(p2);
    assert_eq!(blocker.blocked_pipeline(), Some(p2));
    blocker.release();
    assert!(!blocker.is_blocking());
    assert_eq!(blocker.blocked_pipeline(), None);
}
