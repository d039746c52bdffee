//! Requests that are understood without a model.

use novelx::intent::{
    contains_ci, parse_chapter_number, parse_chapter_range, parse_volume_number, ClearHistory,
    ExtractMode, IntentRouter, IntentSpec,
};

fn strings(v: &[&str]) -> Vec<String> {
    v.iter().map(|s| s.to_string()).collect()
}

fn intent(id: &str, tool: &str, priority: i32, extract: ExtractMode, any: &[&str]) -> IntentSpec {
    IntentSpec {
        id: id.to_string(),
        tool: tool.to_string(),
        priority,
        require_project: true,
        extract,
        clear_history: ClearHistory::Never,
        any_keywords: strings(any),
        none_keywords: Vec::new(),
        all_keyword_groups: Vec::new(),
        default_instructions: None,
        instructions_min_chars: None,
    }
}

fn router() -> IntentRouter {
    let mut write = intent(
        "write_chapter",
        "continue_writing",
        10,
        ExtractMode::Chapter,
        &["写第", "续写第"],
    );
    write.clear_history = ClearHistory::OnStart;
    write.none_keywords = strings(&["design_plot", "卷纲", "剧情卡"]);
    let mut revise = intent(
        "revise_chapter",
        "revise_chapter",
        20,
        ExtractMode::Chapter,
        &["修正", "扩写", "重写"],
    );
    revise.none_keywords = strings(&["章纲"]);
    let mut outline = intent(
        "revise_outline",
        "revise_outline",
        40,
        ExtractMode::Chapter,
        &[],
    );
    outline.all_keyword_groups = vec![strings(&["章纲", "修正"]), strings(&["章纲", "改"])];
    outline.default_instructions = Some("按章纲修订".to_string());
    outline.instructions_min_chars = Some(4);
    let list = vec![
        write,
        revise,
        outline,
        intent("audit_range", "audit_chapters", 50, ExtractMode::ChapterRange, &["审阅", "审校"]),
        intent(
            "audit_chapter",
            "audit_chapter",
            30,
            ExtractMode::Chapter,
            &["审阅", "审校", "检阅"],
        ),
        intent(
            "audit_volume",
            "audit_volume",
            60,
            ExtractMode::VolumeOptional,
            &["审这一卷", "卷末复盘"],
        ),
        intent(
            "audit_queue_continue",
            "audit_chapters",
            70,
            ExtractMode::Nothing,
            &["继续审阅"],
        ),
        intent(
            "plot_status",
            "list_plots",
            80,
            ExtractMode::VolumeOptional,
            &["到哪了"],
        ),
    ];
    IntentRouter::from_intents(list)
}

#[test]
fn matches_write_audit_and_range() {
    let r = router();

    let w = r.match_text("写第10章", Some("demo")).unwrap();
    assert_eq!(w.tool, "continue_writing");
    assert_eq!(w.args.get_u64("chapter"), Some(10));
    assert_eq!(w.clear_history, ClearHistory::OnStart);

    let a = r.match_text("检阅第九章", Some("demo")).unwrap();
    assert_eq!(a.tool, "audit_chapter");
    assert_eq!(a.args.get_u64("chapter"), Some(9));

    let q = r.match_text("审阅1-8章", Some("demo")).unwrap();
    assert_eq!(q.tool, "audit_chapters");
    assert_eq!(q.args.get_u64("from"), Some(1));
    assert_eq!(q.args.get_u64("to"), Some(8));

    let rev = r.match_text("修正第五章", Some("demo")).unwrap();
    assert_eq!(rev.tool, "revise_chapter");
    assert_eq!(rev.args.get_u64("chapter"), Some(5));

    let outline = r.match_text("修正第五章章纲：加强章末钩子", Some("demo")).unwrap();
    assert_eq!(outline.tool, "revise_outline");
    assert_eq!(outline.args.get_u64("chapter"), Some(5));
    assert!(outline.args.get_str("instructions").unwrap().contains("章纲"));

    let outline2 = r.match_text("改第2章章纲，补地点名单", Some("demo")).unwrap();
    assert_eq!(outline2.tool, "revise_outline");
    assert_eq!(outline2.args.get_u64("chapter"), Some(2));

    assert!(r.match_text("今天天气不错", Some("demo")).is_none());
    assert!(r.match_text("写第10章", None).is_none());

    assert!(r.match_text("去重设定库后 design_plot，再写第25章", Some("demo")).is_none());
    assert!(r.match_text("先写卷纲和剧情卡，再写第25章", Some("demo")).is_none());

    let vol = r.match_text("审这一卷", Some("demo")).unwrap();
    assert_eq!(vol.tool, "audit_volume");
    let vol2 = r.match_text("卷末复盘", Some("demo")).unwrap();
    assert_eq!(vol2.tool, "audit_volume");

    let cont = r.match_text("继续审阅", Some("demo")).unwrap();
    assert_eq!(cont.id, "audit_queue_continue");
    assert_eq!(cont.tool, "audit_chapters");
    assert_eq!(cont.args.get_str("action"), Some("continue"));

    let plots = r.match_text("对照剧情卡 现在到哪了", Some("demo")).unwrap();
    assert_eq!(plots.id, "plot_status");
    assert_eq!(plots.tool, "list_plots");
    let plots2 = r.match_text("目前的剧情推进到哪了", Some("demo")).unwrap();
    assert_eq!(plots2.id, "plot_status");
    let plots3 = r.match_text("剧情进行到哪了", Some("demo")).unwrap();
    assert_eq!(plots3.id, "plot_status");
    assert_eq!(plots3.tool, "list_plots");
    let plots4 = r.match_text("第三卷进行到哪了", Some("demo")).unwrap();
    assert_eq!(plots4.id, "plot_status");
    assert_eq!(plots4.tool, "list_plots");
    assert_eq!(plots4.args.get_u64("volume"), Some(3));
    assert_eq!(parse_volume_number("第三卷进度"), Some(3));
    assert_eq!(parse_volume_number("第3卷到哪了"), Some(3));
}

#[test]
fn parse_chapter_range_variants() {
    assert_eq!(parse_chapter_range("审阅第1-8章"), Some((1, 8)));
    assert_eq!(parse_chapter_range("第1章到第8章审校"), Some((1, 8)));
    assert_eq!(parse_chapter_range("审校第3章"), None);
}

#[test]
fn chapter_numbers_in_digits_and_words() {
    assert_eq!(parse_chapter_number("写第12章"), Some(12));
    assert_eq!(parse_chapter_number("写第九章"), Some(9));
    assert_eq!(parse_chapter_number("继续"), None);
}

#[test]
fn keywords_ignore_case() {
    let spec = intent("plot", "design_plot", 1, ExtractMode::Nothing, &["DESIGN_plot"]);
    let r = IntentRouter::from_intents(vec![spec]);
    assert_eq!(r.match_text("please Design_Plot now", Some("demo")).unwrap().tool, "design_plot");
    assert!(contains_ci("ABC", "abc", "aBc"));
    assert!(!contains_ci("ABC", "abc", "d"));
}

#[test]
fn the_higher_priority_wins() {
    let low = intent("low", "a", 1, ExtractMode::Nothing, &["word"]);
    let high = intent("high", "b", 2, ExtractMode::Nothing, &["word"]);
    let r = IntentRouter::from_intents(vec![low, high]);
    assert_eq!(r.match_text("word", Some("demo")).unwrap().id, "high");
}

#[test]
fn a_router_without_intents_matches_nothing() {
    assert!(IntentRouter::empty().match_text("写第10章", Some("demo")).is_none());
}

#[test]
fn volumes_are_read_in_the_words_of_chapters() {
    for t in ["写第12章", "第九章到第十章", "chapter 7 please", "chapter chapter 3", "继续", "第章", "第100章"] {
        let v = t.replace("章", "卷").replace("chapter ", "volume ");
        assert_eq!(parse_volume_number(&v), parse_chapter_number(t));
    }
    for t in ["本卷", "这一卷", "该卷"] {
        assert_eq!(parse_volume_number(t), None);
    }
    assert_eq!(parse_volume_number("第99卷"), Some(99));
    assert_eq!(parse_volume_number("第二十卷"), Some(20));
}
