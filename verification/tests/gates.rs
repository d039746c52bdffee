//! Gates: what a typed answer means while a card is open.

use novelx::gates::{GateCatalog, GateOptionSpec, GateResolve, GateSpec, TemplateVars};
use novelx::gates::{parse_one_based_index, render_args, render_string_value};
use novelx::json::Json;

fn strings(v: &[&str]) -> Vec<String> {
    v.iter().map(|s| s.to_string()).collect()
}

fn args(pairs: &[(&str, &str)]) -> Json {
    let mut out = Json::object();
    for (k, v) in pairs {
        out = out.with_str(k, v);
    }
    out
}

fn tool(id: &str, label: &str, tool: &str, a: Json, aliases: &[&str]) -> GateOptionSpec {
    GateOptionSpec {
        id: id.to_string(),
        label: label.to_string(),
        tool: Some(tool.to_string()),
        args: Some(a),
        resolve: None,
        aliases: strings(aliases),
    }
}

fn word(id: &str, label: &str, resolve: &str, aliases: &[&str]) -> GateOptionSpec {
    GateOptionSpec {
        id: id.to_string(),
        label: label.to_string(),
        tool: None,
        args: None,
        resolve: Some(resolve.to_string()),
        aliases: strings(aliases),
    }
}

fn gate(c: &mut GateCatalog, name: &str, options: Vec<GateOptionSpec>) {
    c.insert(GateSpec { name: name.to_string(), options });
}

fn catalog() -> GateCatalog {
    let p = ("project", "{{project}}");
    let ch = ("chapter", "{{chapter}}");
    let mut c = GateCatalog::empty();
    let steer = |choice: &str| args(&[p, ch, ("choice", choice)]);
    gate(
        &mut c,
        "audit",
        vec![
            tool("1", "按审校局部修订", "steer_run", steer("revise"), &["局部修订"]),
            tool("2", "接受问题", "steer_run", steer("accept"), &["接受"]),
        ],
    );
    gate(
        &mut c,
        "audit_queue",
        vec![
            tool("1", "按审校局部修订", "steer_run", steer("revise"), &["局部修订"]),
            tool("2", "接受问题", "steer_run", steer("accept"), &["接受"]),
            tool("3", "跳过，审下一章", "audit_chapters", args(&[p, ("action", "next")]), &[]),
            tool("4", "结束审阅队列", "audit_chapters", args(&[p, ("action", "stop")]), &[]),
        ],
    );
    gate(
        &mut c,
        "audit_infra",
        vec![
            tool("1", "重新审计", "audit_chapter", args(&[p, ch]), &["重试审计"]),
            tool("2", "暂不处理", "steer_run", steer("accept"), &[]),
        ],
    );
    gate(
        &mut c,
        "volume_audit",
        vec![tool(
            "va_deep",
            "按建议深审",
            "audit_chapters",
            args(&[p, ("action", "start"), ("chapters", "{{chapters}}")]),
            &[],
        )],
    );
    gate(
        &mut c,
        "setup_confirm",
        vec![
            tool(
                "sc_approve",
                "确认定稿",
                "confirm_setup",
                args(&[p, ("action", "approve")]),
                &[],
            ),
            tool(
                "sc_revise",
                "修改再生成",
                "confirm_setup",
                args(&[p, ("action", "revise")]),
                &[],
            ),
        ],
    );
    gate(
        &mut c,
        "setup_need_master",
        vec![
            tool("sm_gen", "生成总纲", "design_master_outline", args(&[p]), &[]),
            word("sm_later", "暂不处理", "dismiss_gate", &[]),
        ],
    );
    gate(
        &mut c,
        "chapter_next",
        vec![
            tool("cn_continue", "继续创作", "continue_writing", args(&[p]), &[]),
            tool("cn_revise", "修正本章", "revise_chapter", args(&[p, ch]), &[]),
        ],
    );
    gate(
        &mut c,
        "draft_exists",
        vec![
            tool(
                "de_next",
                "写下一章",
                "continue_writing",
                args(&[p, ("chapter", "{{suggest_chapter}}")]),
                &[],
            ),
            tool("de_audit", "审校本章", "audit_chapter", args(&[p, ch]), &[]),
        ],
    );
    gate(
        &mut c,
        "planned_plot",
        vec![
            word("pp_go", "激活「{{title}}」并写章", "activate_plot_write", &["激活并写章"]),
            word("pp_no", "暂不写作", "dismiss_gate", &[]),
        ],
    );
    gate(
        &mut c,
        "need_plot",
        vec![tool(
            "np_design",
            "设计并激活剧情卡",
            "design_plot",
            args(&[p, ("title", "{{title}}"), ("volume", "{{volume}}")]),
            &[],
        )],
    );
    gate(
        &mut c,
        "volume_sync",
        vec![
            tool("1", "确认同步卷末", "sync_volume", args(&[p, ("volume", "{{volume}}")]), &[]),
            word("2", "暂不同步卷末", "skip_volume", &[]),
        ],
    );
    gate(
        &mut c,
        "chapter_order",
        vec![tool(
            "co_next",
            "写第{{next_chapter}}章",
            "continue_writing",
            args(&[p, ("chapter", "{{next_chapter}}")]),
            &["写下一章"],
        )],
    );
    gate(
        &mut c,
        "confirm_mutation",
        vec![
            word("cm_apply", "应用修改", "apply_mutation", &["sc_approve", "确认定稿"]),
            word("cm_discard", "放弃", "discard_mutation", &[]),
        ],
    );
    gate(
        &mut c,
        "confirm_impact",
        vec![
            word("ci_sync", "自动同步修正", "sync_impact", &[]),
            word("ci_skip", "暂不同步", "skip_impact", &[]),
        ],
    );
    c
}

fn expect_tool(r: Option<GateResolve>) -> (String, Json) {
    match r {
        Some(GateResolve::Tool { name, args }) => (name, args),
        _ => panic!("expected tool"),
    }
}

fn text(a: &Json, key: &str) -> String {
    a.get_str(key).unwrap_or("<none>").to_string()
}

fn chapters(a: &Json) -> Vec<u64> {
    let mut out = Vec::new();
    for j in a.get_list("chapters").unwrap() {
        match j {
            Json::Uint(n) => out.push(*n),
            _ => panic!("expected a number"),
        }
    }
    out
}

#[test]
fn resolves_by_id_and_alias() {
    let g = catalog();
    let (name, a) = expect_tool(g.resolve_audit("1", "demo", 9, false, false));
    assert_eq!(name, "steer_run");
    assert_eq!(text(&a, "choice"), "revise");
    assert_eq!(a.get_u64("chapter"), Some(9));
    let (name, a) = expect_tool(g.resolve_audit("2", "demo", 9, false, false));
    assert_eq!(name, "steer_run");
    assert_eq!(text(&a, "choice"), "accept");
    let (name, a) = expect_tool(g.resolve_audit("跳过，审下一章", "demo", 9, true, false));
    assert_eq!(name, "audit_chapters");
    assert_eq!(text(&a, "action"), "next");
    let (name, a) = expect_tool(g.resolve_audit("重新审计", "demo", 13, false, true));
    assert_eq!(name, "audit_chapter");
    assert_eq!(a.get_u64("chapter"), Some(13));
    assert!(g.resolve_audit("随便改改节奏", "demo", 13, false, true).is_none());
    assert!(g.is_known_token("2"));
    assert!(g.is_known_token("接受问题"));
    assert!(!g.is_known_token("写第10章"));
    assert!(!g.is_stale_audit_choice_token("接受问题"));
    assert!(!g.is_stale_audit_choice_token("局部修订"));
    assert!(!g.is_stale_audit_choice_token("按审校局部修订"));
    assert!(g.is_audit_revise_choice("局部修订"));
    assert!(g.is_audit_accept_choice("接受问题"));
    assert!(g.is_stale_audit_choice_token("跳过，审下一章"));
    assert!(g.is_stale_audit_choice_token("结束审阅队列"));
    assert!(g.is_stale_audit_choice_token("重试审计"));
    assert!(!g.is_stale_audit_choice_token("1"));
    assert!(!g.is_stale_audit_choice_token("2"));
    assert!(!g.is_stale_audit_choice_token("继续"));
    assert!(!g.is_stale_audit_choice_token("继续创作"));
    assert!(!g.is_stale_audit_choice_token("写第10章"));
    let (name, a) = expect_tool(g.resolve_volume_audit("va_deep", "demo", &vec![1, 3, 8]));
    assert_eq!(name, "audit_chapters");
    assert_eq!(text(&a, "action"), "start");
    assert_eq!(chapters(&a), vec![1, 3, 8]);
    assert!(g.resolve_volume_audit("1", "demo", &vec![1]).is_none());
    let (name, a) = expect_tool(g.resolve_setup("sc_approve", "demo"));
    assert_eq!(name, "confirm_setup");
    assert_eq!(text(&a, "action"), "approve");
    let (name, a) = expect_tool(g.resolve_setup("修改再生成", "demo"));
    assert_eq!(name, "confirm_setup");
    assert_eq!(text(&a, "action"), "revise");
    let (name, _) = expect_tool(g.resolve_chapter_next("cn_continue", "demo", 2));
    assert_eq!(name, "continue_writing");
    let (name, a) = expect_tool(g.resolve_draft_exists_visible("de_next", "demo", 11, 12));
    assert_eq!(name, "continue_writing");
    assert_eq!(a.get_u64("chapter"), Some(12));
    let (name, a) = expect_tool(g.resolve_draft_exists("审校本章", "demo", 11, 12));
    assert_eq!(name, "audit_chapter");
    assert_eq!(a.get_u64("chapter"), Some(11));
    let opts = g.planned_plot_options("样例卡");
    assert!(opts.iter().any(|o| o.label.contains("样例卡")));
    assert!(matches!(
        g.resolve_planned_plot("激活并写章", "demo", "样例卡"),
        Some(GateResolve::ActivatePlotWrite)
    ));
    assert!(matches!(
        g.resolve_planned_plot("暂不写作", "demo", "样例卡"),
        Some(GateResolve::DismissGate)
    ));
    assert!(matches!(
        g.resolve_need_plot("设计并激活剧情卡", "demo", 2, "下一段"),
        Some(GateResolve::Tool { name, .. }) if name == "design_plot"
    ));
    let cont = g.chapter_next_options(true, false);
    assert_eq!(cont.len(), 1);
    assert_eq!(cont[0].id, "cn_continue");
    let fix = g.chapter_next_options(false, false);
    assert_eq!(fix.len(), 1);
    assert_eq!(fix[0].id, "cn_revise");
    let open = g.chapter_next_options(true, true);
    assert_eq!(open.len(), 2);
    assert_eq!(open[0].id, "cn_continue");
    assert_eq!(open[1].id, "cn_revise");
    let (name, a) = expect_tool(g.resolve_chapter_next("修正本章", "demo", 2));
    assert_eq!(name, "revise_chapter");
    assert_eq!(a.get_u64("chapter"), Some(2));
    let (name, a) = expect_tool(g.resolve_chapter_next_visible("1", "demo", 10, false, false));
    assert_eq!(name, "revise_chapter");
    assert_eq!(a.get_u64("chapter"), Some(10));
    let (name, _) = expect_tool(g.resolve_chapter_next_visible("1", "demo", 3, true, false));
    assert_eq!(name, "continue_writing");
    let (name, _) = expect_tool(g.resolve_chapter_next_visible("2", "demo", 3, true, true));
    assert_eq!(name, "revise_chapter");
    let (name, a) = expect_tool(g.resolve_setup_visible("1", "demo"));
    assert_eq!(name, "confirm_setup");
    assert_eq!(text(&a, "action"), "approve");
    let (name, a) =
        expect_tool(g.resolve_setup_progress_visible("生成总纲", "demo", "setup_need_master"));
    assert_eq!(name, "design_master_outline");
    assert_eq!(text(&a, "project"), "demo");
    assert!(matches!(
        g.resolve_setup_progress_visible("暂不处理", "demo", "setup_need_master").unwrap(),
        GateResolve::DismissGate
    ));
    assert!(matches!(g.resolve_volume("2", "demo", 3).unwrap(), GateResolve::SkipVolume));
    let r = g
        .resolve_chapter_order(
            "写第{{next_chapter}}章".replace("{{next_chapter}}", "4").as_str(),
            "demo",
            4,
        )
        .or_else(|| g.resolve_chapter_order("写下一章", "demo", 4));
    let (name, a) = expect_tool(r);
    assert_eq!(name, "continue_writing");
    assert_eq!(a.get_u64("chapter"), Some(4));
    assert!(matches!(
        g.resolve_mutation_confirm("应用修改").unwrap(),
        GateResolve::ApplyMutation
    ));
    assert!(matches!(g.resolve_mutation_confirm("放弃").unwrap(), GateResolve::DiscardMutation));
    assert!(matches!(
        g.resolve_mutation_confirm("sc_approve").unwrap(),
        GateResolve::ApplyMutation
    ));
    assert!(matches!(
        g.resolve_mutation_confirm("确认定稿").unwrap(),
        GateResolve::ApplyMutation
    ));
    assert!(matches!(g.resolve_impact_confirm("自动同步修正").unwrap(), GateResolve::SyncImpact));
    assert!(matches!(g.resolve_impact_confirm("暂不同步").unwrap(), GateResolve::SkipImpact));
}

#[test]
fn free_text_becomes_instructions_on_a_content_card() {
    let g = catalog();
    match g.resolve_audit(" 把第三段改短 ", "demo", 9, false, false) {
        Some(GateResolve::SteerInstructions { instructions }) => {
            assert_eq!(instructions, "把第三段改短")
        },
        _ => panic!("expected instructions"),
    }
}

#[test]
fn an_unknown_gate_has_no_buttons() {
    let g = catalog();
    assert_eq!(g.options("no_such_gate").len(), 0);
    assert_eq!(GateCatalog::empty().options("audit").len(), 0);
}

#[test]
fn numbers_count_from_one() {
    assert_eq!(parse_one_based_index("1"), Some(1));
    assert_eq!(parse_one_based_index(" 12 "), Some(12));
    assert_eq!(parse_one_based_index("100"), None);
    assert_eq!(parse_one_based_index("0"), None);
    assert_eq!(parse_one_based_index("一"), None);
}

#[test]
fn templates_are_filled() {
    let mut vars = TemplateVars::of_project("demo");
    vars.chapter = Some(7);
    assert!(matches!(render_string_value("{{chapter}}", &vars), Json::Uint(7)));
    match render_string_value("《{{project}}》第{{chapter}}章", &vars) {
        Json::Text(s) => assert_eq!(s, "《demo》第7章"),
        _ => panic!("expected text"),
    }
    let a = render_args(&args(&[("project", "{{project}}"), ("n", "{{chapter}}")]), &vars);
    assert_eq!(text(&a, "project"), "demo");
    assert_eq!(a.get_u64("n"), Some(7));
}

#[test]
fn chapter_order_buttons_name_the_chapter() {
    let opts = catalog().chapter_order_options(4);
    assert_eq!(opts[0].label, "写第4章");
}
