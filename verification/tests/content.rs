//! Files that a writer edits, the overview of a project, and the service.

use novelx::chain::OfferKind;
use novelx::content::{
    artifact_file, artifact_shape, find_card_path, missing_card, plan_save, replace_markdown_body,
    save_outline, tab_group, ArtifactShape, CardFile, ContentPutReq, SaveTarget,
};
use novelx::dotenv::{parse_dotenv, read_line};
use novelx::json::Json;
use novelx::plot_write::{PlotStep, PlotWriteGateAction};
use novelx::preview::{
    build_preview, chapter_numbers, library_item, library_one, ArtifactText, ChapterText,
    PreviewParts, ProjectState,
};
use novelx::server::{event_matches_thread, event_thread_id, missing_project, EventScope};
use novelx::studio_prompt::{
    outline_comes_first, queue_has_ended, system_prompt, text_is_kept, SkillText,
};
use novelx::thread_state::ThreadState;

#[test]
fn a_new_body_goes_under_the_front_matter() {
    let card = "---\nname: 甲\n---\n\n旧文\n";
    assert_eq!(replace_markdown_body(card, "\n\n新文"), "---\nname: 甲\n---\n\n新文");
    assert_eq!(
        replace_markdown_body("\u{feff}---\nname: 甲\n---\n旧", "新"),
        "---\nname: 甲\n---\n\n新"
    );
    assert_eq!(replace_markdown_body("只有正文", "新"), "新");
    assert_eq!(replace_markdown_body("---\n没有结尾", "新"), "新");
    assert_eq!(replace_markdown_body("---\n---\n", "新"), "新");
}

#[test]
fn of_two_edits_the_second_counts() {
    let card = "---\na: 1\n---\nx";
    let once = replace_markdown_body(card, "二");
    let twice = replace_markdown_body(&replace_markdown_body(card, "一"), "二");
    assert_eq!(once, twice);
}

fn put(tab: &str, chapter: u32, card_key: &str) -> ContentPutReq {
    ContentPutReq {
        tab: tab.to_string(),
        content: "text".to_string(),
        chapter,
        card_key: card_key.to_string(),
    }
}

fn refusal(tab: &str, chapter: u32, key: &str, known: bool) -> String {
    match plan_save(&put(tab, chapter, key), known) {
        Ok(_) => panic!("expected a refusal"),
        Err(e) => e,
    }
}

#[test]
fn each_tab_stands_for_a_file() {
    assert!(matches!(
        plan_save(&put(" draft ", 3, ""), false),
        Ok(SaveTarget::Draft { chapter: 3 })
    ));
    assert!(matches!(
        plan_save(&put("outline", 3, ""), false),
        Ok(SaveTarget::Outline { chapter: 3 })
    ));
    assert!(matches!(plan_save(&put("master", 0, ""), false), Ok(SaveTarget::Master)));
    match plan_save(&put("plots", 0, " 甲 "), false) {
        Ok(SaveTarget::Plot { key }) => assert_eq!(key, "甲"),
        _ => panic!("expected a plot card"),
    }
    match plan_save(&put("ent:characters", 0, "甲"), true) {
        Ok(SaveTarget::Entity { group, key }) => {
            assert_eq!(group, "characters");
            assert_eq!(key, "甲");
        },
        _ => panic!("expected a card"),
    }
    match plan_save(&put("art:bible", 0, ""), false) {
        Ok(SaveTarget::Artifact { stem, shape }) => {
            assert_eq!(stem, "bible");
            assert!(shape == ArtifactShape::Bible);
        },
        _ => panic!("expected an artifact"),
    }
    assert_eq!(tab_group("ent:items").as_deref(), Some("items"));
    assert_eq!(tab_group("art:bible"), None);
}

#[test]
fn what_cannot_be_saved_is_refused() {
    assert_eq!(refusal("draft", 0, "", false), "保存正文需要有效章号");
    assert_eq!(refusal("outline", 0, "", false), "保存章纲需要有效章号");
    assert_eq!(refusal("plots", 0, "  ", false), "保存剧情卡需要 card_key");
    assert_eq!(refusal("ent:ghosts", 0, "甲", false), "未知设定卡分组：ghosts");
    assert_eq!(refusal("ent:items", 0, "", true), "保存设定卡需要 card_key");
    assert_eq!(refusal("art:", 0, "", false), "非法 artifact 名");
    assert_eq!(refusal("art:a/b", 0, "", false), "非法 artifact 名");
    assert_eq!(refusal("art:..", 0, "", false), "非法 artifact 名");
    assert_eq!(refusal("settings", 0, "", false), "不支持保存的标签页：settings");
}

#[test]
fn shapes_of_artifacts() {
    assert!(artifact_shape("master_planner") == ArtifactShape::MasterOutline);
    assert!(artifact_shape("arc_outline") == ArtifactShape::ArcOutline);
    assert!(artifact_shape("notes") == ArtifactShape::Plain);
}

fn card(slug: &str, name: &str, on_disk: bool) -> CardFile {
    CardFile {
        slug: slug.to_string(),
        id: String::new(),
        name: name.to_string(),
        title: String::new(),
        on_disk,
    }
}

#[test]
fn cards_are_found_by_any_of_their_names() {
    let cards = vec![card("gone", "甲", false), card("jia", "甲", true)];
    assert_eq!(find_card_path(true, false, &cards, "甲").as_deref(), Some("jia"));
    assert_eq!(find_card_path(true, true, &cards, "甲").as_deref(), Some("甲"));
    assert_eq!(find_card_path(true, false, &cards, "乙"), None);
    assert_eq!(find_card_path(false, true, &cards, "甲"), None);
    assert_eq!(find_card_path(true, true, &cards, ""), None);
    let t = SaveTarget::Plot { key: "乙".to_string() };
    assert_eq!(missing_card(&t), "未找到剧情卡「乙」");
    let t = SaveTarget::Entity { group: "items".to_string(), key: "乙".to_string() };
    assert_eq!(missing_card(&t), "未找到设定卡「乙」");
}

#[test]
fn artifacts_keep_their_ending() {
    assert_eq!(artifact_file("notes", true, true), "notes.md");
    assert_eq!(artifact_file("notes", false, true), "notes.txt");
    assert_eq!(artifact_file("notes", false, false), "notes.md");
}

#[test]
fn a_saved_outline_keeps_its_acts() {
    let v = save_outline(None, "总纲");
    assert_eq!(v.get_str("markdown"), Some("总纲"));
    assert_eq!(v.get_list("acts").unwrap().len(), 0);
    let stored = Json::object().with("acts", Json::List(vec![Json::str("一")]));
    let v = save_outline(Some(stored), "新");
    assert_eq!(v.get_list("acts").unwrap().len(), 1);
    assert!(matches!(save_outline(Some(Json::Null), "新"), Json::Null));
}

#[test]
fn chapter_folders_are_sorted_by_number() {
    let names: Vec<String> = ["010", "2", "notes", "001", "99999999999"]
        .iter()
        .map(|s| s.to_string())
        .collect();
    assert_eq!(chapter_numbers(&names), vec![1, 2, 10]);
}

fn state() -> ProjectState {
    ProjectState {
        value: Json::object().with_str("name", "书名").with("chapters", Json::List(vec![])),
        name: "书名".to_string(),
        genre: "悬疑".to_string(),
        published_count: 4,
        next_chapter: 5,
    }
}

fn artifact(stem: &str, ending: &str, shown: &str) -> ArtifactText {
    ArtifactText { stem: stem.to_string(), ending: ending.to_string(), shown: shown.to_string() }
}

fn parts(s: Option<ProjectState>) -> PreviewParts {
    PreviewParts {
        name: "demo".to_string(),
        state: s,
        chapters: vec![
            ChapterText {
                number: 1,
                draft: "  ".to_string(),
                draft_shown: "显示".to_string(),
                outline_shown: "纲".to_string(),
            },
            ChapterText {
                number: 2,
                draft: "正文".to_string(),
                draft_shown: "显示".to_string(),
                outline_shown: String::new(),
            },
        ],
        characters: vec![Json::str("甲")],
        items: vec![],
        locations: vec![],
        plots: vec![],
        artifacts: vec![
            artifact("master_planner", "md", "七个字的总纲文本"),
            artifact("arc_outline", "txt", "短"),
            artifact("picture", "png", "x"),
        ],
        story_outline: None,
        entity_gaps: Json::List(vec![]),
        entity_gaps_display: "无".to_string(),
        setup_phase: "ready".to_string(),
        volume_phase: "drafting_volume".to_string(),
    }
}

#[test]
fn the_overview_shows_what_is_there() {
    let v = build_preview(&parts(Some(state())));
    assert_eq!(v.get_str("project"), Some("demo"));
    assert_eq!(v.get_u64("published_count"), Some(4));
    assert_eq!(v.get_u64("next_chapter"), Some(5));
    let chapters = v.get_list("chapters").unwrap();
    assert_eq!(chapters[0].get_str("draft"), Some(""));
    assert_eq!(chapters[1].get_str("draft"), Some("显示"));
    assert_eq!(chapters[1].get_str("title"), Some("第2章"));
    let st = v.get("state").unwrap();
    assert!(st.get("chapters").is_none());
    assert_eq!(st.get_u64("next_chapter"), Some(5));
    let art = v.get("artifacts").unwrap();
    assert!(art.get("picture").is_none());
    assert_eq!(art.get_str("arc_outline"), Some("短"));
    assert_eq!(v.get_bool("has_master_outline"), Some(true));
    assert_eq!(v.get_bool("has_arc_outline"), Some(false));
    let outline = v.get("story_outline").unwrap();
    assert_eq!(outline.get_str("markdown"), Some("七个字的总纲文本"));
    assert_eq!(v.get("entities").unwrap().get_list("characters").unwrap().len(), 1);
}

#[test]
fn a_project_without_a_state_starts_at_one() {
    let v = build_preview(&parts(None));
    assert_eq!(v.get_u64("published_count"), Some(0));
    assert_eq!(v.get_u64("next_chapter"), Some(1));
    let e = library_item("demo", &None);
    assert_eq!(e.get_str("title"), Some("demo"));
    assert_eq!(e.get_str("genre"), Some(""));
    assert_eq!(e.get_u64("next_chapter"), Some(1));
}

#[test]
fn twenty_bytes_are_not_enough() {
    let mut p = parts(None);
    p.artifacts = vec![artifact("arc_outline", "md", "12345678901234567890")];
    assert_eq!(build_preview(&p).get_bool("has_arc_outline"), Some(false));
    p.artifacts = vec![artifact("arc_outline", "md", " 123456789012345678901 ")];
    assert_eq!(build_preview(&p).get_bool("has_arc_outline"), Some(true));
}

#[test]
fn the_library_reads_the_overview() {
    let page = library_one("demo", build_preview(&parts(Some(state()))));
    let novel = page.get("novel").unwrap();
    assert_eq!(novel.get_str("display_title"), Some("书名"));
    assert_eq!(novel.get_str("genre"), Some(""));
    assert_eq!(novel.get_u64("published_count"), Some(4));
    assert!(page.get("preview").is_some());
    let e = library_item("demo", &Some(state()));
    assert_eq!(e.get_str("display_title"), Some("书名"));
    assert_eq!(e.get_str("status"), Some("active"));
}

#[test]
fn listeners_hear_their_own_thread() {
    let e = EventScope::Thread("t1".to_string());
    assert!(event_matches_thread(&e, "t1"));
    assert!(!event_matches_thread(&e, "t2"));
    let a = EventScope::Agent { thread_id: "c".to_string(), parent: Some("p".to_string()) };
    assert!(event_matches_thread(&a, "c"));
    assert!(event_matches_thread(&a, "p"));
    assert!(!event_matches_thread(&a, "x"));
    let w = EventScope::Everyone { thread_id: None };
    assert!(event_matches_thread(&w, "anyone"));
    assert_eq!(event_thread_id(&a), Some("c"));
    assert_eq!(event_thread_id(&w), None);
    assert_eq!(missing_project("demo"), "项目「demo」不存在");
}

#[test]
fn environment_files_are_read_line_by_line() {
    let v = parse_dotenv("# note\nKEY = \"a b\" \n\nEMPTY=\n=x\nplain\nQ='it'\nURL=http://x?a=1\r\n");
    let want = vec![
        ("KEY".to_string(), "a b".to_string()),
        ("EMPTY".to_string(), String::new()),
        ("Q".to_string(), "it".to_string()),
        ("URL".to_string(), "http://x?a=1".to_string()),
    ];
    assert_eq!(v, want);
    assert_eq!(read_line("  # x=1"), None);
    assert_eq!(read_line("A=\"'b'\""), Some(("A".to_string(), "b".to_string())));
}

#[test]
fn instructions_name_the_project_and_its_skills() {
    let skills = vec![
        SkillText { name: "studio".to_string(), body: "again".to_string() },
        SkillText { name: "polish".to_string(), body: "润色".to_string() },
    ];
    let s = system_prompt(Some("demo"), Some("建议"), "目录", "studio body", "  ", &skills);
    assert!(s.starts_with("你是 NovelX，小说创作编排 Agent。\n当前会话已绑定项目《demo》。"));
    assert!(s.contains("revise_chapter(project=\"demo\", chapter=N"));
    assert!(s.contains("\n【当前项目长程 QA】\n建议\n若用户未否定"));
    assert!(s.contains("open_gate。\n\n目录\n\n# Skill: studio\n\nstudio body"));
    assert!(!s.contains("# Skill: novel-draft"));
    assert!(s.ends_with("\n\n# Skill: polish\n\n润色"));
    assert!(!s.contains("again"));
    let none = system_prompt(None, Some("建议"), "", "", "", &vec![]);
    assert!(none.contains("尚未绑定项目"));
    assert!(!none.contains("长程 QA"));
}

#[test]
fn fixed_answers() {
    assert!(text_is_kept().contains("保留原文"));
    assert!(queue_has_ended().contains("审阅队列已结束"));
    assert!(outline_comes_first().contains("重建大纲"));
}

fn run_of(s: PlotStep) -> (String, Json, bool, String) {
    match s {
        PlotStep::Run { call, body } => (call.name, call.args, call.confirmed, body),
        PlotStep::Say(_) => panic!("expected a call"),
    }
}

fn words_of(s: PlotStep) -> String {
    match s {
        PlotStep::Say(t) => t,
        PlotStep::Run { .. } => panic!("expected words"),
    }
}

#[test]
fn an_activated_card_is_written_on() {
    let a = PlotWriteGateAction::ActivateAndWrite {
        project: "demo".to_string(),
        title: "夜渡".to_string(),
    };
    let (name, args, confirmed, body) = run_of(a.first());
    assert_eq!(name, "update_plot");
    assert_eq!(args.get_str("title"), Some("夜渡"));
    assert_eq!(args.get_str("status"), Some("in_progress"));
    assert_eq!(args.get_bool("set_active_main"), Some(true));
    assert!(confirmed);
    assert_eq!(body, "正在激活剧情卡「夜渡」并继续写章…");
    let (name, args, confirmed, said) = run_of(a.second(&body, "好", &Json::object()));
    assert_eq!(name, "continue_writing");
    assert_eq!(args.get_str("project"), Some("demo"));
    assert!(confirmed);
    assert_eq!(said, format!("{body}\n\n好"));
    let blocked = Json::object().with_bool("blocked", true);
    assert_eq!(words_of(a.second(&body, "坏", &blocked)), format!("{body}\n\n激活失败：坏"));
    assert_eq!(a.close(&said, "写了", &Json::object()), format!("{said}\n\n写了"));
    assert!(a.close(&said, "写了", &blocked).ends_with("\n\n请按下方选项继续。"));
    assert_eq!(a.cards().len(), 6);
}

#[test]
fn a_designed_card_is_written_on_only_for_a_known_project() {
    let a = PlotWriteGateAction::Tool {
        name: "design_plot".to_string(),
        args: Json::object().with_str("project", "demo"),
    };
    let (_, _, confirmed, body) = run_of(a.first());
    assert!(confirmed);
    assert_eq!(run_of(a.second(&body, "好", &Json::object())).0, "continue_writing");
    assert!(a.cards() == vec![OfferKind::Next]);
    let b = PlotWriteGateAction::Tool { name: "design_plot".to_string(), args: Json::object() };
    assert_eq!(words_of(b.second("已选择", "好", &Json::object())), "已选择\n\n好");
    let c = PlotWriteGateAction::Tool { name: "list_plots".to_string(), args: Json::object() };
    assert!(!run_of(c.first()).2);
    assert_eq!(
        words_of(PlotWriteGateAction::Dismiss.first()),
        "已取消写章。需要时再说「继续」或「写下一章」。"
    );
    let mut t = ThreadState::new(None);
    t.pending_plot_write = true;
    t.take_plot_write();
    assert!(!t.pending_plot_write);
}
