use cognition_daemon::ai::task::{ChatMessage, MessageRole, RoutingPreference, StreamChunk};
use cognition_daemon::engines::artifact::{
    ai_text_or_template, portfolio_content, portfolio_section, portfolio_title,
    project_page_prompt, project_page_stats, project_page_title, template_project_page,
};
use cognition_daemon::engines::mentor::{
    conversation_to_continue, history_to_chat, message_preview, signal_line,
    with_workflow_context, workflow_context, TurnAccumulator, TurnStep,
};
use cognition_daemon::error::ProviderError;
use cognition_daemon::memory::l1::{Message, Project, Task, WorkflowSignal};

fn task(status: &str) -> Task {
    Task {
        id: "t".to_string(),
        project_id: "p".to_string(),
        title: "t".to_string(),
        description: None,
        status: status.to_string(),
        priority: 1,
        due_at: None,
        created_at: 0,
        updated_at: 0,
    }
}

fn signal(kind: &str, at: i64, file: Option<&str>, lang: Option<&str>) -> WorkflowSignal {
    WorkflowSignal {
        id: "s".to_string(),
        project_id: None,
        signal_type: kind.to_string(),
        file_path: file.map(str::to_string),
        language: lang.map(str::to_string),
        payload: "{}".to_string(),
        source: "vscode".to_string(),
        created_at: at,
    }
}

fn project(name: &str, desc: Option<&str>) -> Project {
    Project {
        id: "p1".to_string(),
        name: name.to_string(),
        description: desc.map(str::to_string),
        status: "active".to_string(),
        created_at: 0,
        updated_at: 0,
    }
}

#[test]
fn page_stats_count_tasks_and_sort_languages() {
    let tasks = vec![task("done"), task("done"), task("todo"), task("in_progress"), task("blocked")];
    let signals = vec![
        signal("file_saved", 0, None, Some("rust")),
        signal("file_saved", 0, None, Some("python")),
        signal("file_saved", 0, None, Some("rust")),
        signal("file_saved", 0, None, Some("")),
        signal("file_saved", 0, None, None),
        signal("file_saved", 0, None, Some("Zig")),
    ];
    let s = project_page_stats(&tasks, &signals);
    assert_eq!((s.done, s.in_progress, s.todo), (2, 1, 1));
    assert_eq!(s.languages, "Zig, python, rust");
    let none = project_page_stats(&Vec::new(), &Vec::new());
    assert_eq!(none.languages, "Not detected");
}

#[test]
fn page_prompt_and_title() {
    let p = project("Atlas", None);
    let stats = project_page_stats(&vec![task("done")], &vec![signal("x", 0, None, Some("go"))]);
    let prompt = project_page_prompt(&p, &stats, 7);
    assert_eq!(
        prompt,
        "Generate a concise professional portfolio project page in markdown.\n\nProject: Atlas\n\
         Description: No description provided\nStatus: active\nTasks: 1 done, 0 in progress, 0 todo\n\
         Technologies: go\nActivity: 7 workflow events captured\n\nWrite these sections: ## Overview, \
         ## What I Built, ## Technologies, ## Progress, ## Key Learnings. Professional tone, under 250 words."
    );
    assert_eq!(project_page_title("Atlas"), "Atlas — Project Page");
}

#[test]
fn template_page_reads_as_documented() {
    let page = template_project_page("Atlas", Some("Maps"), "active", 3, 2, 1, "rust");
    assert_eq!(
        page,
        "# Atlas\n\n## Overview\nMaps\n\n**Status:** active\n\n## Technologies\nrust\n\n## Progress\n\
         - ✅ 3 tasks completed\n- 🔄 2 tasks in progress\n- 📋 1 tasks todo\n\n## Key Learnings\n\
         *(Connect Ollama or a cloud provider to generate AI-powered insights)*\n"
    );
    let bare = template_project_page("A", None, "paused", 0, 0, 0, "Not detected");
    assert!(bare.contains("## Overview\nNo description provided.\n"));
    assert!(bare.contains("## Technologies\nN/A\n"));
}

#[test]
fn ai_text_wins_unless_empty() {
    assert_eq!(ai_text_or_template(Some("\n# Page\n"), "tmpl".to_string()), "# Page");
    assert_eq!(ai_text_or_template(Some("   "), "tmpl".to_string()), "tmpl");
    assert_eq!(ai_text_or_template(None, "tmpl".to_string()), "tmpl");
}

#[test]
fn portfolio_pieces() {
    let a = project("Atlas", Some("Maps"));
    let b = project("Beacon", None);
    let sa = portfolio_section(&a, &vec![task("done"), task("todo")]);
    assert_eq!(sa, "### Atlas\n**Status:** active | **Completed Tasks:** 1/2\n\nMaps\n");
    let sb = portfolio_section(&b, &Vec::new());
    assert_eq!(sb, "### Beacon\n**Status:** active | **Completed Tasks:** 0/0\n\n\n");
    let content = portfolio_content("2024-05-01", &vec![sa.clone(), sb.clone()]);
    assert_eq!(
        content,
        format!("# Portfolio Export\n\n*Generated 2024-05-01*\n\n## Projects\n\n{sa}\n---\n\n{sb}")
    );
    assert_eq!(portfolio_title(&vec![a.clone()]), "Portfolio — Atlas");
    assert_eq!(portfolio_title(&vec![a, b]), "Portfolio Export — 2 Projects");
    assert_eq!(portfolio_title(&Vec::new()), "Portfolio Export — 0 Projects");
}

#[test]
fn conversation_is_continued_only_when_it_exists() {
    let id = Some("c1".to_string());
    assert_eq!(conversation_to_continue(&id, true), Some("c1".to_string()));
    assert_eq!(conversation_to_continue(&id, false), None);
    assert_eq!(conversation_to_continue(&None, true), None);
}

#[test]
fn preview_keeps_eighty_characters() {
    let long: String = "é".repeat(100);
    assert_eq!(message_preview(&long).chars().count(), 80);
    assert_eq!(message_preview("short"), "short");
}

#[test]
fn history_roles_map_to_chat_roles() {
    let m = |role: &str, c: &str| Message {
        id: "m".to_string(),
        conversation_id: "c".to_string(),
        role: role.to_string(),
        content: c.to_string(),
        model: None,
        provider: None,
        correlation_id: None,
        created_at: 0,
    };
    let chat = history_to_chat(&vec![m("user", "hi"), m("assistant", "yo"), m("system", "s"), m("tool", "t")]);
    let roles: Vec<MessageRole> = chat.iter().map(|c| c.role).collect();
    assert_eq!(roles, vec![MessageRole::User, MessageRole::Assistant, MessageRole::System, MessageRole::User]);
    assert_eq!(chat[1].content, "yo");
}

#[test]
fn workflow_context_lines() {
    // 1970-01-01T01:02:00Z
    let s = signal("file_saved", 3_720_000, Some("src/lib.rs"), Some("rust"));
    assert_eq!(signal_line(&s), "- [01:02] file_saved → src/lib.rs (rust)");
    let t = signal("debug_started", i64::MAX, None, None);
    assert_eq!(signal_line(&t), "- [] debug_started → ?");
    let ctx = workflow_context(&vec![s.clone(), t.clone()]);
    assert_eq!(
        ctx,
        "Current workflow context (recent VSCode activity, newest last):\n\
         - [01:02] file_saved → src/lib.rs (rust)\n- [] debug_started → ?"
    );
    let msgs = vec![ChatMessage { role: MessageRole::User, content: "hello".to_string() }];
    let with = with_workflow_context(msgs.clone(), &vec![s]);
    assert_eq!(with.len(), 2);
    assert_eq!(with[0].role, MessageRole::System);
    assert_eq!(with[1].content, "hello");
    let without = with_workflow_context(msgs, &Vec::new());
    assert_eq!(without.len(), 1);
    let _ = RoutingPreference::Auto;
}

#[test]
fn turn_accumulator_persists_text_on_final_chunk() {
    let chunk = |t: &str, done: bool, model: Option<&str>| StreamChunk {
        content: t.to_string(),
        done,
        model: model.map(str::to_string),
        provider: Some("mock".to_string()),
        usage: None,
    };
    let mut acc = TurnAccumulator::new();
    assert!(matches!(acc.step(&Ok(chunk("Hello", false, Some("m1")))), TurnStep::Continue));
    assert!(matches!(
        acc.step(&Err(ProviderError::Http { message: "x".to_string() })),
        TurnStep::Continue
    ));
    match acc.step(&Ok(chunk(" there", true, None))) {
        TurnStep::Persist { content, model, provider } => {
            assert_eq!(content, "Hello there");
            assert_eq!(model.as_deref(), Some("m1"));
            assert_eq!(provider.as_deref(), Some("mock"));
        }
        _ => panic!("expected persist"),
    }
    let mut empty = TurnAccumulator::new();
    assert!(matches!(empty.step(&Ok(chunk("", true, None))), TurnStep::Finish));
}
