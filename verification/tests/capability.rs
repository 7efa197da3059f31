use cognition_daemon::ai::task::StreamChunk;
use cognition_daemon::engines::capability::{
    choose_narrative, collect_chunk, compute_raw_scores, narrative_prompt, no_scores_message,
    offline_narrative,
};
use cognition_daemon::error::ProviderError;
use cognition_daemon::memory::l1::{CapabilityScore, Task, WorkflowSignal};

const NOW: i64 = 1_700_000_000_000;
const DAY: i64 = 86_400_000;

fn signal(kind: &str, at: i64, lang: Option<&str>) -> WorkflowSignal {
    WorkflowSignal {
        id: format!("s{at}"),
        project_id: Some("p".to_string()),
        signal_type: kind.to_string(),
        file_path: Some("src/main.rs".to_string()),
        language: lang.map(|l| l.to_string()),
        payload: "{}".to_string(),
        source: "vscode".to_string(),
        created_at: at,
    }
}

fn task(status: &str) -> Task {
    Task {
        id: format!("t-{status}"),
        project_id: "p".to_string(),
        title: "t".to_string(),
        description: None,
        status: status.to_string(),
        priority: 1,
        due_at: None,
        created_at: 0,
        updated_at: 0,
    }
}

fn score(skill: &str, s: i64) -> CapabilityScore {
    CapabilityScore {
        id: skill.to_string(),
        skill: skill.to_string(),
        score: s,
        basis: "{}".to_string(),
        project_id: None,
        computed_at: 0,
    }
}

#[test]
fn raw_scores_from_signals_and_tasks() {
    let signals = vec![
        signal("debug_started", NOW - 3_600_000, Some("rust")),
        signal("file_saved", NOW - 3_600_000, Some("python")),
        signal("file_saved", NOW - 2 * DAY, Some("rust")),
        signal("file_saved", NOW - 20 * DAY, Some("")),
        signal("debug_started", NOW - 40 * DAY, Some("go")),
    ];
    let tasks = vec![task("done"), task("todo"), task("in_progress")];
    let r = compute_raw_scores(&signals, &tasks, NOW);
    let expected = vec![
        ("debugging", 10, "1 debug sessions (30d)"),
        ("execution", 33, "1/3 tasks done"),
        ("consistency", 14, "2/14 active days"),
        ("breadth", 30, "2 languages"),
        ("productivity", 10, "1 saves/active day"),
    ];
    assert_eq!(r.len(), 5);
    for (got, want) in r.iter().zip(expected.iter()) {
        assert_eq!(got.0, want.0);
        assert_eq!(got.1, want.1);
        assert_eq!(got.2, want.2);
    }
}

#[test]
fn raw_scores_without_data_are_neutral() {
    let r = compute_raw_scores(&Vec::new(), &Vec::new(), NOW);
    let scores: Vec<i64> = r.iter().map(|t| t.1).collect();
    assert_eq!(scores, vec![0, 50, 0, 0, 0]);
    assert_eq!(r[1].2, "0/0 tasks done");
    assert_eq!(r[4].2, "0 saves/active day");
}

#[test]
fn raw_scores_are_capped_at_one_hundred() {
    let mut signals = Vec::new();
    for d in 0..20 {
        for _ in 0..12 {
            signals.push(signal("debug_started", NOW - d * DAY, Some(&format!("lang{d}"))));
            signals.push(signal("file_saved", NOW - d * DAY, None));
        }
    }
    let tasks = vec![task("done"), task("done")];
    let r = compute_raw_scores(&signals, &tasks, NOW);
    for t in &r {
        assert!(t.1 >= 0 && t.1 <= 100);
    }
    assert_eq!(r[0].1, 100);
    assert_eq!(r[0].2, "240 debug sessions (30d)");
    assert_eq!(r[1].1, 100);
    assert_eq!(r[2].1, 100);
    // the window includes its start: days 0 to 14 ago are 15 days
    assert_eq!(r[2].2, "15/14 active days");
    assert_eq!(r[3].1, 100);
    assert_eq!(r[3].2, "20 languages");
    assert_eq!(r[4].1, 100);
    assert_eq!(r[4].2, "12 saves/active day");
}

#[test]
fn offline_narrative_names_strongest_and_weakest() {
    let scores = vec![
        score("debugging", 10),
        score("execution", 33),
        score("consistency", 14),
        score("breadth", 30),
        score("productivity", 10),
    ];
    assert_eq!(
        offline_narrative(&scores),
        "Your strongest area is execution (33/100). Consider investing more time in debugging \
         (10/100) to grow more evenly. Keep shipping!"
    );
}

#[test]
fn offline_narrative_ties_pick_last_max_and_first_min() {
    let scores = vec![score("a", 50), score("b", 50), score("c", 50)];
    assert_eq!(
        offline_narrative(&scores),
        "Your strongest area is c (50/100). Consider investing more time in a (50/100) to grow \
         more evenly. Keep shipping!"
    );
    assert_eq!(
        offline_narrative(&vec![score("solo", 70)]),
        "Your strongest area is solo (70/100). Keep building!"
    );
    assert_eq!(offline_narrative(&Vec::new()), "No capability data available yet.");
}

#[test]
fn narrative_prompt_lists_scores() {
    let scores = vec![score("breadth", 30), score("execution", 40)];
    let p = narrative_prompt(&scores);
    assert!(p.starts_with("You are an AI mentor analyzing a developer's recent activity. Based on"));
    assert!(p.ends_with("Max 80 words.\n\nScores:\n- breadth: 30/100\n- execution: 40/100"));
}

#[test]
fn narrative_falls_back_to_template() {
    let scores = vec![score("solo", 70)];
    assert_eq!(choose_narrative(Some("  Great work!  "), &scores), "Great work!");
    assert_eq!(choose_narrative(Some(" \n "), &scores), offline_narrative(&scores));
    assert_eq!(choose_narrative(None, &scores), offline_narrative(&scores));
    assert!(no_scores_message().starts_with("No capability data yet. Write some code"));
}

#[test]
fn collecting_stops_at_final_chunk_or_error() {
    let mut acc = String::new();
    let c = |t: &str, done: bool| StreamChunk {
        content: t.to_string(),
        done,
        model: None,
        provider: None,
        usage: None,
    };
    assert!(!collect_chunk(&mut acc, &Ok(c("Hel", false))));
    assert!(collect_chunk(&mut acc, &Ok(c("lo", true))));
    assert_eq!(acc, "Hello");
    let err = Err(ProviderError::StreamInterrupted("x".to_string()));
    assert!(collect_chunk(&mut acc, &err));
    assert_eq!(acc, "Hello");
}
