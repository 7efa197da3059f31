//! Artifact engine: portfolio-quality project pages and portfolio exports, written by the
//! AI when it answers and from an offline template when it does not.
use vstd::prelude::*;

use crate::memory::l1::{
    count_status, lemma_count_status_is_filter, tasks_in_status, tasks_with_status, Project, Task,
    WorkflowSignal,
};
use crate::text::{
    add_distinct, concat, decimal, join, joined, lemma_sorted_permutation, owned, sort_strings,
    str_le, trim, trimmed, usize_to_decimal, view_set, views,
};

verus! {

/// The non-empty languages of the signals.
pub open spec fn signal_languages(s: Seq<WorkflowSignal>) -> Set<Seq<char>>
    decreases s.len(),
{
    if s.len() == 0 {
        Set::empty()
    } else {
        let rest = signal_languages(s.drop_last());
        let x = s.last();
        if x.language is Some && (x.language->0)@.len() > 0 {
            rest.insert((x.language->0)@)
        } else {
            rest
        }
    }
}

/// How the list of languages reads on a page: joined by ", ", or "Not detected".
pub open spec fn languages_text(langs: Seq<Seq<char>>) -> Seq<char> {
    if langs.len() == 0 {
        "Not detected"@
    } else {
        joined(langs, ", "@)
    }
}

/// `langs` lists the strings of `set` once each, in ascending string order.
pub open spec fn sorted_listing(langs: Seq<Seq<char>>, set: Set<Seq<char>>) -> bool {
    &&& langs.no_duplicates()
    &&& langs.to_set() == set
    &&& forall|i: int, j: int| 0 <= i < j < langs.len() ==> str_le(#[trigger] langs[i], #[trigger] langs[j])
}

/// What a project page is written from.
pub struct PageStats {
    pub done: usize,
    pub in_progress: usize,
    pub todo: usize,
    pub languages: String,
}

/// Task counts by status, and the distinct languages of the signals, sorted and joined.
pub fn project_page_stats(tasks: &Vec<Task>, signals: &Vec<WorkflowSignal>) -> (r: PageStats)
    ensures
        r.done == count_status(tasks@, "done"@),
        r.in_progress == count_status(tasks@, "in_progress"@),
        r.todo == count_status(tasks@, "todo"@),
        exists|langs: Seq<Seq<char>>|
            sorted_listing(langs, signal_languages(signals@)) && r.languages@ == languages_text(
                langs,
            ),
{
    let done = tasks_with_status(tasks, "done");
    let in_progress = tasks_with_status(tasks, "in_progress");
    let todo = tasks_with_status(tasks, "todo");

    let ghost s = signals@;
    let mut langs: Vec<String> = Vec::new();
    let mut i: usize = 0;
    while i < signals.len()
        invariant
            i <= s.len(),
            s == signals@,
            views(langs@).no_duplicates(),
            view_set(langs@) == signal_languages(s.take(i as int)),
        decreases s.len() - i,
    {
        assert(s.take(i + 1).drop_last() =~= s.take(i as int));
        match &signals[i].language {
            Some(l) => {
                if l.as_str().unicode_len() > 0 {
                    add_distinct(&mut langs, l.clone());
                }
            },
            None => {},
        }
        i = i + 1;
    }
    assert(s.take(s.len() as int) =~= s);
    let ghost unsorted = langs@;
    sort_strings(&mut langs);
    proof {
        lemma_sorted_permutation(unsorted, langs@);
    }
    let text = if langs.len() == 0 {
        owned("Not detected")
    } else {
        join(&langs, ", ")
    };
    proof {
        let l = views(langs@);
        assert forall|i: int, j: int| 0 <= i < j < l.len() implies str_le(#[trigger] l[i], #[trigger] l[j]) by {
            assert(str_le(langs@[i]@, langs@[j]@));
        }
        assert(sorted_listing(l, signal_languages(signals@)));
        assert(text@ == languages_text(l));
    }
    PageStats { done, in_progress, todo, languages: text }
}

pub open spec fn opt_text(o: Option<String>, default: Seq<char>) -> Seq<char> {
    match o {
        Some(s) => s@,
        None => default,
    }
}

/// The prompt that asks the AI for a project page.
pub open spec fn project_page_prompt_text(
    p: Project,
    done: nat,
    in_progress: nat,
    todo: nat,
    langs: Seq<char>,
    signal_count: nat,
) -> Seq<char> {
    "Generate a concise professional portfolio project page in markdown.\n\nProject: "@ + p.name@
        + "\nDescription: "@ + opt_text(p.description, "No description provided"@) + "\nStatus: "@
        + p.status@ + "\nTasks: "@ + decimal(done) + " done, "@ + decimal(in_progress)
        + " in progress, "@ + decimal(todo) + " todo\nTechnologies: "@ + langs + "\nActivity: "@
        + decimal(signal_count)
        + " workflow events captured\n\nWrite these sections: ## Overview, ## What I Built, ## Technologies, ## Progress, ## Key Learnings. Professional tone, under 250 words."@
}

pub fn project_page_prompt(
    project: &Project,
    stats: &PageStats,
    signal_count: usize,
) -> (r: String)
    ensures
        r@ == project_page_prompt_text(
            *project,
            stats.done as nat,
            stats.in_progress as nat,
            stats.todo as nat,
            stats.languages@,
            signal_count as nat,
        ),
{
    let mut r = owned("Generate a concise professional portfolio project page in markdown.\n\nProject: ");
    r.append(project.name.as_str());
    r.append("\nDescription: ");
    match &project.description {
        Some(d) => r.append(d.as_str()),
        None => r.append("No description provided"),
    }
    r.append("\nStatus: ");
    r.append(project.status.as_str());
    r.append("\nTasks: ");
    r.append(usize_to_decimal(stats.done).as_str());
    r.append(" done, ");
    r.append(usize_to_decimal(stats.in_progress).as_str());
    r.append(" in progress, ");
    r.append(usize_to_decimal(stats.todo).as_str());
    r.append(" todo\nTechnologies: ");
    r.append(stats.languages.as_str());
    r.append("\nActivity: ");
    r.append(usize_to_decimal(signal_count).as_str());
    r.append(
        " workflow events captured\n\n\
         Write these sections: ## Overview, ## What I Built, ## Technologies, \
         ## Progress, ## Key Learnings. Professional tone, under 250 words.",
    );
    r
}

/// The offline project page.
pub open spec fn template_page_text(
    name: Seq<char>,
    description: Option<Seq<char>>,
    status: Seq<char>,
    done: nat,
    in_progress: nat,
    todo: nat,
    langs: Seq<char>,
) -> Seq<char> {
    "# "@ + name + "\n\n## Overview\n"@ + (match description {
        Some(d) => d,
        None => "No description provided."@,
    }) + "\n\n**Status:** "@ + status + "\n\n## Technologies\n"@ + (if langs == "Not detected"@ {
        "N/A"@
    } else {
        langs
    }) + "\n\n## Progress\n- ✅ "@ + decimal(done) + " tasks completed\n- 🔄 "@ + decimal(
        in_progress,
    ) + " tasks in progress\n- 📋 "@ + decimal(todo)
        + " tasks todo\n\n## Key Learnings\n*(Connect Ollama or a cloud provider to generate AI-powered insights)*\n"@
}

/// The project page written without AI.
pub fn template_project_page(
    name: &str,
    description: Option<&str>,
    status: &str,
    done: usize,
    in_progress: usize,
    todo: usize,
    langs: &str,
) -> (r: String)
    ensures
        r@ == template_page_text(
            name@,
            match description {
                Some(d) => Some(d@),
                None => None,
            },
            status@,
            done as nat,
            in_progress as nat,
            todo as nat,
            langs@,
        ),
        r@.len() > 0,
{
    let mut r = concat("# ", name);
    r.append("\n\n## Overview\n");
    match description {
        Some(d) => r.append(d),
        None => r.append("No description provided."),
    }
    r.append("\n\n**Status:** ");
    r.append(status);
    r.append("\n\n## Technologies\n");
    let not_detected = owned("Not detected");
    let given = owned(langs);
    if given == not_detected {
        r.append("N/A");
    } else {
        r.append(langs);
    }
    r.append("\n\n## Progress\n- ✅ ");
    r.append(usize_to_decimal(done).as_str());
    r.append(" tasks completed\n- 🔄 ");
    r.append(usize_to_decimal(in_progress).as_str());
    r.append(" tasks in progress\n- 📋 ");
    r.append(usize_to_decimal(todo).as_str());
    r.append(
        " tasks todo\n\n\
         ## Key Learnings\n\
         *(Connect Ollama or a cloud provider to generate AI-powered insights)*\n",
    );
    proof {
        reveal_strlit("# ");
    }
    r
}

/// The title of a project page artifact.
pub fn project_page_title(name: &str) -> (r: String)
    ensures
        r@ == name@ + " — Project Page"@,
{
    concat(name, " — Project Page")
}

/// The AI's text when it gave some (trimmed), the fallback otherwise.
/// `answer` is what the stream gave, `None` when the AI could not be reached.
pub open spec fn text_or_fallback(answer: Option<Seq<char>>, fallback: Seq<char>) -> Seq<char> {
    match answer {
        Some(a) => if trimmed(a).len() == 0 {
            fallback
        } else {
            trimmed(a)
        },
        None => fallback,
    }
}

pub fn ai_text_or_template(answer: Option<&str>, fallback: String) -> (r: String)
    ensures
        r@ == text_or_fallback(
            match answer {
                Some(a) => Some(a@),
                None => None,
            },
            fallback@,
        ),
        fallback@.len() > 0 ==> r@.len() > 0,
{
    match answer {
        Some(a) => {
            let t = trim(a);
            if t.as_str().unicode_len() == 0 {
                fallback
            } else {
                t
            }
        },
        None => fallback,
    }
}

/// One project's section of a portfolio export.
pub open spec fn portfolio_section_text(p: Project, tasks: Seq<Task>) -> Seq<char> {
    "### "@ + p.name@ + "\n**Status:** "@ + p.status@ + " | **Completed Tasks:** "@ + decimal(
        count_status(tasks, "done"@),
    ) + "/"@ + decimal(tasks.len()) + "\n\n"@ + opt_text(p.description, Seq::empty()) + "\n"@
}

/// A project's section opens with its name and status, then reports as completed the number
/// of its tasks whose status is "done" (tasks in progress or to do never count), over the
/// number of its tasks.
pub proof fn lemma_portfolio_section_counts_done(p: Project, tasks: Seq<Task>)
    ensures
        ({
            let text = portfolio_section_text(p, tasks);
            let header = "### "@ + p.name@ + "\n**Status:** "@ + p.status@
                + " | **Completed Tasks:** "@;
            let count = decimal(tasks_in_status(tasks, "done"@).len()) + "/"@ + decimal(
                tasks.len(),
            ) + "\n\n"@;
            &&& text.len() >= header.len() + count.len()
            &&& text.take(header.len() as int) == header
            &&& text.subrange(header.len() as int, (header.len() + count.len()) as int) == count
        }),
{
    lemma_count_status_is_filter(tasks, "done"@);
    let text = portfolio_section_text(p, tasks);
    let header = "### "@ + p.name@ + "\n**Status:** "@ + p.status@ + " | **Completed Tasks:** "@;
    let count = decimal(tasks_in_status(tasks, "done"@).len()) + "/"@ + decimal(tasks.len())
        + "\n\n"@;
    let rest = opt_text(p.description, Seq::empty()) + "\n"@;
    assert(text =~= header + count + rest);
    assert(text.take(header.len() as int) =~= header);
    assert(text.subrange(header.len() as int, (header.len() + count.len()) as int) =~= count);
}

pub fn portfolio_section(project: &Project, tasks: &Vec<Task>) -> (r: String)
    ensures
        r@ == portfolio_section_text(*project, tasks@),
{
    let done = tasks_with_status(tasks, "done");
    let mut r = concat("### ", project.name.as_str());
    r.append("\n**Status:** ");
    r.append(project.status.as_str());
    r.append(" | **Completed Tasks:** ");
    r.append(usize_to_decimal(done).as_str());
    r.append("/");
    r.append(usize_to_decimal(tasks.len()).as_str());
    r.append("\n\n");
    match &project.description {
        Some(d) => r.append(d.as_str()),
        None => {
            assert(r@ + Seq::<char>::empty() =~= r@);
        },
    }
    r.append("\n");
    r
}

/// The body of a portfolio export, dated `generated_on`.
pub open spec fn portfolio_content_text(generated_on: Seq<char>, sections: Seq<Seq<char>>) -> Seq<char> {
    "# Portfolio Export\n\n*Generated "@ + generated_on + "*\n\n## Projects\n\n"@ + joined(
        sections,
        "\n---\n\n"@,
    )
}

pub fn portfolio_content(generated_on: &str, sections: &Vec<String>) -> (r: String)
    ensures
        r@ == portfolio_content_text(generated_on@, views(sections@)),
{
    let mut r = concat("# Portfolio Export\n\n*Generated ", generated_on);
    r.append("*\n\n## Projects\n\n");
    r.append(join(sections, "\n---\n\n").as_str());
    r
}

/// The title of a portfolio export: the project's name when there is one project.
pub open spec fn portfolio_title_text(projects: Seq<Project>) -> Seq<char> {
    if projects.len() == 1 {
        "Portfolio — "@ + projects[0].name@
    } else {
        "Portfolio Export — "@ + decimal(projects.len()) + " Projects"@
    }
}

pub fn portfolio_title(projects: &Vec<Project>) -> (r: String)
    ensures
        r@ == portfolio_title_text(projects@),
{
    if projects.len() == 1 {
        concat("Portfolio — ", projects[0].name.as_str())
    } else {
        let mut r = concat("Portfolio Export — ", usize_to_decimal(projects.len()).as_str());
        r.append(" Projects");
        r
    }
}

} // verus!
