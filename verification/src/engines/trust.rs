//! Trust engine: the health report of the daemon.
use vstd::prelude::*;

verus! {

#[derive(Debug, Clone, Copy)]
pub struct HealthReport {
    pub daemon_healthy: bool,
    pub db_ok: bool,
    pub uptime_s: u64,
    pub projects: i64,
    pub tasks: i64,
    pub conversations: i64,
    pub messages: i64,
    pub signals: i64,
    pub capability_scores: i64,
    pub artifacts: i64,
}

/// Row counts of the tables the report shows.
#[derive(Debug, Clone, Copy)]
pub struct TableCounts {
    pub projects: i64,
    pub tasks: i64,
    pub conversations: i64,
    pub messages: i64,
    pub signals: i64,
    pub capability_scores: i64,
    pub artifacts: i64,
}

/// The health report: the daemon is healthy whenever it answers; the database is ok when
/// its counts could be read (`None` when the query failed, and then every count is 0).
pub fn health_report(uptime_s: u64, counts: Option<TableCounts>) -> (r: HealthReport)
    ensures
        r.daemon_healthy,
        r.uptime_s == uptime_s,
        r.db_ok == counts is Some,
        match counts {
            Some(c) => r.projects == c.projects && r.tasks == c.tasks && r.conversations
                == c.conversations && r.messages == c.messages && r.signals == c.signals
                && r.capability_scores == c.capability_scores && r.artifacts == c.artifacts,
            None => r.projects == 0 && r.tasks == 0 && r.conversations == 0 && r.messages == 0
                && r.signals == 0 && r.capability_scores == 0 && r.artifacts == 0,
        },
{
    match counts {
        Some(c) => HealthReport {
            daemon_healthy: true,
            db_ok: true,
            uptime_s,
            projects: c.projects,
            tasks: c.tasks,
            conversations: c.conversations,
            messages: c.messages,
            signals: c.signals,
            capability_scores: c.capability_scores,
            artifacts: c.artifacts,
        },
        None => HealthReport {
            daemon_healthy: true,
            db_ok: false,
            uptime_s,
            projects: 0,
            tasks: 0,
            conversations: 0,
            messages: 0,
            signals: 0,
            capability_scores: 0,
            artifacts: 0,
        },
    }
}

} // verus!
