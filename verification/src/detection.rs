use vstd::prelude::*;
use crate::ids::{is_uuid_v4_text, new_uuid_v4_text};
use crate::models::{Alert, SecurityEvent};

verus! {

/// The text of an optional string field.
pub open spec fn opt_text(o: Option<String>) -> Option<Seq<char>> {
    match o {
        Some(s) => Some(s@),
        None => None,
    }
}

/// The detection rule: a failed login reported with severity `HIGH` or
/// `CRITICAL` raises an alert.
pub open spec fn is_suspicious_login(event: &SecurityEvent) -> bool {
    &&& event.event_type@ == "FAILED_LOGIN"@
    &&& (event.severity@ == "HIGH"@ || event.severity@ == "CRITICAL"@)
}

/// Title of the alert raised for an event from `source`.
pub open spec fn alert_title_text(source: Seq<char>) -> Seq<char> {
    "Tentative de connexion suspecte sur "@ + source
}

/// Description of the alert raised for an event reported by `agent_id`.
pub open spec fn alert_description_text(agent_id: Seq<char>) -> Seq<char> {
    "L'agent "@ + agent_id + " a rapporté une tentative échouée."@
}

/// `alert` is the alert row, with identifier `id`, that the rule stores for
/// `event`: no rule or event reference, the title and description above, the
/// event's severity, status `OPEN`, and no creation time (the database
/// stamps it).
pub open spec fn is_alert_for(alert: Alert, event: &SecurityEvent, id: Seq<char>) -> bool {
    &&& alert.id@ == id
    &&& alert.rule_id is None
    &&& alert.event_id is None
    &&& opt_text(alert.title) == Some(alert_title_text(event.source@))
    &&& opt_text(alert.description) == Some(alert_description_text(event.agent_id@))
    &&& opt_text(alert.severity) == Some(event.severity@)
    &&& opt_text(alert.status) == Some("OPEN"@)
    &&& alert.created_at is None
}

/// Whether `s` holds exactly the text `lit`.
pub fn text_is(s: &String, lit: &str) -> (b: bool)
    ensures
        b == (s@ == lit@),
{
    let other = lit.to_owned();
    s.eq(&other)
}

/// Whether `event` matches the detection rule.
pub fn is_suspicious(event: &SecurityEvent) -> (b: bool)
    ensures
        b == is_suspicious_login(event),
        b == (event.event_type@ == "FAILED_LOGIN"@ && (event.severity@ == "HIGH"@
            || event.severity@ == "CRITICAL"@)),
{
    text_is(&event.event_type, "FAILED_LOGIN") && (text_is(&event.severity, "HIGH") || text_is(
        &event.severity,
        "CRITICAL",
    ))
}

/// The alert that the rule raises for `event`, under the identifier
/// `alert_id`, or `None` when the event does not match the rule.
pub fn alert_for_event(event: &SecurityEvent, alert_id: String) -> (r: Option<Alert>)
    ensures
        r is Some <==> is_suspicious_login(event),
        r is Some <==> (event.event_type@ == "FAILED_LOGIN"@ && (event.severity@ == "HIGH"@
            || event.severity@ == "CRITICAL"@)),
        r matches Some(a) ==> is_alert_for(a, event, alert_id@),
{
    if !is_suspicious(event) {
        return None;
    }
    let mut title = "Tentative de connexion suspecte sur ".to_owned();
    title.append(event.source.as_str());
    let mut description = "L'agent ".to_owned();
    description.append(event.agent_id.as_str());
    description.append(" a rapporté une tentative échouée.");
    Some(
        Alert {
            id: alert_id,
            rule_id: None,
            event_id: None,
            title: Some(title),
            description: Some(description),
            severity: Some(event.severity.clone()),
            status: Some("OPEN".to_owned()),
            created_at: None,
        },
    )
}

/// Applies the detection rule to `event`: when it matches, returns the alert
/// to store, under a freshly drawn version 4 UUID; otherwise `None`.
pub fn detect_alert(event: &SecurityEvent) -> (r: Option<Alert>)
    ensures
        r is Some <==> is_suspicious_login(event),
        r is Some <==> (event.event_type@ == "FAILED_LOGIN"@ && (event.severity@ == "HIGH"@
            || event.severity@ == "CRITICAL"@)),
        r matches Some(a) ==> is_uuid_v4_text(a.id@) && is_alert_for(a, event, a.id@),
{
    if !is_suspicious(event) {
        return None;
    }
    let alert_id = new_uuid_v4_text();
    alert_for_event(event, alert_id)
}

/// The rule looks at the event's type and severity only: two events that
/// agree on both get the same verdict, whatever their agent, source or raw
/// data.
pub proof fn lemma_verdict_depends_on_type_and_severity(a: &SecurityEvent, b: &SecurityEvent)
    requires
        a.event_type@ == b.event_type@,
        a.severity@ == b.severity@,
    ensures
        is_suspicious_login(a) == is_suspicious_login(b),
{
}

/// Every failed login of severity `HIGH` or `CRITICAL` is flagged, and
/// nothing else is.
pub proof fn lemma_rule_flags_exactly_severe_failed_logins(event: &SecurityEvent)
    ensures
        is_suspicious_login(event) <==> (event.event_type@ == "FAILED_LOGIN"@ && (event.severity@
            == "HIGH"@ || event.severity@ == "CRITICAL"@)),
{
}

} // verus!
