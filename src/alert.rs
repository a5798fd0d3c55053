//! Severe-weather alerts: the upstream alert list mapped into `Alert` records,
//! one for one and in order.
use vstd::prelude::*;
use crate::error::Error;
use crate::fetch::Fetched;

verus! {

/// One upstream alert object.
#[derive(Debug)]
pub struct AlertResponse {
    pub headline: String,
    pub msgtype: String,
    pub severity: String,
    pub urgency: String,
    pub areas: String,
    pub category: String,
    pub certainty: String,
    pub event: String,
    pub note: String,
    pub effective: String,
    pub expires: String,
    pub desc: String,
    pub instruction: String,
}

/// The upstream `alerts` object: the alert list.
#[derive(Debug)]
pub struct AlertsResponse {
    pub alert: Vec<AlertResponse>,
}

/// The alerts in force for a place, in the order the provider gave them.
#[derive(Debug)]
pub struct Alerts {
    pub alerts: Vec<Alert>,
}

/// One severe-weather alert.
#[derive(Debug)]
pub struct Alert {
    pub headline: String,
    pub message_type: String,
    pub description: String,
    pub severity: String,
    pub urgency: String,
    pub areas: String,
    pub category: String,
    pub certainty: String,
    pub event: String,
    pub note: String,
    pub effective: String,
    pub expires: String,
    pub instruction: String,
}

/// The record an upstream alert maps to: `msgtype` becomes `message_type`,
/// `desc` becomes `description`, every other field keeps its name.
pub open spec fn alert_of(r: AlertResponse) -> Alert {
    Alert {
        headline: r.headline,
        message_type: r.msgtype,
        description: r.desc,
        severity: r.severity,
        urgency: r.urgency,
        areas: r.areas,
        category: r.category,
        certainty: r.certainty,
        event: r.event,
        note: r.note,
        effective: r.effective,
        expires: r.expires,
        instruction: r.instruction,
    }
}

/// The records an upstream alert list maps to, one for one and in order.
pub open spec fn alerts_of(rs: Seq<AlertResponse>) -> Seq<Alert> {
    rs.map_values(|r: AlertResponse| alert_of(r))
}

/// The labelled, one-field-per-line description of an alert.
pub open spec fn alert_text(a: Alert) -> Seq<char> {
    "Headline: "@ + a.headline@ + "\nType: "@ + a.message_type@ + "\nDescription: "@
        + a.description@ + "\nSeverity: "@ + a.severity@ + "\nUrgency: "@ + a.urgency@
        + "\nAreas: "@ + a.areas@ + "\nCategory: "@ + a.category@ + "\nCertainty: "@
        + a.certainty@ + "\nEvent: "@ + a.event@ + "\nNote: "@ + a.note@ + "\nEffective: "@
        + a.effective@ + "\nExpires: "@ + a.expires@ + "\nInstruction: "@ + a.instruction@
        + "\n"@
}

/// The descriptions of the alerts, each followed by an empty line.
pub open spec fn alerts_text(s: Seq<Alert>) -> Seq<char>
    decreases s.len(),
{
    if s.len() == 0 {
        Seq::empty()
    } else {
        alerts_text(s.drop_last()) + alert_text(s.last()) + "\n"@
    }
}

impl Alerts {
    pub fn new(alerts: Vec<Alert>) -> (r: Alerts)
        ensures
            r.alerts@ == alerts@,
    {
        Alerts { alerts }
    }

    /// Maps an upstream alert list: `n` alerts give `n` records, in the same order.
    pub fn from_response(response: AlertsResponse) -> (r: Alerts)
        ensures
            r.alerts@ == alerts_of(response.alert@),
    {
        let ghost src = response.alert@;
        let mut rest = response.alert;
        let mut out: Vec<Alert> = Vec::new();
        while rest.len() > 0
            invariant
                out@.len() + rest@.len() == src.len(),
                rest@ == src.subrange(out@.len() as int, src.len() as int),
                forall|j: int| 0 <= j < out@.len() ==> out@[j] == alert_of(#[trigger] src[j]),
            decreases rest@.len(),
        {
            let r = rest.remove(0);
            out.push(Alert::from(r));
        }
        proof {
            assert(out@ =~= alerts_of(src));
        }
        Alerts::new(out)
    }

    /// Every alert's description, each followed by an empty line.
    pub fn to_string(&self) -> (r: String)
        ensures
            r@ == alerts_text(self.alerts@),
    {
        let mut s = String::new();
        let mut i: usize = 0;
        while i < self.alerts.len()
            invariant
                i <= self.alerts@.len(),
                s@ == alerts_text(self.alerts@.subrange(0, i as int)),
            decreases self.alerts@.len() - i,
        {
            let t = self.alerts[i].to_string();
            s.append(t.as_str());
            s.append("\n");
            proof {
                let next = self.alerts@.subrange(0, i + 1);
                assert(next.drop_last() =~= self.alerts@.subrange(0, i as int));
                assert(next.last() == self.alerts@[i as int]);
            }
            i = i + 1;
        }
        proof {
            assert(self.alerts@.subrange(0, i as int) =~= self.alerts@);
        }
        s
    }
}

impl Alert {
    pub fn new(
        headline: String,
        message_type: String,
        description: String,
        severity: String,
        urgency: String,
        areas: String,
        category: String,
        certainty: String,
        event: String,
        note: String,
        effective: String,
        expires: String,
        instruction: String,
    ) -> (r: Alert)
        ensures
            r == (Alert {
                headline, message_type, description, severity, urgency, areas, category,
                certainty, event, note, effective, expires, instruction,
            }),
    {
        Alert {
            headline,
            message_type,
            description,
            severity,
            urgency,
            areas,
            category,
            certainty,
            event,
            note,
            effective,
            expires,
            instruction,
        }
    }

    /// The alert's fields, one labelled line each.
    pub fn to_string(&self) -> (r: String)
        ensures
            r@ == alert_text(*self),
    {
        let mut s = String::new();
        s.append("Headline: ");
        s.append(self.headline.as_str());
        s.append("\nType: ");
        s.append(self.message_type.as_str());
        s.append("\nDescription: ");
        s.append(self.description.as_str());
        s.append("\nSeverity: ");
        s.append(self.severity.as_str());
        s.append("\nUrgency: ");
        s.append(self.urgency.as_str());
        s.append("\nAreas: ");
        s.append(self.areas.as_str());
        s.append("\nCategory: ");
        s.append(self.category.as_str());
        s.append("\nCertainty: ");
        s.append(self.certainty.as_str());
        s.append("\nEvent: ");
        s.append(self.event.as_str());
        s.append("\nNote: ");
        s.append(self.note.as_str());
        s.append("\nEffective: ");
        s.append(self.effective.as_str());
        s.append("\nExpires: ");
        s.append(self.expires.as_str());
        s.append("\nInstruction: ");
        s.append(self.instruction.as_str());
        s.append("\n");
        proof {
            assert(s@ =~= alert_text(*self));
        }
        s
    }
}

impl From<AlertResponse> for Alert {
    fn from(response: AlertResponse) -> (r: Alert) {
        Alert::new(
            response.headline,
            response.msgtype,
            response.desc,
            response.severity,
            response.urgency,
            response.areas,
            response.category,
            response.certainty,
            response.event,
            response.note,
            response.effective,
            response.expires,
            response.instruction,
        )
    }
}

impl vstd::std_specs::convert::FromSpecImpl<AlertResponse> for Alert {
    open spec fn obeys_from_spec() -> bool {
        true
    }

    open spec fn from_spec(v: AlertResponse) -> Alert {
        alert_of(v)
    }
}

/// The alert records a lookup yields from what its one request brought back.
pub open spec fn alerts_outcome(fetched: Fetched<AlertsResponse>) -> Result<Seq<Alert>, Error> {
    match fetched.spec_result() {
        Ok(a) => Ok(alerts_of(a.alert@)),
        Err(e) => Err(e),
    }
}

/// Finishes an alert lookup: the mapped alerts, or `Fetch` / `Response` for a
/// request that brought back no readable payload.
pub fn alerts_from_fetch(fetched: Fetched<AlertsResponse>) -> (r: Result<Alerts, Error>)
    ensures
        match (r, alerts_outcome(fetched)) {
            (Ok(a), Ok(s)) => a.alerts@ == s,
            (Err(e), Err(f)) => e == f,
            _ => false,
        },
{
    match fetched.into_result() {
        Ok(a) => Ok(Alerts::from_response(a)),
        Err(e) => Err(e),
    }
}

/// Mapping preserves the alert list: `n` upstream alerts give exactly `n`
/// records, the `i`-th record from the `i`-th alert; none give an empty list.
pub proof fn lemma_alerts_keep_length_and_order(rs: Seq<AlertResponse>)
    ensures
        alerts_of(rs).len() == rs.len(),
        forall|i: int| 0 <= i < rs.len() ==> #[trigger] alerts_of(rs)[i] == alert_of(rs[i]),
        rs.len() == 0 ==> alerts_of(rs) == Seq::<Alert>::empty(),
{
    if rs.len() == 0 {
        assert(alerts_of(rs) =~= Seq::<Alert>::empty());
    }
}

} // verus!
