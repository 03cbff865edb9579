//! Event payload types and their serialized forms.
//!
//! Every payload serializes to a JSON object. The serialized form is
//! specified as an ordered sequence of key/value entries: an optional field
//! left unset contributes no entry at all (never a `null`), and the
//! attachment list contributes no entry when it is empty (never `[]`).

use vstd::prelude::*;

use crate::context::{ctx_array_text, ctx_views, opt_view, push_ctx_array, Context, CtxView};
use crate::json::{
    entries_key_value, has_key, is_json_value, json_value_text, lemma_has_key_push,
    lemma_key_value_push, lemma_no_key3, obj_text, push_quoted, quoted,
};

verus! {

/// A value in a serialized event object.
pub enum JVal {
    /// A JSON string (quoted and escaped when rendered).
    Str(Seq<char>),
    /// Pre-encoded JSON text spliced in verbatim (the `details` payload).
    Raw(Seq<char>),
    /// The ordered attachment list.
    Ctxs(Seq<CtxView>),
}

/// Rendered text of one entry value.
pub open spec fn val_text(v: JVal) -> Seq<char> {
    match v {
        JVal::Str(s) => quoted(s),
        JVal::Raw(r) => r,
        JVal::Ctxs(cs) => ctx_array_text(cs),
    }
}

/// Rendered text of one object entry.
pub open spec fn entry_text(e: (Seq<char>, JVal)) -> Seq<char> {
    quoted(e.0) + seq![':'] + val_text(e.1)
}

/// Rendered entry list, comma separated.
pub open spec fn entries_text(es: Seq<(Seq<char>, JVal)>) -> Seq<char>
    decreases es.len(),
{
    if es.len() == 0 {
        Seq::empty()
    } else if es.len() == 1 {
        entry_text(es[0])
    } else {
        entries_text(es.drop_last()) + seq![','] + entry_text(es.last())
    }
}

/// Appending an entry to a non-empty rendered list appends a comma and the
/// entry's own text.
pub proof fn lemma_entries_push(es: Seq<(Seq<char>, JVal)>, e: (Seq<char>, JVal))
    requires
        es.len() > 0,
    ensures
        entries_text(es.push(e)) == entries_text(es) + seq![','] + entry_text(e),
{
    assert(es.push(e).drop_last() =~= es);
    assert(es.push(e).last() == e);
}

/// Rendered text of a three-entry list.
pub proof fn lemma_entries_three(e0: (Seq<char>, JVal), e1: (Seq<char>, JVal), e2: (Seq<char>, JVal))
    ensures
        entries_text(seq![e0, e1, e2]) == entry_text(e0) + seq![','] + entry_text(e1) + seq![',']
            + entry_text(e2),
{
    assert(seq![e0, e1, e2].drop_last() =~= seq![e0, e1]);
    assert(seq![e0, e1].drop_last() =~= seq![e0]);
    assert(entries_text(seq![e0]) == entry_text(e0));
    assert(entries_text(seq![e0, e1]) == entries_text(seq![e0]) + seq![','] + entry_text(e1));
    assert(entries_text(seq![e0, e1, e2]) == entries_text(seq![e0, e1]) + seq![','] + entry_text(
        e2,
    ));
}

/// Append one rendered entry whose value is a JSON string token.
fn push_str_entry(out: &mut String, key: &str, val: &str)
    ensures
        final(out)@ == old(out)@ + entry_text((key@, JVal::Str(val@))),
{
    push_quoted(out, key);
    out.push(':');
    push_quoted(out, val);
    proof {
        assert(out@ =~= old(out)@ + entry_text((key@, JVal::Str(val@))));
    }
}

/// One serialization step: a comma and one rendered entry extend the object
/// text built so far.
proof fn lemma_obj_step(prev: Seq<char>, inner: Seq<char>, piece: Seq<char>)
    requires
        prev == seq!['{'] + inner,
    ensures
        prev.push(',') + piece == seq!['{'] + (inner + seq![','] + piece),
{
    assert(prev.push(',') + piece =~= seq!['{'] + (inner + seq![','] + piece));
}

/// One serialization step whose value text is appended in two pieces: the
/// quoted key with its colon, then the value's own text.
proof fn lemma_obj_step_split(prev: Seq<char>, inner: Seq<char>, k: Seq<char>, v: Seq<char>)
    requires
        prev == seq!['{'] + inner,
    ensures
        (prev.push(',') + quoted(k)).push(':') + v == seq!['{'] + (inner + seq![','] + (quoted(k)
            + seq![':'] + v)),
{
    assert((prev.push(',') + quoted(k)).push(':') + v =~= seq!['{'] + (inner + seq![','] + (quoted(
        k,
    ) + seq![':'] + v)));
}

/// The opening brace and the first three rendered entries.
proof fn lemma_obj_base(t0: Seq<char>, t1: Seq<char>, t2: Seq<char>)
    ensures
        ((Seq::<char>::empty().push('{') + t0).push(',') + t1).push(',') + t2 == seq!['{'] + (t0
            + seq![','] + t1 + seq![','] + t2),
{
    assert(((Seq::<char>::empty().push('{') + t0).push(',') + t1).push(',') + t2 =~= seq!['{'] + (
    t0 + seq![','] + t1 + seq![','] + t2));
}

/// Closing the object: the brace completes `obj_text`.
proof fn lemma_obj_close(prev: Seq<char>, inner: Seq<char>)
    requires
        prev == seq!['{'] + inner,
    ensures
        prev.push('}') == obj_text(inner),
{
    assert(prev.push('}') =~= obj_text(inner));
}

/// Spec-level value of a trigger event.
pub struct TriggerEventView {
    pub service_key: Seq<char>,
    pub description: Seq<char>,
    pub incident_key: Option<Seq<char>>,
    pub client: Option<Seq<char>>,
    pub client_url: Option<Seq<char>>,
    pub details: Option<Seq<char>>,
    pub contexts: Seq<CtxView>,
}

/// Event to report a new or ongoing problem.
///
/// A trigger event either opens a new incident or appends a new trigger log
/// entry to an existing one, depending on the supplied incident key.
#[derive(Debug)]
pub struct TriggerEvent {
    service_key: String,
    description: String,
    incident_key: Option<String>,
    client: Option<String>,
    client_url: Option<String>,
    details: Option<String>,
    contexts: Vec<Context>,
}

impl View for TriggerEvent {
    type V = TriggerEventView;

    closed spec fn view(&self) -> TriggerEventView {
        TriggerEventView {
            service_key: self.service_key@,
            description: self.description@,
            incident_key: opt_view(self.incident_key),
            client: opt_view(self.client),
            client_url: opt_view(self.client_url),
            details: opt_view(self.details),
            contexts: ctx_views(self.contexts@),
        }
    }
}

/// The ordered key/value entries of a trigger event's serialized object.
///
/// The three required fields always come first; each optional field that was
/// set follows, and the attachment list comes last and only when non-empty.
pub open spec fn trigger_entries(t: TriggerEventView) -> Seq<(Seq<char>, JVal)> {
    let base = seq![
        ("service_key"@, JVal::Str(t.service_key)),
        ("event_type"@, JVal::Str("trigger"@)),
        ("description"@, JVal::Str(t.description)),
    ];
    let with_incident_key = if t.incident_key is Some {
        base.push(("incident_key"@, JVal::Str(t.incident_key->0)))
    } else {
        base
    };
    let with_client = if t.client is Some {
        with_incident_key.push(("client"@, JVal::Str(t.client->0)))
    } else {
        with_incident_key
    };
    let with_client_url = if t.client_url is Some {
        with_client.push(("client_url"@, JVal::Str(t.client_url->0)))
    } else {
        with_client
    };
    let with_details = if t.details is Some {
        with_client_url.push(("details"@, JVal::Raw(t.details->0)))
    } else {
        with_client_url
    };
    if t.contexts.len() > 0 {
        with_details.push(("contexts"@, JVal::Ctxs(t.contexts)))
    } else {
        with_details
    }
}

/// The serialized JSON text of a trigger event.
pub open spec fn trigger_body_text(t: TriggerEventView) -> Seq<char> {
    obj_text(entries_text(trigger_entries(t)))
}

impl TriggerEvent {
    /// Create a new trigger event payload with the required fields: the
    /// service key of the destination routing target, and a short
    /// description of the problem.
    pub fn new(service_key: &str, description: &str) -> (r: TriggerEvent)
        ensures
            r@ == (TriggerEventView {
                service_key: service_key@,
                description: description@,
                incident_key: None,
                client: None,
                client_url: None,
                details: None,
                contexts: Seq::empty(),
            }),
    {
        let r = TriggerEvent {
            service_key: service_key.to_owned(),
            description: description.to_owned(),
            incident_key: None,
            client: None,
            client_url: None,
            details: None,
            contexts: Vec::new(),
        };
        proof {
            assert(ctx_views(r.contexts@) =~= Seq::<CtxView>::empty());
        }
        r
    }

    /// Set the incident key that identifies the incident this trigger event
    /// applies to; it serves as a de-duplication key for problem reports.
    pub fn set_incident_key(self, incident_key: &str) -> (r: TriggerEvent)
        ensures
            r@ == (TriggerEventView { incident_key: Some(incident_key@), ..self@ }),
    {
        TriggerEvent { incident_key: Some(incident_key.to_owned()), ..self }
    }

    /// Set the name of the monitoring client that is triggering this event.
    pub fn set_client(self, client: &str) -> (r: TriggerEvent)
        ensures
            r@ == (TriggerEventView { client: Some(client@), ..self@ }),
    {
        TriggerEvent { client: Some(client.to_owned()), ..self }
    }

    /// Set the URL of the monitoring client that is triggering this event.
    pub fn set_client_url(self, client_url: &str) -> (r: TriggerEvent)
        ensures
            r@ == (TriggerEventView { client_url: Some(client_url@), ..self@ }),
    {
        TriggerEvent { client_url: Some(client_url.to_owned()), ..self }
    }

    /// Set the structured detail payload: JSON text to be included in the
    /// incident log. The text must encode one JSON value, as any
    /// serializer's output does; it is then spliced into the serialized body
    /// unmodified under the `details` key, so the body stays well-formed. No
    /// schema validation is performed beyond that: a semantically wrong
    /// value (such as a non-object) is rejected remotely, not here. Text
    /// that is not a JSON value at all yields `None`.
    pub fn set_details(self, details: &str) -> (r: Option<TriggerEvent>)
        ensures
            json_value_text(details@) ==> (r matches Some(e) && e@ == (TriggerEventView {
                details: Some(details@),
                ..self@
            })),
            !json_value_text(details@) ==> r is None,
    {
        if is_json_value(details) {
            Some(TriggerEvent { details: Some(details.to_owned()), ..self })
        } else {
            None
        }
    }

    /// Append an attachment to the ordered attachment list; the order is
    /// preserved in the serialized output.
    pub fn add_context(self, context: Context) -> (r: TriggerEvent)
        ensures
            r@ == (TriggerEventView { contexts: self@.contexts.push(context@), ..self@ }),
    {
        let ghost old_contexts = self.contexts@;
        let mut contexts = self.contexts;
        contexts.push(context);
        proof {
            assert(ctx_views(contexts@) =~= ctx_views(old_contexts).push(context@));
        }
        TriggerEvent { contexts, ..self }
    }

    /// Serialize this payload to its JSON object text.
    #[verifier::rlimit(100)]
    #[verifier::spinoff_prover]
    pub fn to_json(&self) -> (r: String)
        ensures
            r@ == trigger_body_text(self@),
    {
        let mut out = String::new();
        out.push('{');
        push_str_entry(&mut out, "service_key", self.service_key.as_str());
        out.push(',');
        push_str_entry(&mut out, "event_type", "trigger");
        out.push(',');
        push_str_entry(&mut out, "description", self.description.as_str());
        let ghost e0 = ("service_key"@, JVal::Str(self.service_key@));
        let ghost e1 = ("event_type"@, JVal::Str("trigger"@));
        let ghost e2 = ("description"@, JVal::Str(self.description@));
        let ghost mut es: Seq<(Seq<char>, JVal)> = seq![e0, e1, e2];
        proof {
            lemma_entries_three(e0, e1, e2);
            lemma_obj_base(entry_text(e0), entry_text(e1), entry_text(e2));
            assert(out@ == seq!['{'] + entries_text(es));
        }
        if let Some(k) = &self.incident_key {
            let ghost prev = out@;
            let ghost inner = entries_text(es);
            out.push(',');
            push_str_entry(&mut out, "incident_key", k.as_str());
            proof {
                let e = ("incident_key"@, JVal::Str(k@));
                lemma_entries_push(es, e);
                lemma_obj_step(prev, inner, entry_text(e));
                es = es.push(e);
                assert(out@ == seq!['{'] + entries_text(es));
            }
        }
        if let Some(c) = &self.client {
            let ghost prev = out@;
            let ghost inner = entries_text(es);
            out.push(',');
            push_str_entry(&mut out, "client", c.as_str());
            proof {
                let e = ("client"@, JVal::Str(c@));
                lemma_entries_push(es, e);
                lemma_obj_step(prev, inner, entry_text(e));
                es = es.push(e);
                assert(out@ == seq!['{'] + entries_text(es));
            }
        }
        if let Some(u) = &self.client_url {
            let ghost prev = out@;
            let ghost inner = entries_text(es);
            out.push(',');
            push_str_entry(&mut out, "client_url", u.as_str());
            proof {
                let e = ("client_url"@, JVal::Str(u@));
                lemma_entries_push(es, e);
                lemma_obj_step(prev, inner, entry_text(e));
                es = es.push(e);
                assert(out@ == seq!['{'] + entries_text(es));
            }
        }
        if let Some(d) = &self.details {
            let ghost prev = out@;
            let ghost inner = entries_text(es);
            out.push(',');
            push_quoted(&mut out, "details");
            out.push(':');
            out.append(d.as_str());
            proof {
                let e = ("details"@, JVal::Raw(d@));
                lemma_entries_push(es, e);
                lemma_obj_step_split(prev, inner, "details"@, d@);
                es = es.push(e);
                assert(out@ == seq!['{'] + entries_text(es));
            }
        }
        if self.contexts.len() > 0 {
            let ghost prev = out@;
            let ghost inner = entries_text(es);
            out.push(',');
            push_quoted(&mut out, "contexts");
            out.push(':');
            push_ctx_array(&mut out, &self.contexts);
            proof {
                let e = ("contexts"@, JVal::Ctxs(ctx_views(self.contexts@)));
                lemma_entries_push(es, e);
                lemma_obj_step_split(prev, inner, "contexts"@, ctx_array_text(ctx_views(
                    self.contexts@,
                )));
                es = es.push(e);
                assert(out@ == seq!['{'] + entries_text(es));
            }
        }
        let ghost prev = out@;
        out.push('}');
        proof {
            assert(es == trigger_entries(self@));
            lemma_obj_close(prev, entries_text(es));
            assert(out@ == trigger_body_text(self@));
        }
        out
    }
}

/// The discriminator of an event that refers to an already-open incident.
#[derive(Clone, Copy, Debug, PartialEq, Eq, Structural)]
pub enum UpdateKind {
    Resolve,
    Acknowledge,
}

/// The discriminator string an update event serializes under `event_type`.
pub open spec fn kind_text(k: UpdateKind) -> Seq<char> {
    match k {
        UpdateKind::Resolve => "resolve"@,
        UpdateKind::Acknowledge => "acknowledge"@,
    }
}

/// Spec-level value of an update event.
pub struct UpdateEventView {
    pub kind: UpdateKind,
    pub service_key: Seq<char>,
    pub incident_key: Seq<char>,
    pub description: Option<Seq<char>>,
    pub details: Option<Seq<char>>,
}

/// Event that moves an already-open incident to the resolved or acknowledged
/// state.
///
/// The two shapes are structurally identical and differ only in their
/// discriminator, so one type carries the discriminator as data.
#[derive(Debug)]
pub struct UpdateEvent {
    kind: UpdateKind,
    service_key: String,
    incident_key: String,
    description: Option<String>,
    details: Option<String>,
}

impl View for UpdateEvent {
    type V = UpdateEventView;

    closed spec fn view(&self) -> UpdateEventView {
        UpdateEventView {
            kind: self.kind,
            service_key: self.service_key@,
            incident_key: self.incident_key@,
            description: opt_view(self.description),
            details: opt_view(self.details),
        }
    }
}

/// The ordered key/value entries of an update event's serialized object.
pub open spec fn update_entries(u: UpdateEventView) -> Seq<(Seq<char>, JVal)> {
    let base = seq![
        ("service_key"@, JVal::Str(u.service_key)),
        ("event_type"@, JVal::Str(kind_text(u.kind))),
        ("incident_key"@, JVal::Str(u.incident_key)),
    ];
    let with_description = if u.description is Some {
        base.push(("description"@, JVal::Str(u.description->0)))
    } else {
        base
    };
    if u.details is Some {
        with_description.push(("details"@, JVal::Raw(u.details->0)))
    } else {
        with_description
    }
}

/// The serialized JSON text of an update event.
pub open spec fn update_body_text(u: UpdateEventView) -> Seq<char> {
    obj_text(entries_text(update_entries(u)))
}

impl UpdateEvent {
    /// Create an event that resolves the incident with the given incident
    /// key on the service with the given service key.
    pub fn resolve(service_key: &str, incident_key: &str) -> (r: UpdateEvent)
        ensures
            r@ == (UpdateEventView {
                kind: UpdateKind::Resolve,
                service_key: service_key@,
                incident_key: incident_key@,
                description: None,
                details: None,
            }),
    {
        UpdateEvent {
            kind: UpdateKind::Resolve,
            service_key: service_key.to_owned(),
            incident_key: incident_key.to_owned(),
            description: None,
            details: None,
        }
    }

    /// Create an event that acknowledges the incident with the given
    /// incident key on the service with the given service key.
    pub fn acknowledge(service_key: &str, incident_key: &str) -> (r: UpdateEvent)
        ensures
            r@ == (UpdateEventView {
                kind: UpdateKind::Acknowledge,
                service_key: service_key@,
                incident_key: incident_key@,
                description: None,
                details: None,
            }),
    {
        UpdateEvent {
            kind: UpdateKind::Acknowledge,
            service_key: service_key.to_owned(),
            incident_key: incident_key.to_owned(),
            description: None,
            details: None,
        }
    }

    /// Set the text that will appear in the incident's log for this event.
    pub fn set_description(self, description: &str) -> (r: UpdateEvent)
        ensures
            r@ == (UpdateEventView { description: Some(description@), ..self@ }),
    {
        UpdateEvent { description: Some(description.to_owned()), ..self }
    }

    /// Set the structured detail payload: JSON text spliced into the
    /// serialized body unmodified under the `details` key. The text must
    /// encode one JSON value, as any serializer's output does, so the body
    /// stays well-formed; text that is not a JSON value yields `None`.
    pub fn set_details(self, details: &str) -> (r: Option<UpdateEvent>)
        ensures
            json_value_text(details@) ==> (r matches Some(e) && e@ == (UpdateEventView {
                details: Some(details@),
                ..self@
            })),
            !json_value_text(details@) ==> r is None,
    {
        if is_json_value(details) {
            Some(UpdateEvent { details: Some(details.to_owned()), ..self })
        } else {
            None
        }
    }

    /// Serialize this payload to its JSON object text.
    #[verifier::rlimit(50)]
    pub fn to_json(&self) -> (r: String)
        ensures
            r@ == update_body_text(self@),
    {
        let event_type: &str = match self.kind {
            UpdateKind::Resolve => "resolve",
            UpdateKind::Acknowledge => "acknowledge",
        };
        proof {
            assert(event_type@ == kind_text(self.kind));
        }
        let mut out = String::new();
        out.push('{');
        push_str_entry(&mut out, "service_key", self.service_key.as_str());
        out.push(',');
        push_str_entry(&mut out, "event_type", event_type);
        out.push(',');
        push_str_entry(&mut out, "incident_key", self.incident_key.as_str());
        let ghost e0 = ("service_key"@, JVal::Str(self.service_key@));
        let ghost e1 = ("event_type"@, JVal::Str(kind_text(self.kind)));
        let ghost e2 = ("incident_key"@, JVal::Str(self.incident_key@));
        let ghost mut es: Seq<(Seq<char>, JVal)> = seq![e0, e1, e2];
        proof {
            lemma_entries_three(e0, e1, e2);
            lemma_obj_base(entry_text(e0), entry_text(e1), entry_text(e2));
            assert(out@ == seq!['{'] + entries_text(es));
        }
        if let Some(d) = &self.description {
            let ghost prev = out@;
            let ghost inner = entries_text(es);
            out.push(',');
            push_str_entry(&mut out, "description", d.as_str());
            proof {
                let e = ("description"@, JVal::Str(d@));
                lemma_entries_push(es, e);
                lemma_obj_step(prev, inner, entry_text(e));
                es = es.push(e);
                assert(out@ == seq!['{'] + entries_text(es));
            }
        }
        if let Some(d) = &self.details {
            let ghost prev = out@;
            let ghost inner = entries_text(es);
            out.push(',');
            push_quoted(&mut out, "details");
            out.push(':');
            out.append(d.as_str());
            proof {
                let e = ("details"@, JVal::Raw(d@));
                lemma_entries_push(es, e);
                lemma_obj_step_split(prev, inner, "details"@, d@);
                es = es.push(e);
                assert(out@ == seq!['{'] + entries_text(es));
            }
        }
        let ghost prev = out@;
        out.push('}');
        proof {
            assert(es == update_entries(self@));
            lemma_obj_close(prev, entries_text(es));
            assert(out@ == update_body_text(self@));
        }
        out
    }
}

/// The object keys an event can serialize are pairwise distinct.
proof fn lemma_event_keys_distinct()
    ensures
        "service_key"@ != "event_type"@,
        "service_key"@ != "description"@,
        "service_key"@ != "incident_key"@,
        "service_key"@ != "client"@,
        "service_key"@ != "client_url"@,
        "service_key"@ != "details"@,
        "service_key"@ != "contexts"@,
        "event_type"@ != "description"@,
        "event_type"@ != "incident_key"@,
        "event_type"@ != "client"@,
        "event_type"@ != "client_url"@,
        "event_type"@ != "details"@,
        "event_type"@ != "contexts"@,
        "description"@ != "incident_key"@,
        "description"@ != "client"@,
        "description"@ != "client_url"@,
        "description"@ != "details"@,
        "description"@ != "contexts"@,
        "incident_key"@ != "client"@,
        "incident_key"@ != "client_url"@,
        "incident_key"@ != "details"@,
        "incident_key"@ != "contexts"@,
        "client"@ != "client_url"@,
        "client"@ != "details"@,
        "client"@ != "contexts"@,
        "client_url"@ != "details"@,
        "client_url"@ != "contexts"@,
        "details"@ != "contexts"@,
{
    reveal_strlit("service_key");
    reveal_strlit("event_type");
    reveal_strlit("description");
    reveal_strlit("incident_key");
    reveal_strlit("client");
    reveal_strlit("client_url");
    reveal_strlit("details");
    reveal_strlit("contexts");
    assert("service_key"@ != "event_type"@) by {
        assert("service_key"@.len() != "event_type"@.len());
    }
    assert("service_key"@ != "description"@) by {
        assert("service_key"@[0] != "description"@[0]);
    }
    assert("service_key"@ != "incident_key"@) by {
        assert("service_key"@.len() != "incident_key"@.len());
    }
    assert("service_key"@ != "client"@) by {
        assert("service_key"@.len() != "client"@.len());
    }
    assert("service_key"@ != "client_url"@) by {
        assert("service_key"@.len() != "client_url"@.len());
    }
    assert("service_key"@ != "details"@) by {
        assert("service_key"@.len() != "details"@.len());
    }
    assert("service_key"@ != "contexts"@) by {
        assert("service_key"@.len() != "contexts"@.len());
    }
    assert("event_type"@ != "description"@) by {
        assert("event_type"@.len() != "description"@.len());
    }
    assert("event_type"@ != "incident_key"@) by {
        assert("event_type"@.len() != "incident_key"@.len());
    }
    assert("event_type"@ != "client"@) by {
        assert("event_type"@.len() != "client"@.len());
    }
    assert("event_type"@ != "client_url"@) by {
        assert("event_type"@[0] != "client_url"@[0]);
    }
    assert("event_type"@ != "details"@) by {
        assert("event_type"@.len() != "details"@.len());
    }
    assert("event_type"@ != "contexts"@) by {
        assert("event_type"@.len() != "contexts"@.len());
    }
    assert("description"@ != "incident_key"@) by {
        assert("description"@.len() != "incident_key"@.len());
    }
    assert("description"@ != "client"@) by {
        assert("description"@.len() != "client"@.len());
    }
    assert("description"@ != "client_url"@) by {
        assert("description"@.len() != "client_url"@.len());
    }
    assert("description"@ != "details"@) by {
        assert("description"@.len() != "details"@.len());
    }
    assert("description"@ != "contexts"@) by {
        assert("description"@.len() != "contexts"@.len());
    }
    assert("incident_key"@ != "client"@) by {
        assert("incident_key"@.len() != "client"@.len());
    }
    assert("incident_key"@ != "client_url"@) by {
        assert("incident_key"@.len() != "client_url"@.len());
    }
    assert("incident_key"@ != "details"@) by {
        assert("incident_key"@.len() != "details"@.len());
    }
    assert("incident_key"@ != "contexts"@) by {
        assert("incident_key"@.len() != "contexts"@.len());
    }
    assert("client"@ != "client_url"@) by {
        assert("client"@.len() != "client_url"@.len());
    }
    assert("client"@ != "details"@) by {
        assert("client"@.len() != "details"@.len());
    }
    assert("client"@ != "contexts"@) by {
        assert("client"@.len() != "contexts"@.len());
    }
    assert("client_url"@ != "details"@) by {
        assert("client_url"@.len() != "details"@.len());
    }
    assert("client_url"@ != "contexts"@) by {
        assert("client_url"@.len() != "contexts"@.len());
    }
    assert("details"@ != "contexts"@) by {
        assert("details"@.len() != "contexts"@.len());
    }
}

/// How one appended entry changes key presence, stated for every key that an
/// event object can carry.
proof fn lemma_push_event_keys(es: Seq<(Seq<char>, JVal)>, e: (Seq<char>, JVal))
    ensures
        has_key(es.push(e), "service_key"@) <==> (has_key(es, "service_key"@) || e.0
            == "service_key"@),
        has_key(es.push(e), "event_type"@) <==> (has_key(es, "event_type"@) || e.0
            == "event_type"@),
        has_key(es.push(e), "description"@) <==> (has_key(es, "description"@) || e.0
            == "description"@),
        has_key(es.push(e), "incident_key"@) <==> (has_key(es, "incident_key"@) || e.0
            == "incident_key"@),
        has_key(es.push(e), "client"@) <==> (has_key(es, "client"@) || e.0 == "client"@),
        has_key(es.push(e), "client_url"@) <==> (has_key(es, "client_url"@) || e.0
            == "client_url"@),
        has_key(es.push(e), "details"@) <==> (has_key(es, "details"@) || e.0 == "details"@),
        has_key(es.push(e), "contexts"@) <==> (has_key(es, "contexts"@) || e.0 == "contexts"@),
{
    lemma_has_key_push(es, e, "service_key"@);
    lemma_has_key_push(es, e, "event_type"@);
    lemma_has_key_push(es, e, "description"@);
    lemma_has_key_push(es, e, "incident_key"@);
    lemma_has_key_push(es, e, "client"@);
    lemma_has_key_push(es, e, "client_url"@);
    lemma_has_key_push(es, e, "details"@);
    lemma_has_key_push(es, e, "contexts"@);
}

/// In a serialized trigger event the three required fields are always
/// present; each optional field's key appears exactly when that field was
/// set, and the attachment list's key exactly when the list is non-empty.
pub proof fn lemma_trigger_keys(t: TriggerEventView)
    ensures
        has_key(trigger_entries(t), "service_key"@),
        has_key(trigger_entries(t), "event_type"@),
        has_key(trigger_entries(t), "description"@),
        has_key(trigger_entries(t), "incident_key"@) <==> t.incident_key is Some,
        has_key(trigger_entries(t), "client"@) <==> t.client is Some,
        has_key(trigger_entries(t), "client_url"@) <==> t.client_url is Some,
        has_key(trigger_entries(t), "details"@) <==> t.details is Some,
        has_key(trigger_entries(t), "contexts"@) <==> t.contexts.len() > 0,
{
    lemma_event_keys_distinct();
    let base = seq![
        ("service_key"@, JVal::Str(t.service_key)),
        ("event_type"@, JVal::Str("trigger"@)),
        ("description"@, JVal::Str(t.description)),
    ];
    assert(base[0].0 == "service_key"@);
    assert(base[1].0 == "event_type"@);
    assert(base[2].0 == "description"@);
    assert(has_key(base, "service_key"@));
    assert(has_key(base, "event_type"@));
    assert(has_key(base, "description"@));
    lemma_no_key3(base, "incident_key"@);
    lemma_no_key3(base, "client"@);
    lemma_no_key3(base, "client_url"@);
    lemma_no_key3(base, "details"@);
    lemma_no_key3(base, "contexts"@);
    let e_ik = ("incident_key"@, JVal::Str(t.incident_key->0));
    if t.incident_key is Some {
        lemma_push_event_keys(base, e_ik);
    }
    let s1 = if t.incident_key is Some {
        base.push(e_ik)
    } else {
        base
    };
    let e_cl = ("client"@, JVal::Str(t.client->0));
    if t.client is Some {
        lemma_push_event_keys(s1, e_cl);
    }
    let s2 = if t.client is Some {
        s1.push(e_cl)
    } else {
        s1
    };
    let e_cu = ("client_url"@, JVal::Str(t.client_url->0));
    if t.client_url is Some {
        lemma_push_event_keys(s2, e_cu);
    }
    let s3 = if t.client_url is Some {
        s2.push(e_cu)
    } else {
        s2
    };
    let e_de = ("details"@, JVal::Raw(t.details->0));
    if t.details is Some {
        lemma_push_event_keys(s3, e_de);
    }
    let s4 = if t.details is Some {
        s3.push(e_de)
    } else {
        s3
    };
    let e_cx = ("contexts"@, JVal::Ctxs(t.contexts));
    if t.contexts.len() > 0 {
        lemma_push_event_keys(s4, e_cx);
    }
    let s5 = if t.contexts.len() > 0 {
        s4.push(e_cx)
    } else {
        s4
    };
    assert(s5 == trigger_entries(t));
}

/// In a serialized update event the three required fields are always
/// present, and each optional field's key appears exactly when that field
/// was set.
pub proof fn lemma_update_keys(u: UpdateEventView)
    ensures
        has_key(update_entries(u), "service_key"@),
        has_key(update_entries(u), "event_type"@),
        has_key(update_entries(u), "incident_key"@),
        has_key(update_entries(u), "description"@) <==> u.description is Some,
        has_key(update_entries(u), "details"@) <==> u.details is Some,
{
    lemma_event_keys_distinct();
    let base = seq![
        ("service_key"@, JVal::Str(u.service_key)),
        ("event_type"@, JVal::Str(kind_text(u.kind))),
        ("incident_key"@, JVal::Str(u.incident_key)),
    ];
    assert(base[0].0 == "service_key"@);
    assert(base[1].0 == "event_type"@);
    assert(base[2].0 == "incident_key"@);
    assert(has_key(base, "service_key"@));
    assert(has_key(base, "event_type"@));
    assert(has_key(base, "incident_key"@));
    lemma_no_key3(base, "description"@);
    lemma_no_key3(base, "details"@);
    let e_ds = ("description"@, JVal::Str(u.description->0));
    if u.description is Some {
        lemma_push_event_keys(base, e_ds);
    }
    let s1 = if u.description is Some {
        base.push(e_ds)
    } else {
        base
    };
    let e_de = ("details"@, JVal::Raw(u.details->0));
    if u.details is Some {
        lemma_push_event_keys(s1, e_de);
    }
    let s2 = if u.details is Some {
        s1.push(e_de)
    } else {
        s1
    };
    assert(s2 == update_entries(u));
}

/// Every `contexts` entry of a serialized trigger event carries the whole
/// attachment list in construction order, and every `details` entry carries
/// the detail text unmodified.
pub proof fn lemma_trigger_entry_values(t: TriggerEventView)
    ensures
        entries_key_value(trigger_entries(t), "contexts"@, JVal::Ctxs(t.contexts)),
        t.details is Some ==> entries_key_value(
            trigger_entries(t),
            "details"@,
            JVal::Raw(t.details->0),
        ),
{
    lemma_event_keys_distinct();
    let base = seq![
        ("service_key"@, JVal::Str(t.service_key)),
        ("event_type"@, JVal::Str("trigger"@)),
        ("description"@, JVal::Str(t.description)),
    ];
    let s1 = if t.incident_key is Some {
        base.push(("incident_key"@, JVal::Str(t.incident_key->0)))
    } else {
        base
    };
    let s2 = if t.client is Some {
        s1.push(("client"@, JVal::Str(t.client->0)))
    } else {
        s1
    };
    let s3 = if t.client_url is Some {
        s2.push(("client_url"@, JVal::Str(t.client_url->0)))
    } else {
        s2
    };
    let s4 = if t.details is Some {
        s3.push(("details"@, JVal::Raw(t.details->0)))
    } else {
        s3
    };
    let s5 = if t.contexts.len() > 0 {
        s4.push(("contexts"@, JVal::Ctxs(t.contexts)))
    } else {
        s4
    };
    assert(s5 == trigger_entries(t));
    let cx_val = JVal::Ctxs(t.contexts);
    let de_val = JVal::Raw(t.details->0);
    assert(entries_key_value(base, "contexts"@, cx_val) && entries_key_value(
        base,
        "details"@,
        de_val,
    )) by {
        assert(base[0].0 == "service_key"@);
        assert(base[1].0 == "event_type"@);
        assert(base[2].0 == "description"@);
    }
    if t.incident_key is Some {
        lemma_key_value_push(base, ("incident_key"@, JVal::Str(t.incident_key->0)), "contexts"@, cx_val);
        lemma_key_value_push(base, ("incident_key"@, JVal::Str(t.incident_key->0)), "details"@, de_val);
    }
    if t.client is Some {
        lemma_key_value_push(s1, ("client"@, JVal::Str(t.client->0)), "contexts"@, cx_val);
        lemma_key_value_push(s1, ("client"@, JVal::Str(t.client->0)), "details"@, de_val);
    }
    if t.client_url is Some {
        lemma_key_value_push(s2, ("client_url"@, JVal::Str(t.client_url->0)), "contexts"@, cx_val);
        lemma_key_value_push(s2, ("client_url"@, JVal::Str(t.client_url->0)), "details"@, de_val);
    }
    if t.details is Some {
        lemma_key_value_push(s3, ("details"@, de_val), "contexts"@, cx_val);
        lemma_key_value_push(s3, ("details"@, de_val), "details"@, de_val);
    }
    if t.contexts.len() > 0 {
        lemma_key_value_push(s4, ("contexts"@, cx_val), "contexts"@, cx_val);
        lemma_key_value_push(s4, ("contexts"@, cx_val), "details"@, de_val);
    }
}

} // verus!
