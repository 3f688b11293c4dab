use vstd::prelude::*;

verus! {

broadcast use vstd::string::group_string_axioms;

/// Identifier of the template for internal meetings.
pub const INTERNES_MEETING_ID: &'static str = "internes_meeting";

/// Identifier of the template for customer meetings.
pub const KUNDENMEETING_ID: &'static str = "kundenmeeting";

/// Definition of the template for internal meetings, as JSON.
pub const INTERNES_MEETING: &'static str = r#"{
  "name": "Internes Meeting",
  "description": "Protokoll für interne Team-Meetings mit Themen, Entscheidungen und Aufgaben",
  "sections": [
    {
      "title": "Kurz-Zusammenfassung",
      "instruction": "Fasse die Kernthemen und wichtigsten Ergebnisse in höchstens zwei Sätzen zusammen",
      "format": "paragraph"
    },
    {
      "title": "Besprochene Themen",
      "instruction": "Liste die besprochenen Themen mit den wesentlichen Punkten auf",
      "format": "list"
    },
    {
      "title": "Entscheidungen",
      "instruction": "Liste die getroffenen Entscheidungen auf",
      "format": "list"
    },
    {
      "title": "Aufgaben",
      "instruction": "Liste alle vereinbarten Aufgaben mit verantwortlicher Person und Termin auf",
      "format": "list",
      "item_format": "Name: Aufgabe (Termin)"
    }
  ]
}"#;

/// Definition of the template for customer meetings, as JSON.
pub const KUNDENMEETING: &'static str = r#"{
  "name": "Kundenmeeting",
  "description": "Protokoll für Meetings mit Kunden mit Anliegen, Vereinbarungen und Aufgaben",
  "sections": [
    {
      "title": "Titel des Meetings",
      "instruction": "Gib den im Transkript explizit genannten Titel oder Betreff des Meetings an",
      "format": "string"
    },
    {
      "title": "Kurz-Zusammenfassung",
      "instruction": "Fasse das Meeting in höchstens zwei Sätzen zusammen",
      "format": "paragraph"
    },
    {
      "title": "Anliegen des Kunden",
      "instruction": "Liste die Anliegen, Fragen und Anforderungen des Kunden auf",
      "format": "list"
    },
    {
      "title": "Vereinbarungen",
      "instruction": "Liste die mit dem Kunden getroffenen Vereinbarungen auf",
      "format": "list"
    },
    {
      "title": "Aufgaben",
      "instruction": "Liste alle vereinbarten Aufgaben mit verantwortlicher Person und Termin auf",
      "format": "list",
      "example_item_format": "Name: Aufgabe (Termin)"
    }
  ]
}"#;

/// The definition registered under `id` among the built-in templates, if any.
pub open spec fn builtin_definition(id: Seq<char>) -> Option<Seq<char>> {
    if id == INTERNES_MEETING_ID@ {
        Some(INTERNES_MEETING@)
    } else if id == KUNDENMEETING_ID@ {
        Some(KUNDENMEETING@)
    } else {
        None
    }
}

/// The built-in templates: each identifier with its JSON definition.
pub fn get_builtin_templates() -> (r: Vec<(&'static str, &'static str)>)
    ensures
        r@.len() == 2,
        r@[0].0@ == INTERNES_MEETING_ID@ && r@[0].1@ == INTERNES_MEETING@,
        r@[1].0@ == KUNDENMEETING_ID@ && r@[1].1@ == KUNDENMEETING@,
{
    let mut r: Vec<(&'static str, &'static str)> = Vec::new();
    r.push((INTERNES_MEETING_ID, INTERNES_MEETING));
    r.push((KUNDENMEETING_ID, KUNDENMEETING));
    r
}

/// The JSON definition of the built-in template `id`, or `None` for an unknown identifier.
pub fn get_builtin_template(id: &str) -> (r: Option<&'static str>)
    ensures
        r is Some <==> builtin_definition(id@) is Some,
        r matches Some(c) ==> builtin_definition(id@) == Some(c@),
{
    let key = String::from_str(id);
    if key == String::from_str(INTERNES_MEETING_ID) {
        Some(INTERNES_MEETING)
    } else if key == String::from_str(KUNDENMEETING_ID) {
        Some(KUNDENMEETING)
    } else {
        None
    }
}

/// The identifiers of the built-in templates.
pub fn list_builtin_template_ids() -> (r: Vec<&'static str>)
    ensures
        r@.len() == 2,
        r@[0]@ == INTERNES_MEETING_ID@,
        r@[1]@ == KUNDENMEETING_ID@,
{
    let mut r: Vec<&'static str> = Vec::new();
    r.push(INTERNES_MEETING_ID);
    r.push(KUNDENMEETING_ID);
    r
}

} // verus!
