use protocolito::defaults::{get_builtin_template, get_builtin_templates, list_builtin_template_ids};
use protocolito::template::{Template, TemplateSection};

fn section(title: &str, instruction: &str, format: &str) -> TemplateSection {
    TemplateSection {
        title: title.to_string(),
        instruction: instruction.to_string(),
        format: format.to_string(),
        item_format: None,
        example_item_format: None,
    }
}

fn template_from_json(content: &str) -> Template {
    let v: serde_json::Value = serde_json::from_str(content).unwrap();
    let text = |x: &serde_json::Value| x.as_str().map(|s| s.to_string());
    let sections = v["sections"]
        .as_array()
        .unwrap()
        .iter()
        .map(|s| TemplateSection {
            title: text(&s["title"]).unwrap(),
            instruction: text(&s["instruction"]).unwrap(),
            format: text(&s["format"]).unwrap(),
            item_format: text(&s["item_format"]),
            example_item_format: text(&s["example_item_format"]),
        })
        .collect();
    Template {
        name: text(&v["name"]).unwrap(),
        description: text(&v["description"]).unwrap(),
        sections,
    }
}

#[test]
fn test_builtin_templates_valid_json() {
    for (id, content) in get_builtin_templates() {
        let result = serde_json::from_str::<serde_json::Value>(content);
        assert!(
            result.is_ok(),
            "Built-in template '{}' contains invalid JSON: {:?}",
            id,
            result.err()
        );
    }
}

#[test]
fn test_get_builtin_template() {
    assert!(get_builtin_template("internes_meeting").is_some());
    assert!(get_builtin_template("kundenmeeting").is_some());
    assert!(get_builtin_template("nonexistent").is_none());
}

#[test]
fn test_validate_valid_template() {
    let template = Template {
        name: "Test Template".to_string(),
        description: "A test template".to_string(),
        sections: vec![TemplateSection {
            title: "Summary".to_string(),
            instruction: "Provide a summary".to_string(),
            format: "paragraph".to_string(),
            item_format: None,
            example_item_format: None,
        }],
    };

    assert!(template.validate().is_ok());
}

#[test]
fn test_validate_empty_name() {
    let template = Template {
        name: "".to_string(),
        description: "A test template".to_string(),
        sections: vec![],
    };

    assert!(template.validate().is_err());
}

#[test]
fn test_validate_invalid_format() {
    let template = Template {
        name: "Test".to_string(),
        description: "Test".to_string(),
        sections: vec![TemplateSection {
            title: "Test".to_string(),
            instruction: "Test".to_string(),
            format: "invalid".to_string(),
            item_format: None,
            example_item_format: None,
        }],
    };

    assert!(template.validate().is_err());
}

#[test]
fn builtin_templates_are_valid() {
    assert_eq!(list_builtin_template_ids(), vec!["internes_meeting", "kundenmeeting"]);
    for (id, content) in get_builtin_templates() {
        assert_eq!(get_builtin_template(id), Some(content));
        assert_eq!(template_from_json(content).validate(), Ok(()));
    }
}

#[test]
fn validate_messages_name_each_defect() {
    let mut t = Template {
        name: "".to_string(),
        description: "".to_string(),
        sections: vec![],
    };
    assert_eq!(t.validate(), Err("Vorlagenname darf nicht leer sein".to_string()));
    t.name = "N".to_string();
    assert_eq!(t.validate(), Err("Vorlagenbeschreibung darf nicht leer sein".to_string()));
    t.description = "D".to_string();
    assert_eq!(
        t.validate(),
        Err("Vorlage muss mindestens einen Abschnitt enthalten".to_string())
    );
    let mut secs: Vec<TemplateSection> = (0..12).map(|_| section("A", "B", "list")).collect();
    secs.push(section("", "B", "list"));
    t.sections = secs;
    assert_eq!(t.validate(), Err("Abschnitt 12 hat keinen Titel".to_string()));
    t.sections = vec![section("Ziele", "", "list")];
    assert_eq!(t.validate(), Err("Abschnitt 'Ziele' hat keine Anweisung".to_string()));
    t.sections = vec![section("Ziele", "Nenne sie", "list"), section("Tabelle", "x", "table")];
    assert_eq!(
        t.validate(),
        Err("Abschnitt 'Tabelle' hat ein ungültiges Format 'table'. Erlaubt sind 'paragraph', 'list' oder 'string'".to_string())
    );
}

#[test]
fn validate_accepts_the_three_formats_only() {
    for (format, ok) in [("paragraph", true), ("list", true), ("string", true), ("table", false), ("", false), ("List", false)] {
        let t = Template {
            name: "N".to_string(),
            description: "D".to_string(),
            sections: vec![section("S", "I", format)],
        };
        assert_eq!(t.validate().is_ok(), ok, "format {:?}", format);
    }
}

#[test]
fn validate_rejects_empty_sections() {
    let t = Template {
        name: "N".to_string(),
        description: "D".to_string(),
        sections: vec![],
    };
    assert!(t.validate().is_err());
}

#[test]
fn markdown_structure_lists_titles_in_order() {
    let t = Template {
        name: "N".to_string(),
        description: "D".to_string(),
        sections: vec![section("Eins", "a", "list"), section("Zwei", "b", "paragraph")],
    };
    assert_eq!(
        t.to_markdown_structure(),
        "# <Titel hier einfügen>\n\n**Eins**\n\n**Zwei**\n\n"
    );
    let empty = Template {
        name: "N".to_string(),
        description: "D".to_string(),
        sections: vec![],
    };
    assert_eq!(empty.to_markdown_structure(), "# <Titel hier einfügen>\n\n");
}

#[test]
fn section_instructions_use_item_format_then_example() {
    let mut a = section("Aufgaben", "Liste die Aufgaben", "list");
    a.item_format = Some("Name: Aufgabe".to_string());
    a.example_item_format = Some("ignoriert".to_string());
    let mut b = section("Punkte", "Nenne Punkte", "list");
    b.example_item_format = Some("- Punkt".to_string());
    let c = section("Fazit", "Schreibe ein Fazit", "paragraph");
    let t = Template {
        name: "N".to_string(),
        description: "D".to_string(),
        sections: vec![a, b, c],
    };
    let expected = [
        "- **Für den Haupttitel (`# [KI-generierter Titel]`):** Analysiere das gesamte Transkript und erstelle einen kurzen, aussagekräftigen Titel für das Meeting.\n",
        "- **Für den Abschnitt 'Aufgaben'**: Liste die Aufgaben.\n",
        "  - Elemente in diesem Abschnitt sollen folgendem Format folgen: `Name: Aufgabe`.\n",
        "- **Für den Abschnitt 'Punkte'**: Nenne Punkte.\n",
        "  - Elemente in diesem Abschnitt sollen folgendem Format folgen: `- Punkt`.\n",
        "- **Für den Abschnitt 'Fazit'**: Schreibe ein Fazit.\n",
    ]
    .concat();
    assert_eq!(t.to_section_instructions(), expected);
}
