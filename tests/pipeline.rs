use protocolito::chunker::chunk_text;
use protocolito::pipeline::{Action, LlmProvider, Stage, SummaryRun};
use protocolito::prompts::{
    chunk_user, combine_user, final_system_prompt, final_user_prompt, CHUNK_SYSTEM,
    COMBINE_SYSTEM, CUSTOMER_POLICY, GENERIC_POLICY, INTERNAL_POLICY,
};
use protocolito::template::{Template, TemplateSection};

fn report_template() -> Template {
    Template {
        name: "Internes Meeting".to_string(),
        description: "Protokoll".to_string(),
        sections: vec![TemplateSection {
            title: "Kurz-Zusammenfassung".to_string(),
            instruction: "Fasse zusammen".to_string(),
            format: "paragraph".to_string(),
            item_format: None,
            example_item_format: None,
        }],
    }
}

struct Outcome {
    result: Result<(String, usize), String>,
    calls: Vec<(String, String)>,
    lookups: usize,
}

/// Runs the state machine, answering each model call with `model` and each template
/// lookup with `lookup`.
fn drive(
    provider: LlmProvider,
    transcript: &str,
    context: &str,
    template_id: &str,
    threshold: usize,
    mut model: impl FnMut(usize, &str, &str) -> Result<String, String>,
    lookup: impl Fn(&str) -> Result<Template, String>,
) -> Outcome {
    let (mut run, mut action) = SummaryRun::start(provider, transcript, context, template_id, threshold);
    let mut calls = Vec::new();
    let mut lookups = 0;
    loop {
        action = match action {
            Action::CallModel { system, user } => {
                let reply = model(calls.len(), &system, &user);
                calls.push((system, user));
                run.on_model_reply(reply)
            }
            Action::LoadTemplate { id } => {
                lookups += 1;
                run.on_template(lookup(&id))
            }
            Action::Finish { markdown, chunk_count } => {
                return Outcome { result: Ok((markdown, chunk_count)), calls, lookups };
            }
            Action::Abort { message } => {
                return Outcome { result: Err(message), calls, lookups };
            }
        };
    }
}

fn known(id: &str) -> Result<Template, String> {
    if id == "internes_meeting" || id == "kundenmeeting" {
        Ok(report_template())
    } else {
        Err("unbekannte Vorlage".to_string())
    }
}

#[test]
fn cloud_run_makes_a_single_call() {
    let transcript = "wort ".repeat(50_000);
    let out = drive(
        LlmProvider::Cloud,
        &transcript,
        "",
        "internes_meeting",
        4000,
        |_, _, _| Ok("```markdown\n# Bericht\n```".to_string()),
        known,
    );
    assert_eq!(out.result, Ok(("# Bericht".to_string(), 1)));
    assert_eq!(out.calls.len(), 1);
    assert_eq!(out.calls[0].0, final_system_prompt("internes_meeting", &report_template()));
    assert_eq!(out.calls[0].1, final_user_prompt(&transcript, ""));
}

#[test]
fn short_local_run_is_single_pass() {
    let out = drive(
        LlmProvider::Ollama,
        "kurzes Gespräch",
        "Kontext",
        "kundenmeeting",
        4000,
        |_, _, _| Ok("# Kurz".to_string()),
        known,
    );
    assert_eq!(out.result, Ok(("# Kurz".to_string(), 1)));
    assert_eq!(out.calls.len(), 1);
    assert_eq!(
        out.calls[0].1,
        "\n<transcript_chunks>\nkurzes Gespräch\n</transcript_chunks>\n\n\nVom Nutzer bereitgestellter Kontext:\n\n<user_context>\nKontext\n</user_context>"
    );
}

#[test]
fn local_long_run_chunks_with_headroom_and_overlap() {
    let transcript = "abcd ".repeat(8_000);
    assert_eq!(protocolito::tokens::rough_token_count(&transcript), 10_000);
    let (run, action) = SummaryRun::start(LlmProvider::Ollama, &transcript, "", "internes_meeting", 4000);
    assert_eq!(run.stage, Stage::Extracting);
    assert_eq!(run.chunks, chunk_text(&transcript, 3700, 100));
    match action {
        Action::CallModel { system, user } => {
            assert_eq!(system, CHUNK_SYSTEM);
            assert_eq!(user, chunk_user(&run.chunks[0]));
        }
        other => panic!("unexpected {:?}", other),
    }
}

#[test]
fn local_run_combines_successful_chunks_only() {
    let transcript = "abcd ".repeat(16_000);
    let chunks = chunk_text(&transcript, 3700, 100);
    assert_eq!(chunks.len(), 6);
    let out = drive(
        LlmProvider::Ollama,
        &transcript,
        "",
        "internes_meeting",
        4000,
        |i, _, _| match i {
            2 => Err("timeout".to_string()),
            0..=5 => Ok(format!("- Punkt {}", i)),
            6 => Ok("- vereint".to_string()),
            _ => Ok("<think>x</think>\n# Bericht\n".to_string()),
        },
        known,
    );
    assert_eq!(out.result, Ok(("# Bericht".to_string(), 5)));
    assert_eq!(out.calls.len(), 8);
    for (i, chunk) in chunks.iter().enumerate() {
        assert_eq!(out.calls[i].0, CHUNK_SYSTEM);
        assert_eq!(out.calls[i].1, chunk_user(chunk));
    }
    let summaries: Vec<String> = [0, 1, 3, 4, 5].iter().map(|i| format!("- Punkt {}", i)).collect();
    assert_eq!(out.calls[6].0, COMBINE_SYSTEM);
    assert_eq!(out.calls[6].1, combine_user(&summaries));
    assert!(out.calls[6].1.contains("- Punkt 1\n---\n- Punkt 3"));
    assert_eq!(out.calls[7].1, final_user_prompt("- vereint", ""));
}

#[test]
fn local_run_with_one_success_skips_combining() {
    let transcript = "abcd ".repeat(8_000);
    let out = drive(
        LlmProvider::Ollama,
        &transcript,
        "",
        "internes_meeting",
        4000,
        |i, _, _| if i == 1 { Ok("- einziger".to_string()) } else if i < 3 { Err("x".to_string()) } else { Ok("# R".to_string()) },
        known,
    );
    assert_eq!(out.result, Ok(("# R".to_string(), 1)));
    assert_eq!(out.calls.len(), 4);
    assert_eq!(out.calls[3].1, final_user_prompt("- einziger", ""));
}

#[test]
fn local_run_fails_when_every_chunk_fails() {
    let transcript = "abcd ".repeat(8_000);
    let out = drive(
        LlmProvider::Ollama,
        &transcript,
        "",
        "internes_meeting",
        4000,
        |_, _, _| Err("offline".to_string()),
        known,
    );
    assert_eq!(
        out.result,
        Err("Mehrstufige Zusammenfassung fehlgeschlagen: Es wurde kein Chunk erfolgreich verarbeitet.".to_string())
    );
    assert_eq!(out.calls.len(), 3);
    assert_eq!(out.lookups, 0);
}

#[test]
fn unknown_template_aborts_before_the_final_call() {
    let out = drive(
        LlmProvider::Cloud,
        "Gespräch",
        "",
        "gibt_es_nicht",
        4000,
        |_, _, _| Ok("# R".to_string()),
        known,
    );
    assert_eq!(
        out.result,
        Err("Vorlage 'gibt_es_nicht' konnte nicht geladen werden: unbekannte Vorlage".to_string())
    );
    assert_eq!(out.calls.len(), 0);

    let transcript = "abcd ".repeat(8_000);
    let out = drive(
        LlmProvider::Ollama,
        &transcript,
        "",
        "gibt_es_nicht",
        4000,
        |_, _, _| Ok("- p".to_string()),
        known,
    );
    assert!(out.result.is_err());
    let n = chunk_text(&transcript, 3700, 100).len();
    assert_eq!(out.calls.len(), n + 1);
    assert_eq!(out.calls[n].0, COMBINE_SYSTEM);
}

#[test]
fn invalid_template_aborts() {
    let out = drive(
        LlmProvider::Cloud,
        "Gespräch",
        "",
        "internes_meeting",
        4000,
        |_, _, _| Ok("# R".to_string()),
        |_| Ok(Template { name: String::new(), description: "d".to_string(), sections: vec![] }),
    );
    assert_eq!(
        out.result,
        Err("Vorlage 'internes_meeting' konnte nicht geladen werden: Vorlagenname darf nicht leer sein".to_string())
    );
    assert!(out.calls.is_empty());
}

#[test]
fn combine_or_final_failure_is_passed_on() {
    let transcript = "abcd ".repeat(8_000);
    let out = drive(
        LlmProvider::Ollama,
        &transcript,
        "",
        "internes_meeting",
        4000,
        |i, _, _| if i < 3 { Ok("- p".to_string()) } else { Err("combine kaputt".to_string()) },
        known,
    );
    assert_eq!(out.result, Err("combine kaputt".to_string()));
    let out = drive(
        LlmProvider::Cloud,
        "x",
        "",
        "internes_meeting",
        4000,
        |_, _, _| Err("final kaputt".to_string()),
        known,
    );
    assert_eq!(out.result, Err("final kaputt".to_string()));
}

#[test]
fn final_system_prompt_follows_template_id() {
    let t = report_template();
    let tail = format!(
        "{}\n\n<template>\n{}\n</template>\n",
        t.to_section_instructions(),
        t.to_markdown_structure()
    );
    assert_eq!(final_system_prompt("internes_meeting", &t), format!("{}{}", INTERNAL_POLICY, tail));
    assert_eq!(final_system_prompt("kundenmeeting", &t), format!("{}{}", CUSTOMER_POLICY, tail));
    assert_eq!(final_system_prompt("eigene", &t), format!("{}{}", GENERIC_POLICY, tail));
    assert!(INTERNAL_POLICY.ends_with("**Abschnittsspezifische Anweisungen:**\n"));
    assert!(GENERIC_POLICY.starts_with("Du erstellst ein Meeting-Protokoll als Markdown"));
}

#[test]
fn extraction_and_combine_prompts_embed_their_content() {
    assert!(chunk_user("TEXT").ends_with("\n\n<transcript_chunk>\nTEXT\n</transcript_chunk>"));
    assert!(chunk_user("TEXT").starts_with("Extrahiere aus dem folgenden Transkript-Ausschnitt"));
    let v = vec!["- a".to_string(), "- b".to_string()];
    assert!(combine_user(&v).ends_with("\n\n<summaries>\n- a\n---\n- b\n</summaries>"));
    assert_eq!(final_user_prompt("c", ""), "\n<transcript_chunks>\nc\n</transcript_chunks>\n");
}
