use protocolito::clean::{clean_llm_markdown_output, tidy_llm_output};

#[test]
fn clean_removes_think_block() {
    assert_eq!(clean_llm_markdown_output("<think>secret</think>Hello"), "Hello");
}

#[test]
fn clean_strips_markdown_fence() {
    assert_eq!(clean_llm_markdown_output("```markdown\nHello\n```"), "Hello");
}

#[test]
fn clean_keeps_plain_text() {
    assert_eq!(clean_llm_markdown_output("plain text"), "plain text");
}

#[test]
fn clean_removes_thinking_blocks_across_lines() {
    let raw = "<thinking>\nplan\nmore</thinking>\n# Titel\n<think>a</think>Text\n";
    assert_eq!(clean_llm_markdown_output(raw), "# Titel\nText");
}

#[test]
fn clean_thinking_block_is_not_greedy() {
    let raw = "<think>x</think>Mitte<think>y</think>";
    assert_eq!(clean_llm_markdown_output(raw), "Mitte");
}

#[test]
fn clean_strips_any_fence_tag() {
    for tag in ["", "markdown", "md", "json"] {
        let raw = format!("  ```{}\n# Bericht\n\n- Punkt\n```  \n", tag);
        assert_eq!(clean_llm_markdown_output(&raw), "# Bericht\n\n- Punkt");
    }
}

#[test]
fn clean_keeps_fence_without_line_break() {
    assert_eq!(clean_llm_markdown_output("```"), "```");
    assert_eq!(clean_llm_markdown_output("```abc```"), "```abc```");
}

#[test]
fn clean_keeps_inner_fences() {
    let raw = "Text\n```\ncode\n```";
    assert_eq!(clean_llm_markdown_output(raw), raw);
}

#[test]
fn tidy_trims_and_unfences() {
    assert_eq!(tidy_llm_output("\n\t ```\n inner \n```\n"), "inner");
    assert_eq!(tidy_llm_output("  text  "), "text");
    assert_eq!(tidy_llm_output("<think>kept</think>"), "<think>kept</think>");
    assert_eq!(tidy_llm_output(""), "");
}
