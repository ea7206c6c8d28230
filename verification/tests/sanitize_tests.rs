use spec_forge::sanitize::{clean_json_response, strip_think_blocks, truncate_for_log};

#[test]
fn test_json_code_block() {
    let input = "```json\n{\"key\": \"value\"}\n```";
    assert_eq!(clean_json_response(input), "{\"key\": \"value\"}");
}

#[test]
fn test_bare_code_block() {
    let input = "```\n{\"key\": \"value\"}\n```";
    assert_eq!(clean_json_response(input), "{\"key\": \"value\"}");
}

#[test]
fn test_plain_json() {
    let input = "{\"key\": \"value\"}";
    assert_eq!(clean_json_response(input), "{\"key\": \"value\"}");
}

#[test]
fn test_json_with_surrounding_text() {
    let input = "Here is the JSON:\n{\"key\": \"value\"}\nThat's all.";
    assert_eq!(clean_json_response(input), "{\"key\": \"value\"}");
}

#[test]
fn test_nested_braces() {
    let input = "Some text {\"a\": {\"b\": \"c\"}} more text";
    assert_eq!(clean_json_response(input), "{\"a\": {\"b\": \"c\"}}");
}

#[test]
fn test_empty() {
    assert_eq!(clean_json_response(""), "");
    assert_eq!(clean_json_response("   "), "");
}

#[test]
fn test_no_json() {
    assert_eq!(clean_json_response("just text"), "just text");
}

#[test]
fn test_brace_before_open_no_panic() {
    // a } before { must not derail the fallback span
    assert_eq!(clean_json_response("}={R"), "}={R");
}

#[test]
fn test_closing_brace_only() {
    assert_eq!(clean_json_response("}"), "}");
}

#[test]
fn test_opening_brace_only() {
    assert_eq!(clean_json_response("{"), "{");
}

#[test]
fn test_strip_think_block_before_json() {
    let input = "<think>\nLe user veut un JSON...\n</think>\n{\"key\": \"value\"}";
    assert_eq!(clean_json_response(input), "{\"key\": \"value\"}");
}

#[test]
fn test_strip_think_block_with_braces_inside() {
    let input = "<think>\nAnalysons {\"partial\": true} ...\n</think>\n{\"real\": \"data\"}";
    assert_eq!(clean_json_response(input), "{\"real\": \"data\"}");
}

#[test]
fn test_strip_unclosed_think_block() {
    let input = "<think>\nLe modele reflechit encore...";
    assert_eq!(clean_json_response(input), "");
}

#[test]
fn test_strip_think_block_unclosed_with_json_before() {
    let input = "{\"key\": \"value\"}\n<think>\nEncore en train de reflechir...";
    assert_eq!(clean_json_response(input), "{\"key\": \"value\"}");
}

#[test]
fn test_strip_multiple_think_blocks() {
    let input = "<think>Premier</think>text<think>Deuxieme</think>{\"ok\": true}";
    assert_eq!(clean_json_response(input), "{\"ok\": true}");
}

#[test]
fn test_no_think_block_unchanged() {
    let input = "{\"key\": \"value\"}";
    assert_eq!(clean_json_response(input), "{\"key\": \"value\"}");
}

#[test]
fn test_think_block_with_markdown_json() {
    let input = "<think>\nRaisonnement...\n</think>\n```json\n{\"key\": \"value\"}\n```";
    assert_eq!(clean_json_response(input), "{\"key\": \"value\"}");
}

#[test]
fn test_clean_json_response() {
    let input = "```json\n{\"key\": \"value\"}\n```";
    assert_eq!(clean_json_response(input), "{\"key\": \"value\"}");
}

#[test]
fn refine_service_test_clean_json_response_plain() {
    let input = "{\"key\": \"value\"}";
    assert_eq!(clean_json_response(input), "{\"key\": \"value\"}");
}

#[test]
fn test_clean_json_response_with_text() {
    let input = "Here is the JSON:\n{\"key\": \"value\"}\nThat's all.";
    assert_eq!(clean_json_response(input), "{\"key\": \"value\"}");
}

#[test]
fn test_clean_json_response_bare_backticks() {
    let input = "```\n{\"key\": \"value\"}\n```";
    assert_eq!(clean_json_response(input), "{\"key\": \"value\"}");
}

#[test]
fn refine_service_test_clean_json_response_empty() {
    assert_eq!(clean_json_response(""), "");
    assert_eq!(clean_json_response("   "), "");
}

#[test]
fn test_clean_json_response_no_json() {
    assert_eq!(clean_json_response("just text"), "just text");
}

#[test]
fn test_clean_json_response_nested_braces() {
    let input = "Some text {\"a\": {\"b\": \"c\"}} more text";
    assert_eq!(clean_json_response(input), "{\"a\": {\"b\": \"c\"}}");
}

#[test]
fn test_clean_json_response_brace_before_open() {
    assert_eq!(clean_json_response("}={R"), "}={R");
}

#[test]
fn test_clean_json_response_markdown_block() {
    let input = "```json\n{\"key\": \"value\"}\n```";
    assert_eq!(spec_forge::generate::clean_json(input), "{\"key\": \"value\"}");
}

#[test]
fn test_clean_json_response_bare_block() {
    let input = "```\n{\"key\": \"value\"}\n```";
    assert_eq!(spec_forge::generate::clean_json(input), "{\"key\": \"value\"}");
}

#[test]
fn generate_tests_service_test_clean_json_response_plain() {
    let input = "{\"key\": \"value\"}";
    assert_eq!(spec_forge::generate::clean_json(input), "{\"key\": \"value\"}");
}

#[test]
fn test_clean_json_response_with_surrounding_text() {
    let input = "Here is the JSON:\n{\"key\": \"value\"}\nDone.";
    assert_eq!(spec_forge::generate::clean_json(input), "{\"key\": \"value\"}");
}

#[test]
fn generate_tests_service_test_clean_json_response_empty() {
    assert_eq!(spec_forge::generate::clean_json(""), "");
    assert_eq!(spec_forge::generate::clean_json("   "), "");
}

// The sanitizer is total: adversarial inputs with unmatched markers,
// unmatched fences and unmatched braces come back without a failure.
#[test]
fn test_sanitizer_total_on_adversarial_input() {
    let inputs = [
        "",
        "<think>",
        "</think>",
        "<think><think></think>",
        "```json",
        "``````",
        "```json```",
        "{{{{",
        "}}}}",
        "}{",
        "<think>```json{</think>```}",
        "\u{0}\u{1}\u{2}",
        "héllo wörld 🚀 <think>非ASCII</think> {x}",
        "```json\nno close",
        "``` \n ``` ```",
    ];
    for input in inputs {
        let _ = clean_json_response(input);
        let _ = strip_think_blocks(input);
    }
}

#[test]
fn test_strip_think_keeps_outside_text() {
    assert_eq!(strip_think_blocks("a<think>x</think>b"), "ab");
    assert_eq!(strip_think_blocks("plain"), "plain");
}

#[test]
fn test_fence_without_tag_skips_opening_line() {
    let input = "```rust\nlet x = 1;\n```";
    assert_eq!(clean_json_response(input), "let x = 1;");
}

#[test]
fn test_truncate_for_log_short() {
    assert_eq!(truncate_for_log("abc", 10), "abc");
}

#[test]
fn test_truncate_for_log_long() {
    let out = truncate_for_log("abcdefghij", 4);
    assert_eq!(out, "abcd... [tronque, 10 chars total]");
}
