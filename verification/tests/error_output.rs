use friendly_error::{
    FriendlyCodeSnippet, FriendlyCodeSnippetError, FriendlyError, FriendlyErrorError,
};

#[test]
fn test_append_description() {
    let mut error = FriendlyError::new().description("I am the description");
    error.print_description();
    assert_eq!(error.output, "I am the description");
}

#[test]
fn test_append_description_with_output() {
    let mut error = FriendlyError::new()
        .description("I am the description")
        .set_output("Error message");
    error.print_description();
    assert_eq!(error.output, "Error message\n\nI am the description");
}

#[test]
fn doc_url_test_append_doc_url() {
    let mut error = FriendlyError::new().doc_url("https://example.com/");
    error.print_doc_url();
    assert_eq!(
        error.output,
        "To learn more, read the docs at https://example.com/"
    );
}

#[test]
fn doc_url_test_append_doc_url_with_output() {
    let mut error = FriendlyError::new()
        .doc_url("https://example.com/")
        .set_output("Error message");
    error.print_doc_url();
    assert_eq!(
        error.output,
        "Error message\n\nTo learn more, read the docs at https://example.com/"
    );
}

#[test]
fn file_url_test_append_doc_url() {
    let mut error = FriendlyError::new()
        .file_path("hello/world")
        .line_number(24)
        .column_start(42);
    error.print_file_url();
    assert_eq!(error.output, "hello/world:24:42");
}

#[test]
fn file_url_test_append_doc_url_with_output() {
    let mut error = FriendlyError::new()
        .file_path("hello/world")
        .line_number(24)
        .column_start(42)
        .set_output("Error message");
    error.print_file_url();
    assert_eq!(error.output, "Error message\n\nhello/world:24:42");
}

#[test]
fn file_url_needs_all_three_fields() {
    let mut error = FriendlyError::new().file_path("hello/world").line_number(24);
    error.print_file_url();
    assert_eq!(error.output, "");
}

#[test]
fn test_append_summary() {
    let mut error = FriendlyError::new().summary("I am the summary");
    error.print_summary();
    assert_eq!(error.output, "I am the summary");
}

#[test]
fn test_append_summary_with_output() {
    let mut error = FriendlyError::new()
        .summary("I am the summary")
        .set_output("Error message");
    error.print_summary();
    assert_eq!(error.output, "Error message\n\nI am the summary");
}

#[test]
fn header_base_case() {
    let mut error = FriendlyError::new();
    error.print_header();
    assert_eq!(
        error.output,
        "--- Error ----------------------------------------------------------------------"
    );
}

#[test]
fn header_with_title() {
    let mut error = FriendlyError::new().title("Error message");
    error.print_header();
    assert_eq!(
        error.output,
        "--- Error: Error message -------------------------------------------------------"
    );
}

#[test]
fn header_with_code() {
    let mut error = FriendlyError::new().error_code("E123");
    error.print_header();
    assert_eq!(
        error.output,
        "--- Error(E123) ----------------------------------------------------------------"
    );
}

#[test]
fn header_with_title_and_code() {
    let mut error = FriendlyError::new()
        .title("Error message")
        .error_code("E123");
    error.print_header();
    assert_eq!(
        error.output,
        "--- Error(E123): Error message -------------------------------------------------"
    );
}

#[test]
fn build_assembles_all_sections() {
    let result = FriendlyError::new()
        .title("Oops")
        .summary("I am the summary")
        .description("I am the description")
        .doc_url("https://example.com/")
        .build();
    let expected = format!(
        "--- Error: Oops {}\n\nI am the summary\n\nI am the description\n\nTo learn more, read the docs at https://example.com/",
        "-".repeat(64)
    );
    assert_eq!(result, Ok(expected));
}

#[test]
fn build_appends_snippet_sections() {
    let snippet = FriendlyCodeSnippet::new("x".to_string())
        .index_start(3)
        .index_end(5);
    let result = FriendlyError::new().add_code_snippet(snippet).build();
    let output = result.unwrap();
    assert!(output.starts_with("--- Error "));
    assert!(output.ends_with("\n\n    3\n"));
}

#[test]
fn build_propagates_snippet_failure() {
    let snippet = FriendlyCodeSnippet::new("x".to_string()).line_start(2).line_end(1);
    let result = FriendlyError::new().add_code_snippet(snippet).build();
    assert_eq!(
        result,
        Err(FriendlyErrorError::CodeSnippetError(
            FriendlyCodeSnippetError::InvalidStartPosition
        ))
    );
}

#[test]
fn print_code_snippets_keeps_earlier_output() {
    let good = FriendlyCodeSnippet::new("a\nb".to_string()).line_start(1).line_end(2);
    let bad = FriendlyCodeSnippet::new("a\nb".to_string()).line_start(2).line_end(1);
    let mut error = FriendlyError::new()
        .add_code_snippet(good)
        .add_code_snippet(bad)
        .set_output("Error message");
    let result = error.print_code_snippets();
    assert_eq!(
        result,
        Err(FriendlyErrorError::CodeSnippetError(
            FriendlyCodeSnippetError::InvalidEndPosition
        ))
    );
    assert_eq!(error.output, "Error message\n\n    1\n");
}
