use friendly_error::{
    get_blank_line_prefix, get_digit_count, get_line_number_string, CalculatedFieldError,
    FriendlyCodeSnippet, FriendlyCodeSnippetError,
};

#[test]
fn calc_line_start_start_index_test() {
    let code = "\nfn main() {\n    println!(\"Hello, world!\");\n}\n".to_string();

    let mut friendly_code_snippet = FriendlyCodeSnippet::new(code.clone()).line_start(1);
    friendly_code_snippet.calc_line_start_start_index();
    assert_eq!(friendly_code_snippet.line_start_start_index, Ok(0));

    let mut friendly_code_snippet = FriendlyCodeSnippet::new(code.clone()).line_start(2);
    friendly_code_snippet.calc_line_start_start_index();
    assert_eq!(friendly_code_snippet.line_start_start_index, Ok(1));

    let mut friendly_code_snippet = FriendlyCodeSnippet::new(code.clone()).line_start(3);
    friendly_code_snippet.calc_line_start_start_index();
    assert_eq!(friendly_code_snippet.line_start_start_index, Ok(13));

    let mut friendly_code_snippet = FriendlyCodeSnippet::new(code.clone()).line_start(0);
    friendly_code_snippet.calc_line_start_start_index();
    assert_eq!(
        friendly_code_snippet.line_start_start_index,
        Err(CalculatedFieldError::Invalid)
    );

    let mut friendly_code_snippet = FriendlyCodeSnippet::new(code.clone()).line_start(100);
    friendly_code_snippet.calc_line_start_start_index();
    assert_eq!(
        friendly_code_snippet.line_start_start_index,
        Err(CalculatedFieldError::Invalid)
    );

    let mut friendly_code_snippet = FriendlyCodeSnippet::new(code);
    friendly_code_snippet.calc_line_start_start_index();
    assert_eq!(
        friendly_code_snippet.line_start_start_index,
        Err(CalculatedFieldError::Invalid)
    );
}

#[test]
fn calc_line_end_start_index_test() {
    let code = "\nfn main() {\n    println!(\"Hello, world!\");\n}\n".to_string();

    let mut friendly_code_snippet = FriendlyCodeSnippet::new(code.clone()).line_end(1);
    friendly_code_snippet.calc_line_end_start_index();
    assert_eq!(friendly_code_snippet.line_end_start_index, Ok(0));

    let mut friendly_code_snippet = FriendlyCodeSnippet::new(code.clone()).line_end(2);
    friendly_code_snippet.calc_line_end_start_index();
    assert_eq!(friendly_code_snippet.line_end_start_index, Ok(1));

    let mut friendly_code_snippet = FriendlyCodeSnippet::new(code.clone()).line_end(3);
    friendly_code_snippet.calc_line_end_start_index();
    assert_eq!(friendly_code_snippet.line_end_start_index, Ok(13));

    let mut friendly_code_snippet = FriendlyCodeSnippet::new(code.clone()).line_end(0);
    friendly_code_snippet.calc_line_end_start_index();
    assert_eq!(
        friendly_code_snippet.line_end_start_index,
        Err(CalculatedFieldError::Invalid)
    );

    let mut friendly_code_snippet = FriendlyCodeSnippet::new(code).line_end(100);
    friendly_code_snippet.calc_line_end_start_index();
    assert_eq!(
        friendly_code_snippet.line_end_start_index,
        Err(CalculatedFieldError::Invalid)
    );
}

#[test]
fn validate_inputs_test() {
    let code = "\nfn main() {\n    println!(\"Hello, world!\");\n}\n".to_string();

    // everything is valid
    let mut friendly_code_snippet = FriendlyCodeSnippet::new(code.clone())
        .line_start(1)
        .line_end(2);
    friendly_code_snippet.calc_line_start_start_index();
    friendly_code_snippet.calc_line_end_start_index();
    assert_eq!(friendly_code_snippet.validate_inputs(), Ok(true));

    let mut friendly_code_snippet = FriendlyCodeSnippet::new(code.clone()).line_start(2);
    friendly_code_snippet.calc_line_start_start_index();
    friendly_code_snippet.calc_line_end_start_index();
    assert_eq!(
        friendly_code_snippet.validate_inputs(),
        Err(FriendlyCodeSnippetError::MissingEndPosition)
    );

    let mut friendly_code_snippet = FriendlyCodeSnippet::new(code.clone()).line_end(2);
    friendly_code_snippet.calc_line_start_start_index();
    friendly_code_snippet.calc_line_end_start_index();
    assert_eq!(
        friendly_code_snippet.validate_inputs(),
        Err(FriendlyCodeSnippetError::MissingStartPosition)
    );

    let mut friendly_code_snippet = FriendlyCodeSnippet::new(code.clone())
        .line_start(0)
        .line_end(2);
    friendly_code_snippet.calc_line_start_start_index();
    friendly_code_snippet.calc_line_end_start_index();
    assert_eq!(
        friendly_code_snippet.validate_inputs(),
        Err(FriendlyCodeSnippetError::InvalidStartPosition)
    );

    let mut friendly_code_snippet = FriendlyCodeSnippet::new(code.clone())
        .line_start(1)
        .line_end(100);
    friendly_code_snippet.calc_line_start_start_index();
    friendly_code_snippet.calc_line_end_start_index();
    assert_eq!(
        friendly_code_snippet.validate_inputs(),
        Err(FriendlyCodeSnippetError::InvalidEndPosition)
    );

    let mut friendly_code_snippet = FriendlyCodeSnippet::new(code).line_start(2).line_end(1);
    friendly_code_snippet.calc_line_start_start_index();
    friendly_code_snippet.calc_line_end_start_index();
    assert_eq!(
        friendly_code_snippet.validate_inputs(),
        Err(FriendlyCodeSnippetError::InvalidEndPosition)
    );
}

#[test]
fn get_digit_count_test() {
    assert_eq!(get_digit_count(0), 1);
    assert_eq!(get_digit_count(1), 1);
    assert_eq!(get_digit_count(10), 2);
    assert_eq!(get_digit_count(100), 3);
    assert_eq!(get_digit_count(1000), 4);
    assert_eq!(get_digit_count(500), 3);
    assert_eq!(get_digit_count(99), 2);
    assert_eq!(get_digit_count(101), 3);
    assert_eq!(get_digit_count(999), 3);
    assert_eq!(get_digit_count(1001), 4);
}

#[test]
fn get_line_number_string_test() {
    assert_eq!(get_line_number_string(1, 4), "  1 | ");
    assert_eq!(get_line_number_string(2, 4), "  2 | ");
    assert_eq!(get_line_number_string(20, 4), " 20 | ");
    assert_eq!(get_line_number_string(200, 4), "200 | ");
    assert_eq!(get_line_number_string(200, 5), " 200 | ");
}

#[test]
fn get_blank_line_prefix_test() {
    assert_eq!(get_blank_line_prefix(4), "    | ");
    assert_eq!(get_blank_line_prefix(5), "     | ");
    assert_eq!(
        get_blank_line_prefix(7).len(),
        get_line_number_string(1, 7).len()
    );
}

#[test]
fn build_file_url_test() {
    assert_eq!(
        FriendlyCodeSnippet::new(String::new())
            .set_indent_size(4)
            .build_file_url(),
        ""
    );
    assert_eq!(
        FriendlyCodeSnippet::new(String::new())
            .index_start(4)
            .set_indent_size(4)
            .build_file_url(),
        "    4\n"
    );
    assert_eq!(
        FriendlyCodeSnippet::new(String::new())
            .line_start(24)
            .index_start(4)
            .set_indent_size(4)
            .build_file_url(),
        "    24:4\n"
    );
    assert_eq!(
        FriendlyCodeSnippet::new(String::new())
            .line_start(24)
            .set_indent_size(4)
            .build_file_url(),
        "    24\n"
    );
    assert_eq!(
        FriendlyCodeSnippet::new(String::new())
            .set_file_path("hello.rs")
            .set_indent_size(4)
            .build_file_url(),
        "    hello.rs\n"
    );
    assert_eq!(
        FriendlyCodeSnippet::new(String::new())
            .set_file_path("hello.rs")
            .line_start(24)
            .index_start(4)
            .set_indent_size(4)
            .build_file_url(),
        "    hello.rs:24:4\n"
    );
    assert_eq!(
        FriendlyCodeSnippet::new(String::new())
            .set_file_path("hello.rs")
            .line_start(24)
            .index_start(4)
            .set_indent_size(8)
            .build_file_url(),
        "        hello.rs:24:4\n"
    );
}

#[test]
fn build_caption_test() {
    assert_eq!(
        FriendlyCodeSnippet::new(String::new())
            .set_indent_size(4)
            .build_caption(),
        ""
    );
    assert_eq!(
        FriendlyCodeSnippet::new(String::new())
            .caption("hello world")
            .set_indent_size(4)
            .build_caption(),
        "  --> hello world\n"
    );
    assert_eq!(
        FriendlyCodeSnippet::new(String::new())
            .caption("hello world")
            .set_indent_size(8)
            .build_caption(),
        "      --> hello world\n"
    );
}

#[test]
fn build_succeeds_when_lines_ordered() {
    let code = "\nfn main() {\n    println!(\"Hello, world!\");\n}\n".to_string();
    let result = FriendlyCodeSnippet::new(code).line_start(1).line_end(2).build();
    assert!(result.is_ok());
}

#[test]
fn build_fails_when_lines_reversed() {
    let code = "\nfn main() {\n    println!(\"Hello, world!\");\n}\n".to_string();
    let result = FriendlyCodeSnippet::new(code).line_start(2).line_end(1).build();
    assert_eq!(result, Err(FriendlyCodeSnippetError::InvalidEndPosition));
}

#[test]
fn build_renders_location_and_caption() {
    let code = "\nfn main() {\n    println!(\"Hello, world!\");\n}\n".to_string();
    let result = FriendlyCodeSnippet::new(code)
        .set_file_path("hello.rs")
        .line_start(1)
        .line_end(2)
        .caption("hello world")
        .build();
    assert_eq!(
        result,
        Ok("    hello.rs:1\n  --> hello world\n".to_string())
    );
}

#[test]
fn build_reports_missing_sides() {
    let code = "x".to_string();
    assert_eq!(
        FriendlyCodeSnippet::new(code.clone()).line_end(1).build(),
        Err(FriendlyCodeSnippetError::MissingStartPosition)
    );
    assert_eq!(
        FriendlyCodeSnippet::new(code).line_start(1).build(),
        Err(FriendlyCodeSnippetError::MissingEndPosition)
    );
}

#[test]
fn build_reports_invalid_start() {
    let code = "x".to_string();
    assert_eq!(
        FriendlyCodeSnippet::new(code).line_start(0).line_end(1).build(),
        Err(FriendlyCodeSnippetError::InvalidStartPosition)
    );
}

#[test]
fn build_from_indexes_alone() {
    let result = FriendlyCodeSnippet::new("x".to_string())
        .index_start(3)
        .index_end(5)
        .build();
    assert_eq!(result, Ok("    3\n".to_string()));
}

#[test]
fn empty_text_has_no_lines() {
    let mut snippet = FriendlyCodeSnippet::new(String::new()).line_start(1);
    snippet.calc_line_start_start_index();
    assert_eq!(
        snippet.line_start_start_index,
        Err(CalculatedFieldError::Invalid)
    );
}

#[test]
fn indent_size_tracks_widest_offset() {
    let mut snippet = FriendlyCodeSnippet::new(String::new());
    snippet.line_start_start_index = Ok(999);
    snippet.line_end_start_index = Ok(0);
    snippet.calc_indent_size();
    assert_eq!(snippet.indent_size, Ok(4));

    let mut snippet = FriendlyCodeSnippet::new(String::new());
    snippet.line_start_start_index = Ok(10000);
    snippet.line_end_start_index = Ok(0);
    snippet.calc_indent_size();
    assert_eq!(snippet.indent_size, Ok(6));
}
