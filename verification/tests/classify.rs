use grounded_dispatch::classify::{classify, contains_code_keyword, is_code_prompt, Category};

#[test]
fn every_keyword_marks_a_request_as_code() {
    let words = [
        "code", "function", "implement", "script", "program", "debug", "fix", "refactor", "rust",
        "python", "javascript", "typescript", "sql", "api", "endpoint", "algorithm",
    ];
    for word in words {
        assert_eq!(classify(word), Category::Code, "{}", word);
        assert!(is_code_prompt(&format!("please look at my {} today", word)), "{}", word);
    }
}

#[test]
fn keyword_is_found_at_any_position() {
    assert_eq!(classify("fix the barn door"), Category::Code);
    assert_eq!(classify("the barn door needs a fix"), Category::Code);
    assert_eq!(classify("can you debug it for me"), Category::Code);
}

#[test]
fn keyword_is_found_whatever_the_case() {
    assert_eq!(classify("FIX THIS"), Category::Code);
    assert_eq!(classify("Please Refactor my class"), Category::Code);
    assert_eq!(classify("a Python question"), Category::Code);
    assert_eq!(classify("what is an ALGORITHM"), Category::Code);
}

#[test]
fn text_without_keyword_is_general() {
    assert_eq!(classify("what's the weather today"), Category::General);
    assert_eq!(classify("tell me a story about a cat"), Category::General);
    assert_eq!(classify(""), Category::General);
    assert_eq!(classify("   "), Category::General);
    assert!(!is_code_prompt("what's the weather today"));
}

#[test]
fn keyword_inside_a_longer_word_counts() {
    assert_eq!(classify("cancel my subscription"), Category::Code);
    assert_eq!(classify("a therapist near me"), Category::Code);
    assert_eq!(classify("the prefix of a word"), Category::Code);
}

#[test]
fn keyword_split_by_a_space_does_not_count() {
    assert_eq!(classify("de bug"), Category::General);
    assert_eq!(classify("f i x"), Category::General);
}

#[test]
fn lowercase_test_is_case_sensitive() {
    assert!(contains_code_keyword("fix this function"));
    assert!(!contains_code_keyword("FIX THIS FUNCTION"));
    assert!(!contains_code_keyword(""));
    assert!(contains_code_keyword("xxsqlxx"));
}

#[test]
fn non_ascii_text_is_lowered_too() {
    assert_eq!(classify("ÉCRIS UN PROGRAMME"), Category::Code);
    assert_eq!(classify("ÜBER DAS WETTER"), Category::General);
}

#[test]
fn classify_agrees_with_is_code_prompt() {
    for text in ["fix this function", "what's the weather today", "SQL", "hello"] {
        assert_eq!(classify(text) == Category::Code, is_code_prompt(text));
    }
}
