//! The content classifier: a request is about code when its lowercase form
//! holds one of a fixed set of keywords as a substring.

use vstd::prelude::*;
use crate::text::{contains, lowercased, occurs_in, to_lowercase};

verus! {

/// The two kinds of request the dispatcher tells apart.
#[derive(Clone, Copy, Debug, PartialEq, Eq, Structural)]
pub enum Category {
    Code,
    General,
}

/// The keywords that mark a request as being about code, all lowercase.
pub open spec fn keywords() -> Seq<Seq<char>> {
    seq![
        "code"@,
        "function"@,
        "implement"@,
        "script"@,
        "program"@,
        "debug"@,
        "fix"@,
        "refactor"@,
        "rust"@,
        "python"@,
        "javascript"@,
        "typescript"@,
        "sql"@,
        "api"@,
        "endpoint"@,
        "algorithm"@,
    ]
}

/// Some keyword occurs in `lowered` as a substring, at any position. This is
/// plain containment: a keyword inside a longer word counts.
pub open spec fn mentions_code(lowered: Seq<char>) -> bool {
    exists|k: int| 0 <= k < keywords().len() && occurs_in(#[trigger] keywords()[k], lowered)
}

/// The category of a request text: `Code` when the lowercase form of the
/// text mentions a keyword, `General` otherwise.
pub open spec fn category_of(text: Seq<char>) -> Category {
    if mentions_code(lowercased(text)) {
        Category::Code
    } else {
        Category::General
    }
}

/// Tests a text that is already lowercase for the keywords.
pub fn contains_code_keyword(lowered: &str) -> (found: bool)
    ensures
        found == mentions_code(lowered@),
{
    let words: [&str; 16] = [
        "code",
        "function",
        "implement",
        "script",
        "program",
        "debug",
        "fix",
        "refactor",
        "rust",
        "python",
        "javascript",
        "typescript",
        "sql",
        "api",
        "endpoint",
        "algorithm",
    ];
    assert(words@.map_values(|w: &str| w@) =~= keywords());
    let mut k: usize = 0;
    while k < 16
        invariant
            k <= 16,
            words@.map_values(|w: &str| w@) == keywords(),
            forall|j: int| 0 <= j < k ==> !occurs_in(#[trigger] keywords()[j], lowered@),
        decreases 16 - k,
    {
        assert(words@.map_values(|w: &str| w@)[k as int] == words@[k as int]@);
        if contains(lowered, words[k]) {
            return true;
        }
        k += 1;
    }
    false
}

/// Whether a prompt is about code, whatever the case of its letters.
pub fn is_code_prompt(prompt: &str) -> (code: bool)
    ensures
        code == mentions_code(lowercased(prompt@)),
{
    let lowered = to_lowercase(prompt);
    contains_code_keyword(lowered.as_str())
}

/// Classifies a request text.
pub fn classify(text: &str) -> (category: Category)
    ensures
        category == category_of(text@),
        category == Category::Code <==> mentions_code(lowercased(text@)),
{
    if is_code_prompt(text) {
        Category::Code
    } else {
        Category::General
    }
}

} // verus!
