use social_graph::text::mentions;

#[test]
fn words_are_found_anywhere() {
    assert!(mentions("unique constraint", "unique constraint"));
    assert!(mentions("a unique constraint", "unique constraint"));
    assert!(mentions("unique constraint b", "unique constraint"));
    assert!(mentions("violates unique constraint \"follows_pkey\"", "unique constraint"));
    assert!(mentions("aab", "ab"));
    assert!(mentions("ababac", "abac"));
}

#[test]
fn words_that_are_not_there_are_not_found() {
    assert!(!mentions("", "unique constraint"));
    assert!(!mentions("unique", "unique constraint"));
    assert!(!mentions("unique  constraint", "unique constraint"));
    assert!(!mentions("Unique Constraint", "unique constraint"));
    assert!(!mentions("unique constrain", "unique constraint"));
    assert!(!mentions("nique constraint", "unique constraint"));
    assert!(!mentions("ab", "abc"));
}

#[test]
fn no_words_are_in_every_text() {
    assert!(mentions("", ""));
    assert!(mentions("abc", ""));
}

#[test]
fn search_agrees_with_the_standard_library() {
    let texts = ["", "a", "ab", "ba", "aaa", "aab", "abab", "日本語", "本", "é", "e", "ée", "x日y"];
    for text in texts {
        for words in texts {
            assert_eq!(mentions(text, words), text.contains(words), "{text:?} {words:?}");
        }
    }
}
