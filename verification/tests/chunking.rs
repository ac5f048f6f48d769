use zotero::chunking::chunk_text;

#[test]
fn empty_input_returns_empty_vec() {
    assert_eq!(chunk_text("", 100), Vec::<String>::new());
    assert_eq!(chunk_text("   \n\n  ", 100), Vec::<String>::new());
}

#[test]
fn single_short_paragraph_returns_one_chunk() {
    let chunks = chunk_text("hello world", 100);
    assert_eq!(chunks, vec!["hello world".to_owned()]);
}

#[test]
fn combined_paragraphs_exceeding_max_split_into_multiple_chunks() {
    let a = "a".repeat(60);
    let b = "b".repeat(60);
    let text = format!("{a}\n\n{b}");
    let chunks = chunk_text(&text, 100);
    assert_eq!(chunks.len(), 2);
    for chunk in &chunks {
        assert!(chunk.len() <= 100);
    }
    assert_eq!(chunks.first().unwrap(), &a);
    assert_eq!(chunks.get(1).unwrap(), &b);
}

#[test]
fn long_paragraph_gets_sentence_split() {
    let sentence = "This is a sentence. ".repeat(20);
    let chunks = chunk_text(&sentence, 100);
    assert!(chunks.len() > 1);
    for chunk in &chunks {
        assert!(chunk.len() <= 100);
    }
}

#[test]
fn long_sentence_with_no_separators_gets_hard_split() {
    let text = "a".repeat(250);
    let chunks = chunk_text(&text, 100);
    for chunk in &chunks {
        assert!(chunk.len() <= 100);
    }
    assert_eq!(chunks.join(""), text);
}

#[test]
fn multi_byte_utf8_hard_splits_without_panicking() {
    let text = "é".repeat(150) + &"🎉".repeat(50);
    let chunks = chunk_text(&text, 50);
    for chunk in &chunks {
        assert!(chunk.len() <= 50);
        let _: Vec<char> = chunk.chars().collect();
    }
    assert_eq!(chunks.concat(), text);
}

#[test]
fn short_paragraphs_are_packed_together() {
    let chunks = chunk_text("one\n\ntwo\n\nthree", 100);
    assert_eq!(chunks, vec!["one\n\ntwo\n\nthree".to_owned()]);
}

#[test]
fn zero_limit_gives_no_chunks() {
    assert!(chunk_text("abc", 0).is_empty());
    assert!(chunk_text("First.\n\nSecond paragraph here.", 0).is_empty());
}

#[test]
fn chunks_hold_at_most_the_limit_in_characters() {
    for max in 1..12 {
        for c in chunk_text("Émile était là. Ça va! Oui? Très bien.\n\nAutre paragraphe ici.", max) {
            assert!(!c.is_empty());
            assert!(c.chars().count() <= max);
        }
    }
}
