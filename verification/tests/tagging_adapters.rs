use rust_bert_binding::handle::{HandleTable, NULL_HANDLE};
use rust_bert_binding::ledger::Reclaimed;
use rust_bert_binding::ner::{
    free_ner_model, free_ner_result, ner_result, new_ner_model, new_ner_model_from_files,
    predict_ner, NERModelWrapper, TaggedEntity,
};
use rust_bert_binding::pos::{
    free_pos_model, free_pos_result, new_pos_model, pos_result, predict_pos, POSModelWrapper,
    TaggedWord,
};
use rust_bert_binding::text::OwnedText;

struct Stub;

fn text(field: &Option<OwnedText>) -> Option<String> {
    field.as_ref().map(|owned| owned.text())
}

fn find_capitalized(_: &Stub, input: &str) -> Vec<Vec<TaggedEntity>> {
    let mut found = Vec::new();
    let mut at = 0u32;
    for word in input.split(' ') {
        let len = word.chars().count() as u32;
        if word.chars().next().map_or(false, |c| c.is_uppercase()) {
            found.push(TaggedEntity {
                word: word.to_string(),
                score: 0.9f32.to_bits(),
                label: "I-PER".to_string(),
                begin: at,
                end: at + len,
            });
        }
        at += len + 1;
    }
    vec![found]
}

fn tag_words(_: &Stub, input: &str) -> Vec<Vec<TaggedWord>> {
    vec![input
        .split_whitespace()
        .map(|word| TaggedWord {
            word: word.to_string(),
            score: 0.5f32.to_bits(),
            label: "NN".to_string(),
        })
        .collect()]
}

fn ner_table() -> (HandleTable<NERModelWrapper<Stub>>, usize) {
    let mut table = HandleTable::new();
    let handle = new_ner_model(&mut table, || Ok::<Stub, String>(Stub));
    (table, handle)
}

fn pos_table() -> (HandleTable<POSModelWrapper<Stub>>, usize) {
    let mut table = HandleTable::new();
    let handle = new_pos_model(&mut table, || Ok::<Stub, String>(Stub));
    (table, handle)
}

#[test]
fn ner_returns_entities_with_their_ranges() {
    let (table, handle) = ner_table();
    let result = predict_ner(
        &table,
        handle,
        Some(b"my name is Amy and I know Bob\0"),
        find_capitalized,
    )
    .unwrap();
    assert_eq!(result.count(), 3);
    let entities = result.data().unwrap();
    assert_eq!(text(&entities[0].word), Some("Amy".to_string()));
    assert_eq!(text(&entities[0].label), Some("I-PER".to_string()));
    assert_eq!(entities[0].score, 0.9f32.to_bits());
    assert_eq!((entities[0].offset_begin, entities[0].offset_end), (11, 14));
    assert_eq!(text(&entities[1].word), Some("I".to_string()));
    assert_eq!((entities[1].offset_begin, entities[1].offset_end), (19, 20));
    assert_eq!(text(&entities[2].word), Some("Bob".to_string()));
    assert_eq!((entities[2].offset_begin, entities[2].offset_end), (26, 29));
    assert_eq!(
        free_ner_result(Some(result)),
        Reclaimed {
            texts: 6,
            arrays: 1,
            boxes: 1
        }
    );
}

#[test]
fn ner_without_entities_is_empty_not_null() {
    let (table, handle) = ner_table();
    let result = predict_ner(
        &table,
        handle,
        Some(b"nothing to see here\0"),
        find_capitalized,
    );
    let result = result.expect("a text without entities is no failure");
    assert_eq!(result.count(), 0);
    assert!(result.data().is_none());
    assert_eq!(
        free_ner_result(Some(result)),
        Reclaimed {
            texts: 0,
            arrays: 0,
            boxes: 1
        }
    );
}

#[test]
fn ner_without_any_batch_is_empty_not_null() {
    let (table, handle) = ner_table();
    let result = predict_ner(&table, handle, Some(b"text\0"), |_: &Stub, _: &str| {
        Vec::new()
    })
    .unwrap();
    assert_eq!(result.count(), 0);
    assert!(result.data().is_none());
    let result = ner_result(&vec![Vec::new()]);
    assert_eq!(result.count(), 0);
    assert!(result.data().is_none());
}

#[test]
fn ner_rejects_null_and_unreadable_input() {
    let (mut table, handle) = ner_table();
    assert!(predict_ner(&table, handle, None, find_capitalized).is_none());
    assert!(predict_ner(&table, NULL_HANDLE, Some(b"Amy\0"), find_capitalized).is_none());
    assert!(predict_ner(&table, handle, Some(&[0xc3, 0x28, 0x00]), find_capitalized).is_none());
    assert!(free_ner_model(&mut table, handle));
    assert!(predict_ner(&table, handle, Some(b"Amy\0"), find_capitalized).is_none());
    assert!(!free_ner_model(&mut table, handle));
}

#[test]
fn ner_word_with_embedded_nul_is_a_null_field() {
    let outputs = vec![vec![TaggedEntity {
        word: "bro\0ken".to_string(),
        score: 1,
        label: "I-MISC".to_string(),
        begin: 4,
        end: 11,
    }]];
    let result = ner_result(&outputs);
    assert_eq!(result.count(), 1);
    let entities = result.data().unwrap();
    assert!(entities[0].word.is_none());
    assert_eq!(text(&entities[0].label), Some("I-MISC".to_string()));
    assert_eq!((entities[0].offset_begin, entities[0].offset_end), (4, 11));
    assert_eq!(
        free_ner_result(Some(result)),
        Reclaimed {
            texts: 1,
            arrays: 1,
            boxes: 1
        }
    );
}

#[test]
fn ner_offsets_keep_their_full_width() {
    let outputs = vec![vec![TaggedEntity {
        word: "far".to_string(),
        score: 0,
        label: "I-LOC".to_string(),
        begin: u32::MAX - 3,
        end: u32::MAX,
    }]];
    let result = ner_result(&outputs);
    let entities = result.data().unwrap();
    assert_eq!(entities[0].offset_begin, 4294967292usize);
    assert_eq!(entities[0].offset_end, 4294967295usize);
}

#[test]
fn ner_from_files_falls_back_to_the_default() {
    let mut table: HandleTable<NERModelWrapper<Stub>> = HandleTable::new();
    let handle = new_ner_model_from_files(&mut table, None, None, None, None, 0, || {
        Ok::<Stub, String>(Stub)
    });
    assert_eq!(handle, 1);
    let handle = new_ner_model_from_files(&mut table, None, None, None, None, 0, || {
        Err::<Stub, String>("no".to_string())
    });
    assert_eq!(handle, NULL_HANDLE);
    assert_eq!(table.live_count(), 1);
}

#[test]
fn ner_free_of_null_result_is_a_no_op() {
    assert_eq!(
        free_ner_result(None),
        Reclaimed {
            texts: 0,
            arrays: 0,
            boxes: 0
        }
    );
}

#[test]
fn pos_tags_every_word_in_order() {
    let (table, handle) = pos_table();
    let result = predict_pos(&table, handle, Some(b"the quick fox\0"), tag_words).unwrap();
    assert_eq!(result.count(), 3);
    let tags = result.data().unwrap();
    let words: Vec<Option<String>> = tags.iter().map(|t| text(&t.word)).collect();
    assert_eq!(
        words,
        vec![
            Some("the".to_string()),
            Some("quick".to_string()),
            Some("fox".to_string())
        ]
    );
    assert_eq!(text(&tags[2].label), Some("NN".to_string()));
    assert_eq!(tags[1].score, 0.5f32.to_bits());
    assert_eq!(
        free_pos_result(Some(result)),
        Reclaimed {
            texts: 6,
            arrays: 1,
            boxes: 1
        }
    );
}

#[test]
fn pos_of_empty_text_is_empty_not_null() {
    let (table, handle) = pos_table();
    let result = predict_pos(&table, handle, Some(b"\0"), tag_words).unwrap();
    assert_eq!(result.count(), 0);
    assert!(result.data().is_none());
    assert_eq!(
        free_pos_result(Some(result)),
        Reclaimed {
            texts: 0,
            arrays: 0,
            boxes: 1
        }
    );
}

#[test]
fn pos_rejects_null_and_unreadable_input() {
    let (mut table, handle) = pos_table();
    assert!(predict_pos(&table, handle, None, tag_words).is_none());
    assert!(predict_pos(&table, NULL_HANDLE, Some(b"word\0"), tag_words).is_none());
    assert!(predict_pos(&table, handle, Some(b"unterminated"), tag_words).is_none());
    assert!(free_pos_model(&mut table, handle));
    assert!(predict_pos(&table, handle, Some(b"word\0"), tag_words).is_none());
    assert!(!free_pos_model(&mut table, NULL_HANDLE));
}

#[test]
fn pos_result_takes_the_first_batch() {
    let batches = vec![
        vec![TaggedWord {
            word: "first".to_string(),
            score: 1,
            label: "JJ".to_string(),
        }],
        vec![TaggedWord {
            word: "second".to_string(),
            score: 2,
            label: "JJ".to_string(),
        }],
    ];
    let result = pos_result(&batches);
    assert_eq!(result.count(), 1);
    assert_eq!(
        text(&result.data().unwrap()[0].word),
        Some("first".to_string())
    );
}

#[test]
fn pos_free_of_null_result_is_a_no_op() {
    assert_eq!(
        free_pos_result(None),
        Reclaimed {
            texts: 0,
            arrays: 0,
            boxes: 0
        }
    );
}

#[test]
fn pos_failed_construction_gives_null() {
    let mut table: HandleTable<POSModelWrapper<Stub>> = HandleTable::new();
    assert_eq!(
        new_pos_model(&mut table, || Err::<Stub, String>("no".to_string())),
        NULL_HANDLE
    );
    assert_eq!(table.issued_count(), 0);
}
