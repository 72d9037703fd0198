use rust_bert_binding::handle::{HandleTable, NULL_HANDLE};
use rust_bert_binding::ledger::Reclaimed;
use rust_bert_binding::text::OwnedText;
use rust_bert_binding::zero_shot::{
    decode_labels, free_zero_shot_model, free_zero_shot_result, new_zero_shot_model,
    new_zero_shot_model_from_files, predict_zero_shot, zero_shot_result, ScoredLabel,
    ZeroShotClassificationModelWrapper, ZERO_SHOT_MAX_LENGTH,
};

struct Stub;

fn text(field: &Option<OwnedText>) -> Option<String> {
    field.as_ref().map(|owned| owned.text())
}

fn rank(_: &Stub, input: &str, labels: &Vec<String>, _limit: usize) -> Option<Vec<ScoredLabel>> {
    let best = if input.contains("now") {
        "urgent"
    } else {
        "not urgent"
    };
    Some(
        labels
            .iter()
            .map(|label| ScoredLabel {
                text: label.clone(),
                score: if label == best {
                    0.9f64.to_bits()
                } else {
                    0.1f64.to_bits()
                },
            })
            .collect(),
    )
}

fn table_with_model() -> (HandleTable<ZeroShotClassificationModelWrapper<Stub>>, usize) {
    let mut table = HandleTable::new();
    let handle = new_zero_shot_model(&mut table, || Ok::<Stub, String>(Stub));
    (table, handle)
}

#[test]
fn zero_shot_ranks_the_candidate_labels() {
    let (mut table, handle) = table_with_model();
    let labels: [Option<&[u8]>; 2] = [Some(b"urgent\0"), Some(b"not urgent\0")];
    let result =
        predict_zero_shot(&table, handle, Some(b"do it now\0"), Some(&labels), rank).unwrap();
    assert_eq!(result.count(), 2);
    let ranked = result.data().unwrap();
    assert_eq!(text(&ranked[0].text), Some("urgent".to_string()));
    assert_eq!(f64::from_bits(ranked[0].score), 0.9);
    assert_eq!(text(&ranked[1].text), Some("not urgent".to_string()));
    assert_eq!(f64::from_bits(ranked[1].score), 0.1);
    assert_eq!(
        free_zero_shot_result(Some(result)),
        Reclaimed {
            texts: 2,
            arrays: 1,
            boxes: 1
        }
    );
    assert!(free_zero_shot_model(&mut table, handle));
}

#[test]
fn zero_shot_scenario_no_label_left_after_filtering_gives_null() {
    let (table, handle) = table_with_model();
    let labels: [Option<&[u8]>; 2] = [Some(b"urgent\xff\0"), Some(b"not urgent\xc3\0")];
    let mut ran = false;
    let result = predict_zero_shot(
        &table,
        handle,
        Some(b"do it now\0"),
        Some(&labels),
        |_: &Stub, _: &str, _: &Vec<String>, _: usize| {
            ran = true;
            Some(Vec::new())
        },
    );
    assert!(result.is_none());
    assert!(!ran);
    let nulls: [Option<&[u8]>; 2] = [None, None];
    assert!(predict_zero_shot(&table, handle, Some(b"do it now\0"), Some(&nulls), rank).is_none());
}

#[test]
fn zero_shot_empty_label_array_gives_null() {
    let (table, handle) = table_with_model();
    let labels: [Option<&[u8]>; 0] = [];
    assert!(predict_zero_shot(&table, handle, Some(b"text\0"), Some(&labels), rank).is_none());
    assert!(predict_zero_shot(&table, handle, Some(b"text\0"), None, rank).is_none());
}

#[test]
fn zero_shot_unreadable_labels_are_left_out() {
    let (table, handle) = table_with_model();
    let labels: [Option<&[u8]>; 4] = [
        Some(b"keep\0"),
        None,
        Some(b"bad\xff\0"),
        Some(b"also keep\0"),
    ];
    let mut seen: Vec<String> = Vec::new();
    let mut limit = 0usize;
    let result = predict_zero_shot(
        &table,
        handle,
        Some(b"text\0"),
        Some(&labels),
        |_: &Stub, _: &str, candidates: &Vec<String>, max_length: usize| {
            seen = candidates.clone();
            limit = max_length;
            Some(Vec::new())
        },
    );
    assert_eq!(seen, vec!["keep".to_string(), "also keep".to_string()]);
    assert_eq!(limit, 128);
    assert_eq!(ZERO_SHOT_MAX_LENGTH, 128);
    let result = result.expect("an empty ranking is no failure");
    assert_eq!(result.count(), 0);
    assert!(result.data().is_none());
}

#[test]
fn zero_shot_decode_labels_keeps_the_callers_order() {
    let labels: [Option<&[u8]>; 5] = [
        Some(b"c\0"),
        Some(b"a\0"),
        Some(b"unterminated"),
        Some(b"b\0"),
        None,
    ];
    assert_eq!(
        decode_labels(&labels),
        vec!["c".to_string(), "a".to_string(), "b".to_string()]
    );
    let none: [Option<&[u8]>; 0] = [];
    assert!(decode_labels(&none).is_empty());
}

#[test]
fn zero_shot_rejects_null_and_unreadable_input() {
    let (mut table, handle) = table_with_model();
    let labels: [Option<&[u8]>; 1] = [Some(b"urgent\0")];
    assert!(predict_zero_shot(&table, handle, None, Some(&labels), rank).is_none());
    assert!(predict_zero_shot(&table, NULL_HANDLE, Some(b"text\0"), Some(&labels), rank).is_none());
    assert!(predict_zero_shot(&table, handle, Some(&[0xff, 0x00]), Some(&labels), rank).is_none());
    assert!(free_zero_shot_model(&mut table, handle));
    assert!(predict_zero_shot(&table, handle, Some(b"text\0"), Some(&labels), rank).is_none());
}

#[test]
fn zero_shot_pipeline_failure_gives_null() {
    let (table, handle) = table_with_model();
    let labels: [Option<&[u8]>; 1] = [Some(b"urgent\0")];
    let result = predict_zero_shot(
        &table,
        handle,
        Some(b"text\0"),
        Some(&labels),
        |_: &Stub, _: &str, _: &Vec<String>, _: usize| None,
    );
    assert!(result.is_none());
    assert!(zero_shot_result(None).is_none());
}

#[test]
fn zero_shot_empty_ranking_is_empty_not_null() {
    let result = zero_shot_result(Some(Vec::new())).unwrap();
    assert_eq!(result.count(), 0);
    assert!(result.data().is_none());
    assert_eq!(
        free_zero_shot_result(Some(result)),
        Reclaimed {
            texts: 0,
            arrays: 0,
            boxes: 1
        }
    );
}

#[test]
fn zero_shot_from_files_falls_back_to_the_default() {
    let mut table: HandleTable<ZeroShotClassificationModelWrapper<Stub>> = HandleTable::new();
    let handle = new_zero_shot_model_from_files(&mut table, None, None, None, None, -1, || {
        Ok::<Stub, String>(Stub)
    });
    assert_eq!(handle, 1);
    let failed = new_zero_shot_model(&mut table, || Err::<Stub, String>("no".to_string()));
    assert_eq!(failed, NULL_HANDLE);
}

#[test]
fn zero_shot_free_of_null_is_a_no_op() {
    let (mut table, _) = table_with_model();
    assert!(!free_zero_shot_model(&mut table, NULL_HANDLE));
    assert_eq!(
        free_zero_shot_result(None),
        Reclaimed {
            texts: 0,
            arrays: 0,
            boxes: 0
        }
    );
}
