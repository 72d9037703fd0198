//! Zero-shot classification: a text and a list of candidate labels go in, a
//! ranked list of scored labels comes out.

use crate::flat::{exports, footprint_of, release_flat, text_of, Export, FlatResult, Record};
use crate::handle::{HandleTable, NULL_HANDLE};
use crate::ledger::Reclaimed;
use crate::text::{
    borrowed_text, cstr_to_string, exported, release_text, string_to_cstr, OwnedText,
};
use vstd::prelude::*;

verus! {

/// The longest input, in tokens, that the pipeline is asked to consider.
pub const ZERO_SHOT_MAX_LENGTH: usize = 128;

/// The box around a zero-shot classification pipeline.
#[derive(Debug)]
pub struct ZeroShotClassificationModelWrapper<M> {
    pub model: M,
}

/// One label as the pipeline ranks it. The score is the bit pattern of a
/// 64-bit float.
#[derive(Debug)]
pub struct ScoredLabel {
    pub text: String,
    pub score: u64,
}

/// One label as the caller reads it.
#[derive(Debug)]
pub struct ZeroShotLabel {
    pub text: Option<OwnedText>,
    pub score: u64,
}

/// What the caller reads in a [`ZeroShotLabel`].
pub struct ZeroShotLabelShape {
    pub text: Option<Seq<char>>,
    pub score: u64,
}

/// The ranked labels of one classification.
pub type ZeroShotResult = FlatResult<ZeroShotLabel>;

impl Record for ZeroShotLabel {
    type Shape = ZeroShotLabelShape;

    open spec fn shape(&self) -> ZeroShotLabelShape {
        ZeroShotLabelShape { text: text_of(self.text), score: self.score }
    }

    open spec fn owned_texts(&self) -> nat {
        if self.text is Some {
            1
        } else {
            0
        }
    }

    open spec fn texts_in(shape: ZeroShotLabelShape) -> nat {
        if shape.text is Some {
            1
        } else {
            0
        }
    }

    proof fn lemma_owns_what_is_read(&self) {
    }

    fn release(self) -> (texts: u8) {
        let reclaimed = release_text(self.text);
        if reclaimed.texts == 0 {
            0
        } else {
            1
        }
    }
}

impl Export for ScoredLabel {
    type Record = ZeroShotLabel;

    open spec fn exported(&self) -> ZeroShotLabelShape {
        ZeroShotLabelShape { text: exported(self.text@), score: self.score }
    }

    fn export(&self) -> (record: ZeroShotLabel) {
        ZeroShotLabel { text: string_to_cstr(self.text.as_str()), score: self.score }
    }
}

/// The text of a candidate label, where the label can be read.
pub open spec fn label_text<'a>() -> spec_fn(Option<&'a [u8]>) -> Option<Seq<char>> {
    |label: Option<&'a [u8]>| borrowed_text(label)
}

/// The candidate labels that can be read, in the caller's order.
pub open spec fn decoded_labels(labels: Seq<Option<&[u8]>>) -> Seq<Seq<char>> {
    labels.filter_map(label_text())
}

/// The texts of a sequence of strings.
pub open spec fn texts(strings: Seq<String>) -> Seq<Seq<char>> {
    strings.map_values(|string: String| string@)
}

/// What goes to the pipeline for one classification.
pub struct ZeroShotRequest {
    pub text: Seq<char>,
    pub labels: Seq<Seq<char>>,
}

/// The text and the candidate labels that go to the pipeline, or `None`
/// where the call is rejected before the pipeline is touched: the text is
/// null or cannot be read, the label array is null, or no label of it can be
/// read.
pub open spec fn zero_shot_request(
    text: Option<&[u8]>,
    labels: Option<&[Option<&[u8]>]>,
) -> Option<ZeroShotRequest> {
    match (borrowed_text(text), labels) {
        (Some(text), Some(labels)) => if decoded_labels(labels@).len() > 0 {
            Some(ZeroShotRequest { text, labels: decoded_labels(labels@) })
        } else {
            None
        },
        _ => None,
    }
}

/// The result for an outcome of the pipeline: null where the pipeline
/// failed, and otherwise one record for each label it ranked, in its order.
pub open spec fn zero_shot_returned(
    outcome: Option<Vec<ScoredLabel>>,
    result: Option<ZeroShotResult>,
) -> bool {
    match outcome {
        None => result is None,
        Some(ranked) => {
            &&& result is Some
            &&& result->0.well_formed()
            &&& result->0@.len() == ranked@.len()
            &&& result->0.shapes() == exports(ranked@)
        },
    }
}

/// Reads the candidate labels and keeps those that can be read.
pub fn decode_labels(labels: &[Option<&[u8]>]) -> (decoded: Vec<String>)
    ensures
        texts(decoded@) == decoded_labels(labels@),
{
    let mut decoded: Vec<String> = Vec::new();
    let mut i: usize = 0;
    while i < labels.len()
        invariant
            i <= labels.len(),
            texts(decoded@) == decoded_labels(labels@.take(i as int)),
        decreases labels.len() - i,
    {
        let ghost before = decoded@;
        proof {
            labels@.lemma_filter_map_take_succ(label_text(), i as int);
        }
        match cstr_to_string(labels[i]) {
            Some(label) => {
                decoded.push(label);
                proof {
                    assert(texts(decoded@) =~= texts(before) + seq![label@]);
                }
            },
            None => {},
        }
        i += 1;
    }
    proof {
        assert(labels@.take(i as int) =~= labels@);
    }
    decoded
}

/// Flattens the outcome of the pipeline for the caller.
pub fn zero_shot_result(outcome: Option<Vec<ScoredLabel>>) -> (result: Option<ZeroShotResult>)
    ensures
        zero_shot_returned(outcome, result),
{
    match outcome {
        None => None,
        Some(ranked) => Some(FlatResult::collect(&ranked)),
    }
}

/// The pipeline where its construction succeeded, in its box.
pub open spec fn boxed_zero_shot_model<M, E>(outcome: Result<M, E>) -> Option<
    ZeroShotClassificationModelWrapper<M>,
> {
    match outcome {
        Ok(model) => Some(ZeroShotClassificationModelWrapper { model }),
        Err(_) => None,
    }
}

/// Creates a zero-shot classification pipeline with `construct` and returns
/// its handle, or null where the construction failed.
pub fn new_zero_shot_model<M, E, C: FnOnce() -> Result<M, E>>(
    table: &mut HandleTable<ZeroShotClassificationModelWrapper<M>>,
    construct: C,
) -> (handle: usize)
    requires
        call_requires(construct, ()),
    ensures
        exists|outcome: Result<M, E>|
            call_ensures(construct, (), outcome) && old(table).created(
                final(table),
                boxed_zero_shot_model(outcome),
                handle,
            ),
{
    let outcome = construct();
    let ghost constructed = outcome;
    let built = match outcome {
        Ok(model) => Some(ZeroShotClassificationModelWrapper { model }),
        Err(_) => None,
    };
    proof {
        assert(built == boxed_zero_shot_model(constructed));
    }
    table.create(built)
}

/// Creates a zero-shot classification pipeline from custom files. Loading
/// custom weights is an extension point: the paths and the model type are
/// accepted and the pipeline is created as [`new_zero_shot_model`] does.
pub fn new_zero_shot_model_from_files<M, E, C: FnOnce() -> Result<M, E>>(
    table: &mut HandleTable<ZeroShotClassificationModelWrapper<M>>,
    _model_path: Option<&[u8]>,
    _config_path: Option<&[u8]>,
    _vocab_path: Option<&[u8]>,
    _merges_path: Option<&[u8]>,
    _model_type: i32,
    construct: C,
) -> (handle: usize)
    requires
        call_requires(construct, ()),
    ensures
        exists|outcome: Result<M, E>|
            call_ensures(construct, (), outcome) && old(table).created(
                final(table),
                boxed_zero_shot_model(outcome),
                handle,
            ),
{
    new_zero_shot_model(table, construct)
}

/// Classifies a text against the candidate labels. A handle that is not
/// live, a text that cannot be read and a label array without a readable
/// label give null without running the pipeline. Otherwise `run` gets the
/// pipeline, the text, the readable labels and the length limit, and its
/// outcome is flattened.
pub fn predict_zero_shot<M, F>(
    table: &HandleTable<ZeroShotClassificationModelWrapper<M>>,
    wrapper: usize,
    text: Option<&[u8]>,
    labels: Option<&[Option<&[u8]>]>,
    run: F,
) -> (result: Option<ZeroShotResult>) where
    F: FnOnce(&M, &str, &Vec<String>, usize) -> Option<Vec<ScoredLabel>>,

    requires
        forall|model: &M, text: &str, labels: &Vec<String>, limit: usize|
            call_requires(run, (model, text, labels, limit)),
    ensures
        wrapper == NULL_HANDLE || text is None || labels is None ==> result is None,
        !table@.contains_key(wrapper) || zero_shot_request(text, labels) is None ==> result is None,
        table@.contains_key(wrapper) && zero_shot_request(text, labels) is Some ==> exists|
            input: &str,
            candidates: &Vec<String>,
            outcome: Option<Vec<ScoredLabel>>,
        |
            {
                &&& input@ == zero_shot_request(text, labels)->0.text
                &&& texts(candidates@) == zero_shot_request(text, labels)->0.labels
                &&& call_ensures(
                    run,
                    (&table@[wrapper].model, input, candidates, ZERO_SHOT_MAX_LENGTH),
                    outcome,
                )
                &&& zero_shot_returned(outcome, result)
            },
{
    proof {
        table.lemma_consistent();
    }
    let boxed = match table.get(wrapper) {
        None => {
            return None;
        },
        Some(boxed) => boxed,
    };
    let labels = match labels {
        None => {
            return None;
        },
        Some(labels) => labels,
    };
    if labels.len() == 0 {
        return None;
    }
    let input = match cstr_to_string(text) {
        None => {
            return None;
        },
        Some(input) => input,
    };
    let candidates = decode_labels(labels);
    if candidates.len() == 0 {
        return None;
    }
    let outcome = run(&boxed.model, input.as_str(), &candidates, ZERO_SHOT_MAX_LENGTH);
    zero_shot_result(outcome)
}

/// Destroys the pipeline behind a handle and says whether there was one.
/// Null and a handle that is not live are accepted and release nothing.
pub fn free_zero_shot_model<M>(
    table: &mut HandleTable<ZeroShotClassificationModelWrapper<M>>,
    wrapper: usize,
) -> (released: bool)
    ensures
        old(table).destroyed(final(table), wrapper, released),
{
    table.destroy(wrapper)
}

/// Releases a result of [`predict_zero_shot`]: the text of each of its
/// records, the buffer and the box. Null is accepted and releases nothing.
pub fn free_zero_shot_result(result: Option<ZeroShotResult>) -> (reclaimed: Reclaimed)
    ensures
        reclaimed@ == footprint_of(result),
{
    release_flat(result)
}

} // verus!
