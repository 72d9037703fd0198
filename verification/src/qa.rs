//! Question answering: a question and a context go in, a ranked list of
//! answer spans of the context comes out.

use crate::flat::{
    exports, first_batch, footprint_of, release_flat, text_of, Export, FlatResult, Record,
};
use crate::handle::{HandleTable, NULL_HANDLE};
use crate::ledger::Reclaimed;
use crate::text::{
    borrowed_text, cstr_to_string, exported, release_text, string_to_cstr, OwnedText,
};
use libc::size_t;
use vstd::prelude::*;

verus! {

/// The number of answers that the pipeline is asked for.
pub const QA_TOP_K: i64 = 1;

/// The cap that goes to the pipeline with every question, beside the number
/// of answers, on what it takes up at once for an answer.
pub const QA_SPAN_LIMIT: usize = 32;

/// The box around a question answering pipeline.
#[derive(Debug)]
pub struct QAModelWrapper<M> {
    pub model: M,
}

/// One answer as the pipeline gives it: a span `[start, end)` of the context
/// and its text. The score is the bit pattern of a 32-bit float.
#[derive(Debug)]
pub struct Answer {
    pub score: u32,
    pub start: usize,
    pub end: usize,
    pub answer: String,
}

/// One answer as the caller reads it.
#[derive(Debug)]
pub struct QAAnswer {
    pub score: u32,
    pub start: size_t,
    pub end: size_t,
    pub answer: Option<OwnedText>,
}

/// What the caller reads in a [`QAAnswer`].
pub struct QAAnswerShape {
    pub score: u32,
    pub start: size_t,
    pub end: size_t,
    pub answer: Option<Seq<char>>,
}

/// The ranked answers to one question.
pub type QAResult = FlatResult<QAAnswer>;

impl Record for QAAnswer {
    type Shape = QAAnswerShape;

    open spec fn shape(&self) -> QAAnswerShape {
        QAAnswerShape {
            score: self.score,
            start: self.start,
            end: self.end,
            answer: text_of(self.answer),
        }
    }

    open spec fn owned_texts(&self) -> nat {
        if self.answer is Some {
            1
        } else {
            0
        }
    }

    open spec fn texts_in(shape: QAAnswerShape) -> nat {
        if shape.answer is Some {
            1
        } else {
            0
        }
    }

    proof fn lemma_owns_what_is_read(&self) {
    }

    fn release(self) -> (texts: u8) {
        let reclaimed = release_text(self.answer);
        if reclaimed.texts == 0 {
            0
        } else {
            1
        }
    }
}

impl Export for Answer {
    type Record = QAAnswer;

    open spec fn exported(&self) -> QAAnswerShape {
        QAAnswerShape {
            score: self.score,
            start: self.start,
            end: self.end,
            answer: exported(self.answer@),
        }
    }

    fn export(&self) -> (record: QAAnswer) {
        QAAnswer {
            score: self.score,
            start: self.start,
            end: self.end,
            answer: string_to_cstr(self.answer.as_str()),
        }
    }
}

/// What goes to the pipeline for one question.
pub struct QaRequest {
    pub question: Seq<char>,
    pub context: Seq<char>,
}

/// The question and the context that go to the pipeline, or `None` where the
/// call is rejected before the pipeline is touched: one of the two is null or
/// cannot be read.
pub open spec fn qa_request(question: Option<&[u8]>, context: Option<&[u8]>) -> Option<QaRequest> {
    match (borrowed_text(question), borrowed_text(context)) {
        (Some(question), Some(context)) => Some(QaRequest { question, context }),
        _ => None,
    }
}

/// The result for the answers of the pipeline: one record for each answer to
/// the first question, in the pipeline's order.
pub open spec fn qa_returned(answers: Vec<Vec<Answer>>, result: QAResult) -> bool {
    &&& result.well_formed()
    &&& result@.len() == first_batch(answers@).len()
    &&& result.shapes() == exports(first_batch(answers@))
}

/// Flattens the answers of the pipeline for the caller.
pub fn qa_result(answers: &Vec<Vec<Answer>>) -> (result: QAResult)
    ensures
        qa_returned(*answers, result),
{
    FlatResult::collect_first(answers)
}

/// The pipeline where its construction succeeded, in its box.
pub open spec fn boxed_qa_model<M, E>(outcome: Result<M, E>) -> Option<QAModelWrapper<M>> {
    match outcome {
        Ok(model) => Some(QAModelWrapper { model }),
        Err(_) => None,
    }
}

/// Creates a question answering pipeline with `construct` and returns its
/// handle, or null where the construction failed.
pub fn new_qa_model<M, E, C: FnOnce() -> Result<M, E>>(
    table: &mut HandleTable<QAModelWrapper<M>>,
    construct: C,
) -> (handle: usize)
    requires
        call_requires(construct, ()),
    ensures
        exists|outcome: Result<M, E>|
            call_ensures(construct, (), outcome) && old(table).created(
                final(table),
                boxed_qa_model(outcome),
                handle,
            ),
{
    let outcome = construct();
    let ghost constructed = outcome;
    let built = match outcome {
        Ok(model) => Some(QAModelWrapper { model }),
        Err(_) => None,
    };
    proof {
        assert(built == boxed_qa_model(constructed));
    }
    table.create(built)
}

/// Creates a question answering pipeline from custom files. Loading custom
/// weights is an extension point: the paths and the model type are accepted
/// and the pipeline is created as [`new_qa_model`] does.
pub fn new_qa_model_from_files<M, E, C: FnOnce() -> Result<M, E>>(
    table: &mut HandleTable<QAModelWrapper<M>>,
    _model_path: Option<&[u8]>,
    _config_path: Option<&[u8]>,
    _vocab_path: Option<&[u8]>,
    _merges_path: Option<&[u8]>,
    _model_type: i32,
    construct: C,
) -> (handle: usize)
    requires
        call_requires(construct, ()),
    ensures
        exists|outcome: Result<M, E>|
            call_ensures(construct, (), outcome) && old(table).created(
                final(table),
                boxed_qa_model(outcome),
                handle,
            ),
{
    new_qa_model(table, construct)
}

/// Answers a question about a context. A handle that is not live and a
/// question or context that cannot be read give null without running the
/// pipeline. Otherwise `run` gets the pipeline, the question, the context and
/// the two bounds, and its answers to the question are flattened; a pipeline
/// that finds no answer gives a result with count zero, not null.
pub fn predict_qa<M, F>(
    table: &HandleTable<QAModelWrapper<M>>,
    wrapper: usize,
    question: Option<&[u8]>,
    context: Option<&[u8]>,
    run: F,
) -> (result: Option<QAResult>) where F: FnOnce(&M, String, String, i64, usize) -> Vec<Vec<Answer>>
    requires
        forall|model: &M, question: String, context: String, top: i64, limit: usize|
            call_requires(run, (model, question, context, top, limit)),
    ensures
        wrapper == NULL_HANDLE || question is None || context is None ==> result is None,
        !table@.contains_key(wrapper) || qa_request(question, context) is None ==> result is None,
        table@.contains_key(wrapper) && qa_request(question, context) is Some ==> exists|
            asked: String,
            about: String,
            answers: Vec<Vec<Answer>>,
        |
            {
                &&& asked@ == qa_request(question, context)->0.question
                &&& about@ == qa_request(question, context)->0.context
                &&& call_ensures(
                    run,
                    (&table@[wrapper].model, asked, about, QA_TOP_K, QA_SPAN_LIMIT),
                    answers,
                )
                &&& result is Some
                &&& qa_returned(answers, result->0)
            },
{
    proof {
        table.lemma_consistent();
    }
    let boxed = match table.get(wrapper) {
        None => {
            return None;
        },
        Some(boxed) => boxed,
    };
    let asked = match cstr_to_string(question) {
        None => {
            return None;
        },
        Some(asked) => asked,
    };
    let about = match cstr_to_string(context) {
        None => {
            return None;
        },
        Some(about) => about,
    };
    let answers = run(&boxed.model, asked, about, QA_TOP_K, QA_SPAN_LIMIT);
    Some(qa_result(&answers))
}

/// Destroys the pipeline behind a handle and says whether there was one.
/// Null and a handle that is not live are accepted and release nothing.
pub fn free_qa_model<M>(
    table: &mut HandleTable<QAModelWrapper<M>>,
    wrapper: usize,
) -> (released: bool)
    ensures
        old(table).destroyed(final(table), wrapper, released),
{
    table.destroy(wrapper)
}

/// Releases a result of [`predict_qa`]: the text of each of its records, the
/// buffer and the box. Null is accepted and releases nothing.
pub fn free_qa_result(result: Option<QAResult>) -> (reclaimed: Reclaimed)
    ensures
        reclaimed@ == footprint_of(result),
{
    release_flat(result)
}

} // verus!
