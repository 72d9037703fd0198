//! The model architectures that a caller can name by an integer code.

use vstd::prelude::*;

verus! {

/// A model architecture.
#[derive(Clone, Copy, Debug, PartialEq, Eq)]
pub enum ModelType {
    Bert,
    DistilBert,
    Roberta,
    XLMRoberta,
    Electra,
    Albert,
    XLNet,
    Bart,
    Marian,
    T5,
    GPT2,
}

impl ModelType {
    /// The code by which a caller names the architecture.
    pub open spec fn code(self) -> int {
        match self {
            ModelType::Bert => 0,
            ModelType::DistilBert => 1,
            ModelType::Roberta => 2,
            ModelType::XLMRoberta => 3,
            ModelType::Electra => 4,
            ModelType::Albert => 5,
            ModelType::XLNet => 6,
            ModelType::Bart => 7,
            ModelType::Marian => 8,
            ModelType::T5 => 9,
            ModelType::GPT2 => 10,
        }
    }
}

/// Whether an integer is the code of an architecture.
pub open spec fn is_model_type_code(t: int) -> bool {
    0 <= t <= 10
}

/// The architecture that a code names. An integer that is no code names
/// `Bert`.
pub fn model_type_from_int(t: i32) -> (model_type: ModelType)
    ensures
        is_model_type_code(t as int) ==> model_type.code() == t,
        !is_model_type_code(t as int) ==> model_type == ModelType::Bert,
{
    match t {
        0 => ModelType::Bert,
        1 => ModelType::DistilBert,
        2 => ModelType::Roberta,
        3 => ModelType::XLMRoberta,
        4 => ModelType::Electra,
        5 => ModelType::Albert,
        6 => ModelType::XLNet,
        7 => ModelType::Bart,
        8 => ModelType::Marian,
        9 => ModelType::T5,
        10 => ModelType::GPT2,
        _ => ModelType::Bert,
    }
}

/// No two architectures share a code.
pub proof fn lemma_codes_distinct(a: ModelType, b: ModelType)
    ensures
        a.code() == b.code() ==> a == b,
        is_model_type_code(a.code()),
{
}

} // verus!
