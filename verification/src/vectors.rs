//! The vector store's rules: which embedding size to use, and when a batch
//! of chunks or a query vector is refused.
use vstd::prelude::*;

use crate::text::{
    concat, contains, decimal, parse_usize, parses_as_usize, str_contains, str_to_lowercase,
    digits_value, unsigned_digits, u64_to_decimal, unicode_lower,
};

verus! {

broadcast use vstd::string::group_string_axioms;

/// Embedding size used when nothing else is configured (768, as for
/// bge-base-en-v1.5).
pub const DEFAULT_EMBEDDING_DIM: usize = 768;

/// Errors of the vector store.
#[derive(Debug)]
pub enum VectorError {
    /// Error of the underlying database, held as its text.
    Sqlite(String),
    /// A vector of the wrong size.
    DimensionMismatch { expected: usize, actual: usize },
    Serialization(String),
    Database(String),
}

/// The embedding size suggested by a model name: 1024 for a large model,
/// 768 for a base one, 384 for a small or MiniLM one, the default
/// otherwise.  Names are compared in lower case.
pub open spec fn model_dim(model: Seq<char>) -> usize {
    let m = unicode_lower(model);
    if contains(m, "large"@) {
        1024
    } else if contains(m, "base"@) {
        768
    } else if contains(m, "small"@) || contains(m, "minilm"@) {
        384
    } else {
        768
    }
}

/// The embedding size from configuration: an explicit size that reads as a
/// number wins; otherwise the model name decides; without either, the
/// default.
pub open spec fn configured_dim(dim_var: Option<Seq<char>>, model_var: Option<Seq<char>>) -> usize {
    match dim_var {
        Some(d) if parses_as_usize(d) => digits_value(unsigned_digits(d)) as usize,
        _ => match model_var {
            Some(m) => model_dim(m),
            None => 768,
        },
    }
}

/// The embedding size a model name suggests: a large model gets 1024, else
/// a base model 768, else a small or MiniLM model 384, and any other model
/// the default 768; the answer is always one of these three sizes.
pub proof fn law_model_dims(model: Seq<char>)
    ensures
        ({
            let m = unicode_lower(model);
            &&& contains(m, "large"@) ==> model_dim(model) == 1024
            &&& !contains(m, "large"@) && contains(m, "base"@) ==> model_dim(model) == 768
            &&& !contains(m, "large"@) && !contains(m, "base"@) && (contains(m, "small"@) || contains(
                m,
                "minilm"@,
            )) ==> model_dim(model) == 384
            &&& !contains(m, "large"@) && !contains(m, "base"@) && !contains(m, "small"@) && !contains(
                m,
                "minilm"@,
            ) ==> model_dim(model) == DEFAULT_EMBEDDING_DIM
            &&& model_dim(model) == 384 || model_dim(model) == 768 || model_dim(model) == 1024
        }),
{
}

/// An explicit size that reads as a number is used as it is; otherwise the
/// model name decides, and with neither setting the default size is used.
pub proof fn law_configured_dims(dim_var: Option<Seq<char>>, model_var: Option<Seq<char>>)
    ensures
        ({
            let explicit = dim_var is Some && parses_as_usize(dim_var->0);
            &&& explicit ==> configured_dim(dim_var, model_var) == digits_value(unsigned_digits(dim_var->0))
            &&& !explicit && model_var is Some ==> configured_dim(dim_var, model_var) == model_dim(model_var->0)
            &&& !explicit && model_var is None ==> configured_dim(dim_var, model_var) == DEFAULT_EMBEDDING_DIM
        }),
{
}

/// The embedding size from the values of the size and model settings (none
/// when a setting is absent).
pub fn embedding_dim_from(dim_var: Option<&str>, model_var: Option<&str>) -> (r: usize)
    ensures
        r == configured_dim(
            match dim_var {
                Some(d) => Some(d@),
                None => None,
            },
            match model_var {
                Some(m) => Some(m@),
                None => None,
            },
        ),
{
    if let Some(d) = dim_var {
        if let Some(n) = parse_usize(d) {
            return n;
        }
    }
    match model_var {
        Some(m) => {
            let lower = str_to_lowercase(m);
            let l = lower.as_str();
            if str_contains(l, "large") {
                1024
            } else if str_contains(l, "base") {
                768
            } else if str_contains(l, "small") || str_contains(l, "minilm") {
                384
            } else {
                DEFAULT_EMBEDDING_DIM
            }
        },
        None => DEFAULT_EMBEDDING_DIM,
    }
}

/// Check a batch of chunks and their embeddings before storing them
/// (given their number and the lengths of the embeddings): an empty batch
/// stores nothing (`Ok(false)`); the counts must agree; every embedding
/// must have the store's size, else the first wrong one is reported;
/// otherwise the batch is stored (`Ok(true)`).
pub fn check_insert_batch(chunk_count: usize, embedding_lens: &Vec<usize>, dim: usize) -> (r: Result<bool, VectorError>)
    ensures
        chunk_count == 0 || embedding_lens@.len() == 0 ==> r matches Ok(false),
        chunk_count != 0 && embedding_lens@.len() != 0 && chunk_count != embedding_lens@.len() ==> (
        r matches Err(VectorError::Database(m)) && m@ == "Chunks ("@ + decimal(chunk_count as nat)
            + ") and embeddings ("@ + decimal(embedding_lens@.len() as nat) + ") count mismatch"@),
        chunk_count != 0 && chunk_count == embedding_lens@.len() ==> match r {
            Ok(b) => b && forall|i: int| 0 <= i < embedding_lens@.len() ==> embedding_lens@[i] == dim,
            Err(VectorError::DimensionMismatch { expected, actual }) => expected == dim && exists|i: int|
                0 <= i < embedding_lens@.len() && embedding_lens@[i] == actual && actual != dim
                    && forall|j: int| 0 <= j < i ==> embedding_lens@[j] == dim,
            Err(_) => false,
        },
{
    if chunk_count == 0 || embedding_lens.len() == 0 {
        return Ok(false);
    }
    if chunk_count != embedding_lens.len() {
        let a = u64_to_decimal(chunk_count as u64);
        let b = u64_to_decimal(embedding_lens.len() as u64);
        assert((chunk_count as u64) as nat == chunk_count as nat);
        assert((embedding_lens.len() as u64) as nat == embedding_lens@.len());
        let m1 = concat("Chunks (", a.as_str());
        let m2 = concat(m1.as_str(), ") and embeddings (");
        let m3 = concat(m2.as_str(), b.as_str());
        let m4 = concat(m3.as_str(), ") count mismatch");
        return Err(VectorError::Database(m4));
    }
    let mut i: usize = 0;
    while i < embedding_lens.len()
        invariant
            i <= embedding_lens@.len(),
            chunk_count == embedding_lens@.len(),
            chunk_count != 0,
            forall|j: int| 0 <= j < i ==> embedding_lens@[j] == dim,
        decreases embedding_lens.len() - i,
    {
        if embedding_lens[i] != dim {
            assert(0 <= i < embedding_lens@.len() && embedding_lens@[i as int] == embedding_lens[i as int]);
            return Err(VectorError::DimensionMismatch { expected: dim, actual: embedding_lens[i] });
        }
        i = i + 1;
    }
    Ok(true)
}

/// Check the size of a query vector.
pub fn check_query_dim(query_len: usize, dim: usize) -> (r: Result<(), VectorError>)
    ensures
        query_len == dim ==> r is Ok,
        query_len != dim ==> (r matches Err(VectorError::DimensionMismatch { expected, actual })
            && expected == dim && actual == query_len),
{
    if query_len != dim {
        Err(VectorError::DimensionMismatch { expected: dim, actual: query_len })
    } else {
        Ok(())
    }
}

/// The statement creating the vector table for embeddings of `dim` numbers.
pub fn vec_table_statement(dim: usize) -> (r: String)
    ensures
        r@ == "CREATE VIRTUAL TABLE IF NOT EXISTS vec_chunks USING vec0(\n                chunk_id TEXT PRIMARY KEY,\n                embedding float["@
            + decimal(dim as nat) + "]\n            )"@,
{
    let digits = u64_to_decimal(dim as u64);
    let head = concat(
        "CREATE VIRTUAL TABLE IF NOT EXISTS vec_chunks USING vec0(\n                chunk_id TEXT PRIMARY KEY,\n                embedding float[",
        digits.as_str(),
    );
    concat(head.as_str(), "]\n            )")
}

} // verus!
