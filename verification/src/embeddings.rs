//! Text embeddings: the errors of the embedding engine and the fitting of
//! vectors to the dimension memory stores. Vector components are
//! single-precision values held as bit patterns.
use vstd::prelude::*;
use vstd::string::*;
use crate::ieee::Real;

verus! {

/// Embedding errors.
#[derive(Debug, Clone, PartialEq)]
pub enum EmbeddingError {
    /// The embedding model could not be loaded
    InitFailed(String),
    /// The input text was empty
    EmptyInput,
    /// Embedding failed
    EmbedFailed(String),
    /// The model produced no output
    NoOutput,
}

/// The message text of an embedding error.
pub open spec fn embedding_error_text(e: EmbeddingError) -> Seq<char> {
    match e {
        EmbeddingError::InitFailed(m) => "Failed to initialize embedding model: "@ + m@,
        EmbeddingError::EmptyInput => "Empty input text"@,
        EmbeddingError::EmbedFailed(m) => "Failed to generate embedding: "@ + m@,
        EmbeddingError::NoOutput => "No embedding output generated"@,
    }
}

impl EmbeddingError {
    /// The human-readable message of the error.
    pub fn to_string(&self) -> (s: String)
        ensures
            s@ == embedding_error_text(*self),
    {
        match self {
            EmbeddingError::InitFailed(m) => {
                let mut s = String::from_str("Failed to initialize embedding model: ");
                s.append(m.as_str());
                s
            },
            EmbeddingError::EmptyInput => String::from_str("Empty input text"),
            EmbeddingError::EmbedFailed(m) => {
                let mut s = String::from_str("Failed to generate embedding: ");
                s.append(m.as_str());
                s
            },
            EmbeddingError::NoOutput => String::from_str("No embedding output generated"),
        }
    }
}

/// A vector fitted to `dim` components: cut to its first `dim`, or filled
/// up with zeros.
pub open spec fn fitted(v: Seq<Real>, dim: nat) -> Seq<Real> {
    if v.len() >= dim {
        v.take(dim as int)
    } else {
        v + Seq::new((dim - v.len()) as nat, |i: int| 0u32)
    }
}

/// Fits a vector to `target_dim` components (zero-filling or truncating).
pub fn pad_to_dimension(vector: Vec<Real>, target_dim: usize) -> (r: Vec<Real>)
    ensures
        r@ == fitted(vector@, target_dim as nat),
{
    let mut v = vector;
    if v.len() < target_dim {
        let ghost start = v@;
        while v.len() < target_dim
            invariant
                start.len() <= v@.len() <= target_dim,
                v@ == start + Seq::new((v@.len() - start.len()) as nat, |i: int| 0u32),
            decreases target_dim - v@.len(),
        {
            v.push(0);
            proof {
                assert(v@ =~= start + Seq::new((v@.len() - start.len()) as nat, |i: int| 0u32));
            }
        }
    } else if v.len() > target_dim {
        v.truncate(target_dim);
    }
    proof {
        if vector@.len() >= target_dim {
            assert(v@ =~= fitted(vector@, target_dim as nat));
        }
    }
    v
}

} // verus!
