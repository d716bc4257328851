use crate::models::cloud::ParseError;
use crate::utils::text::str_eq;
use vstd::prelude::*;

verus! {

/// Vector type of an index.
#[derive(Debug, Clone, Copy, PartialEq, Eq, Structural)]
pub enum VectorType {
    /// Dense vector type
    Dense,
    /// Sparse vector type
    Sparse,
    /// Text (full-text search) type
    Text,
    /// Any vector type this client version does not know about.
    Unknown,
}

impl Default for VectorType {
    fn default() -> (r: VectorType)
        ensures
            r == VectorType::Dense,
    {
        VectorType::Dense
    }
}

/// The lowercase name of a vector type.
pub open spec fn vector_type_name(t: VectorType) -> Seq<char> {
    match t {
        VectorType::Dense => "dense"@,
        VectorType::Sparse => "sparse"@,
        VectorType::Text => "text"@,
        VectorType::Unknown => "unknown"@,
    }
}

/// The vector type that a lowercase name names.
pub open spec fn vector_type_named(s: Seq<char>) -> Option<VectorType> {
    if s == "dense"@ {
        Some(VectorType::Dense)
    } else if s == "sparse"@ {
        Some(VectorType::Sparse)
    } else if s == "text"@ {
        Some(VectorType::Text)
    } else if s == "unknown"@ {
        Some(VectorType::Unknown)
    } else {
        None
    }
}

/// The vector type that an index description's name gives: any name this version does not
/// know becomes `Unknown`.
pub open spec fn vector_type_described(s: Seq<char>) -> VectorType {
    match vector_type_named(s) {
        Some(t) => t,
        None => VectorType::Unknown,
    }
}

impl VectorType {
    /// The lowercase name: `dense`, `sparse`, `text` or `unknown`.
    pub fn as_str(&self) -> (r: &'static str)
        ensures
            r@ == vector_type_name(*self),
    {
        match self {
            VectorType::Dense => "dense",
            VectorType::Sparse => "sparse",
            VectorType::Text => "text",
            VectorType::Unknown => "unknown",
        }
    }

    /// The vector type that a lowercase name names.
    pub fn parse(s: &str) -> (r: Result<VectorType, ParseError>)
        ensures
            match vector_type_named(s@) {
                Some(t) => r == Ok::<VectorType, ParseError>(t),
                None => r == Err::<VectorType, ParseError>(ParseError::VariantNotFound),
            },
    {
        if str_eq(s, "dense") {
            Ok(VectorType::Dense)
        } else if str_eq(s, "sparse") {
            Ok(VectorType::Sparse)
        } else if str_eq(s, "text") {
            Ok(VectorType::Text)
        } else if str_eq(s, "unknown") {
            Ok(VectorType::Unknown)
        } else {
            Err(ParseError::VariantNotFound)
        }
    }

    /// The vector type that an index description names; a name this version does not know
    /// gives `Unknown`, so that describing a newer index does not fail.
    pub fn from_described(s: &str) -> (r: VectorType)
        ensures
            r == vector_type_described(s@),
    {
        match VectorType::parse(s) {
            Ok(t) => t,
            Err(_) => VectorType::Unknown,
        }
    }
}

/// A vector type's name names that vector type.
pub proof fn vector_type_name_round_trip(t: VectorType)
    ensures
        vector_type_named(vector_type_name(t)) == Some(t),
        vector_type_described(vector_type_name(t)) == t,
{
    reveal_strlit("dense");
    reveal_strlit("sparse");
    reveal_strlit("text");
    reveal_strlit("unknown");
    assert("dense"@[0] != "sparse"@[0] && "dense"@[0] != "text"@[0] && "dense"@[0] != "unknown"@[0]);
    assert("sparse"@[0] != "text"@[0] && "sparse"@[0] != "unknown"@[0] && "text"@[0] != "unknown"@[0]);
}

/// Every vector type keeps its name: `dense`, `sparse`, `text` or `unknown`, and each name
/// names that vector type back.
pub proof fn vector_types_keep_their_names()
    ensures
        vector_type_name(VectorType::Dense) == "dense"@,
        vector_type_name(VectorType::Sparse) == "sparse"@,
        vector_type_name(VectorType::Text) == "text"@,
        vector_type_name(VectorType::Unknown) == "unknown"@,
        vector_type_named("dense"@) == Some(VectorType::Dense),
        vector_type_named("sparse"@) == Some(VectorType::Sparse),
        vector_type_named("text"@) == Some(VectorType::Text),
        vector_type_named("unknown"@) == Some(VectorType::Unknown),
{
    vector_type_name_round_trip(VectorType::Dense);
    vector_type_name_round_trip(VectorType::Sparse);
    vector_type_name_round_trip(VectorType::Text);
    vector_type_name_round_trip(VectorType::Unknown);
}

} // verus!
