use super::IndexModel;
use crate::models::index_model::index_model_from_openapi;
use crate::openapi::models::IndexList as OpenApiIndexList;
use vstd::prelude::*;

verus! {

/// The list of indexes in a project.
#[derive(Clone, Default, Debug, PartialEq)]
pub struct IndexList {
    /// The indexes.
    pub indexes: Option<Vec<IndexModel>>,
}

impl IndexList {
    /// The SDK's list for the API's list: each index converted, in order.
    pub fn from_openapi(index_list: OpenApiIndexList) -> (r: IndexList)
        ensures
            index_list.indexes is None <==> r.indexes is None,
            index_list.indexes matches Some(src) ==> r.indexes matches Some(dst) && dst.len() == src.len()
                && forall|i: int| 0 <= i < src.len() ==> dst[i] == index_model_from_openapi(#[trigger] src[i]),
    {
        match index_list.indexes {
            None => IndexList { indexes: None },
            Some(src) => {
                let ghost s = src@;
                let mut src = src;
                let mut rev: Vec<IndexModel> = Vec::new();
                while src.len() > 0
                    invariant
                        src@.len() + rev@.len() == s.len(),
                        forall|i: int| 0 <= i < src@.len() ==> src@[i] == s[i],
                        forall|j: int| 0 <= j < rev@.len() ==> rev@[j] == index_model_from_openapi(#[trigger] s[s.len() - 1 - j]),
                    decreases src.len(),
                {
                    let m = src.pop().unwrap();
                    rev.push(IndexModel::from(m));
                }
                let mut dst: Vec<IndexModel> = Vec::new();
                while rev.len() > 0
                    invariant
                        rev@.len() + dst@.len() == s.len(),
                        forall|j: int| 0 <= j < rev@.len() ==> rev@[j] == index_model_from_openapi(#[trigger] s[s.len() - 1 - j]),
                        forall|i: int| 0 <= i < dst@.len() ==> dst@[i] == index_model_from_openapi(#[trigger] s[i]),
                    decreases rev.len(),
                {
                    let ghost k = rev@.len() - 1;
                    assert(rev@[k] == index_model_from_openapi(s[s.len() - 1 - k]));
                    let m = rev.pop().unwrap();
                    dst.push(m);
                    assert(dst@[dst@.len() - 1] == index_model_from_openapi(s[dst@.len() - 1]));
                }
                IndexList { indexes: Some(dst) }
            },
        }
    }
}

} // verus!
