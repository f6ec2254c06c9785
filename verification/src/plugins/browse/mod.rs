//! What is asked of the `Browse` plugin, which fetches pages for the others.

use vstd::prelude::*;
use crate::payload::{Encode, Payload};

verus! {

/// A page to fetch: its address and the parameters of the query.
#[derive(Debug, Clone, PartialEq, Eq)]
pub struct BrowseRequest {
    pub url: String,
    pub params: Vec<(String, String)>,
}

/// Whether `p` is the list of the two texts of `pair`.
pub open spec fn encodes_pair(pair: (String, String), p: Payload) -> bool {
    &&& p matches Payload::List(two)
    &&& two@.len() == 2
    &&& two@[0] == Payload::Text(pair.0)
    &&& two@[1] == Payload::Text(pair.1)
}

/// Whether `p` is the list of `pairs`, each as a list of its two texts.
pub open spec fn encodes_pairs(pairs: Seq<(String, String)>, p: Payload) -> bool {
    &&& p matches Payload::List(items)
    &&& items@.len() == pairs.len()
    &&& forall|i: int| 0 <= i < pairs.len() ==> encodes_pair(pairs[i], #[trigger] items@[i])
}

impl Encode for BrowseRequest {
    /// A request is written as a record of two fields: `url`, a text, and
    /// `params`, the list of the parameters.
    open spec fn encodes(&self, p: Payload) -> bool {
        &&& p matches Payload::Record(fields)
        &&& fields@.len() == 2
        &&& fields@[0].0@ == "url"@
        &&& fields@[0].1 == Payload::Text(self.url)
        &&& fields@[1].0@ == "params"@
        &&& encodes_pairs(self.params@, fields@[1].1)
    }

    fn encode(&self) -> (p: Payload) {
        let mut items: Vec<Payload> = Vec::new();
        let mut i: usize = 0;
        while i < self.params.len()
            invariant
                i <= self.params.len(),
                items@.len() == i,
                forall|j: int| 0 <= j < i ==> encodes_pair(self.params@[j], #[trigger] items@[j]),
            decreases self.params.len() - i,
        {
            let mut two: Vec<Payload> = Vec::new();
            two.push(Payload::Text(self.params[i].0.clone()));
            two.push(Payload::Text(self.params[i].1.clone()));
            items.push(Payload::List(two));
            i += 1;
        }
        let mut fields: Vec<(String, Payload)> = Vec::new();
        fields.push(("url".to_string(), Payload::Text(self.url.clone())));
        fields.push(("params".to_string(), Payload::List(items)));
        Payload::Record(fields)
    }
}

} // verus!
