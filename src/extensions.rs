//! The extension members of a problem: JSON values by name, none of them
//! under a reserved name.
use vstd::prelude::*;
use serde_json::{Map as JsonObject, Value};
use crate::json::{json_members, new_object, object_get, object_insert, object_keys};

verus! {

/// Whether `k` names one of the fixed members of a problem.
pub open spec fn is_fixed_member(k: Seq<char>) -> bool {
    k == "type"@ || k == "status"@ || k == "title"@ || k == "detail"@ || k == "instance"@
}

/// Whether `k` can never name an extension member: a fixed member, or the
/// name of the extension container itself.
pub open spec fn is_reserved_key(k: Seq<char>) -> bool {
    is_fixed_member(k) || k == "additional_fields"@
}

/// Whether a map of extension members holds no reserved name.
pub open spec fn extensions_wf(m: Map<Seq<char>, Value>) -> bool {
    forall|k: Seq<char>| #[trigger] m.contains_key(k) ==> !is_reserved_key(k)
}

/// The reserved names differ from one another.
pub proof fn lemma_reserved_names_distinct()
    ensures
        "type"@ != "status"@,
        "type"@ != "title"@,
        "type"@ != "detail"@,
        "type"@ != "instance"@,
        "type"@ != "additional_fields"@,
        "status"@ != "title"@,
        "status"@ != "detail"@,
        "status"@ != "instance"@,
        "status"@ != "additional_fields"@,
        "title"@ != "detail"@,
        "title"@ != "instance"@,
        "title"@ != "additional_fields"@,
        "detail"@ != "instance"@,
        "detail"@ != "additional_fields"@,
        "instance"@ != "additional_fields"@,
{
    reveal_strlit("type");
    reveal_strlit("status");
    reveal_strlit("title");
    reveal_strlit("detail");
    reveal_strlit("instance");
    reveal_strlit("additional_fields");
    assert("status"@[0] != "detail"@[0]);
    assert("title"@[2] != "type"@[2]);
    assert("instance"@.len() != "additional_fields"@.len());
}

/// Whether `k` is a reserved name.
pub fn reserved_key(k: &str) -> (r: bool)
    ensures
        r == is_reserved_key(k@),
{
    let k = String::from_str(k);
    let r = k == String::from_str("type") || k == String::from_str("status") || k
        == String::from_str("title") || k == String::from_str("detail") || k == String::from_str(
        "instance",
    ) || k == String::from_str("additional_fields");
    r
}

/// Extension members by name.
#[derive(Debug)]
pub struct Extensions {
    members: JsonObject<String, Value>,
}

impl View for Extensions {
    type V = Map<Seq<char>, Value>;

    closed spec fn view(&self) -> Map<Seq<char>, Value> {
        json_members(self.members)
    }
}

impl Clone for Extensions {
    fn clone(&self) -> (r: Extensions)
        ensures
            r@ == self@,
    {
        proof {
            use_type_invariant(self);
        }
        Extensions { members: self.members.clone() }
    }
}

impl Extensions {
    #[verifier::type_invariant]
    spec fn inv(self) -> bool {
        extensions_wf(json_members(self.members))
    }

    /// No extension members.
    pub fn new() -> (r: Extensions)
        ensures
            r@ == Map::<Seq<char>, Value>::empty(),
    {
        let members = new_object();
        assert(json_members(members) =~= Map::<Seq<char>, Value>::empty());
        Extensions { members }
    }

    /// Adds `v` under `k`, or replaces the value there.
    pub fn insert(&mut self, k: String, v: Value)
        requires
            !is_reserved_key(k@),
        ensures
            final(self)@ == old(self)@.insert(k@, v),
    {
        proof {
            use_type_invariant(&*self);
        }
        let mut members = new_object();
        std::mem::swap(&mut members, &mut self.members);
        object_insert(&mut members, k, v);
        self.members = members;
    }

    /// The value under `k`, if there is one.
    pub fn get(&self, k: &str) -> (r: Option<&Value>)
        ensures
            r is Some <==> self@.contains_key(k@),
            r matches Some(v) ==> self@[k@] == *v,
            extensions_wf(self@),
    {
        proof {
            use_type_invariant(self);
        }
        object_get(&self.members, k)
    }

    /// The names of all members, each once.
    pub fn keys(&self) -> (r: Vec<String>)
        ensures
            forall|i: int| 0 <= i < r@.len() ==> #[trigger] self@.contains_key(r@[i]@),
            forall|i: int, j: int|
                0 <= i < r@.len() && 0 <= j < r@.len() && i != j ==> r@[i]@ != r@[j]@,
            forall|k: Seq<char>|
                #[trigger] self@.contains_key(k) ==> exists|i: int| 0 <= i < r@.len() && r@[i]@ == k,
            extensions_wf(self@),
    {
        proof {
            use_type_invariant(self);
        }
        object_keys(&self.members)
    }

    /// A JSON object with the same members.
    pub fn to_object(&self) -> (r: JsonObject<String, Value>)
        ensures
            json_members(r) == self@,
            extensions_wf(self@),
    {
        proof {
            use_type_invariant(self);
        }
        self.members.clone()
    }
}

} // verus!
