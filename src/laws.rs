//! Properties that relate encoding and decoding.
use vstd::prelude::*;
use serde_json::Value;
use crate::extensions::lemma_reserved_names_distinct;
use crate::json::json_u64;
use crate::problem::{decode_members, encodes, extensions_decoded, DecodeError, ProblemView};
use crate::status::valid_status;

verus! {

/// Decoding the JSON object form of a well-formed problem gives back that
/// problem, every extension member with the same value included.
pub proof fn lemma_extensions_round_trip(p: ProblemView, m: Map<Seq<char>, Value>)
    requires
        p.wf(),
        encodes(p, m),
    ensures
        decode_members(m) == Ok::<ProblemView, DecodeError>(p),
{
    lemma_reserved_names_distinct();
    assert(extensions_decoded(m) =~= p.extensions);
    let q = decode_members(m)->Ok_0;
    assert(q.type_url == p.type_url);
    assert(q.status == p.status);
    assert(q == p);
}

/// Decoding the JSON object form of a problem without extensions, whose
/// status (if any) is valid, gives back that problem.
pub proof fn lemma_round_trip(p: ProblemView, m: Map<Seq<char>, Value>)
    requires
        p.wf(),
        p.extensions == Map::<Seq<char>, Value>::empty(),
        encodes(p, m),
    ensures
        decode_members(m) == Ok::<ProblemView, DecodeError>(p),
{
    lemma_extensions_round_trip(p, m);
}

/// A `status` member that is no valid status code (out of range, or not an
/// unsigned integer at all) is read as if it were absent: the rest of the
/// object decodes as it would without it, and the status is `None`.
pub proof fn lemma_invalid_status_ignored(m: Map<Seq<char>, Value>)
    requires
        m.contains_key("status"@),
        !(json_u64(m["status"@]) matches Some(n) && valid_status(n as int)),
    ensures
        decode_members(m) == decode_members(m.remove("status"@)),
        decode_members(m) matches Ok(p) ==> p.status is None,
{
    lemma_reserved_names_distinct();
    let r = m.remove("status"@);
    assert(extensions_decoded(m) =~= extensions_decoded(r));
}

/// The JSON object form of a problem has no member for a field that is
/// absent: no `null` stands in for it.
pub proof fn lemma_absent_fields_omitted(p: ProblemView, m: Map<Seq<char>, Value>)
    requires
        encodes(p, m),
    ensures
        p.type_url is None ==> !m.contains_key("type"@),
        p.status is None ==> !m.contains_key("status"@),
        p.title is None ==> !m.contains_key("title"@),
        p.detail is None ==> !m.contains_key("detail"@),
        p.instance is None ==> !m.contains_key("instance"@),
{
}

} // verus!
