//! Content-addressed record identity.
//!
//! A record's id is the lower-case hex MD5 digest of its hash input: the raw
//! chunk text when no dedup fields are configured, otherwise the concatenated
//! values of the dedup fields (in their configured order), ignoring the text.
use md5::{Digest, Md5};
use vstd::prelude::*;
use vstd::string::StringExecFns;

use crate::attributes::Attributes;

verus! {

/// Lower-case hex of the MD5 digest of the UTF-8 bytes of a string.
pub uninterp spec fn md5_hex_of(data: Seq<char>) -> Seq<char>;

/// Relies on md-5's `Md5::digest` over the UTF-8 bytes of `data`, written out
/// with generic-array's `LowerHex` (two digits per byte).
#[verifier::external_body]
fn md5_hex(data: &str) -> (r: String)
    ensures
        r@ == md5_hex_of(data@),
{
    format!("{:x}", Md5::digest(data.as_bytes()))
}

/// The views of a sequence of strings.
pub open spec fn string_views(v: Seq<String>) -> Seq<Seq<char>> {
    v.map_values(|s: String| s@)
}

/// `a1` and `a2` hold the same values (or both lack a value) for every one
/// of `fields`.
pub open spec fn agree_on(
    fields: Seq<Seq<char>>,
    a1: Map<Seq<char>, Seq<char>>,
    a2: Map<Seq<char>, Seq<char>>,
) -> bool {
    forall|j: int|
        0 <= j < fields.len() ==> {
            &&& a1.contains_key(#[trigger] fields[j]) == a2.contains_key(fields[j])
            &&& a1.contains_key(fields[j]) ==> a1[fields[j]] == a2[fields[j]]
        }
}

/// Attributes that agree on every dedup field give the same dedup key,
/// whatever else they hold.
pub proof fn lemma_dedup_key_agrees(
    fields: Seq<Seq<char>>,
    a1: Map<Seq<char>, Seq<char>>,
    a2: Map<Seq<char>, Seq<char>>,
)
    requires
        agree_on(fields, a1, a2),
    ensures
        dedup_key(fields, a1) == dedup_key(fields, a2),
    decreases fields.len(),
{
    if fields.len() > 0 {
        let prefix = fields.drop_last();
        assert forall|j: int| 0 <= j < prefix.len() implies {
            &&& a1.contains_key(#[trigger] prefix[j]) == a2.contains_key(prefix[j])
            &&& a1.contains_key(prefix[j]) ==> a1[prefix[j]] == a2[prefix[j]]
        } by {
            assert(prefix[j] == fields[j]);
        }
        lemma_dedup_key_agrees(prefix, a1, a2);
        assert(fields.last() == fields[fields.len() - 1]);
    }
}

/// The values of `fields` in `attrs`, concatenated in the order of `fields`;
/// a field that `attrs` lacks contributes nothing.
pub open spec fn dedup_key(fields: Seq<Seq<char>>, attrs: Map<Seq<char>, Seq<char>>) -> Seq<char>
    decreases fields.len(),
{
    if fields.len() == 0 {
        Seq::empty()
    } else {
        let prefix = dedup_key(fields.drop_last(), attrs);
        if attrs.contains_key(fields.last()) {
            prefix + attrs[fields.last()]
        } else {
            prefix
        }
    }
}

/// What is hashed to identify a chunk `text` carrying `attrs`.
pub open spec fn hash_input(
    fields: Seq<Seq<char>>,
    attrs: Map<Seq<char>, Seq<char>>,
    text: Seq<char>,
) -> Seq<char> {
    if fields.len() == 0 {
        text
    } else {
        dedup_key(fields, attrs)
    }
}

/// The id of the record that holds chunk `text` carrying `attrs`.
pub open spec fn record_id(
    fields: Seq<Seq<char>>,
    attrs: Map<Seq<char>, Seq<char>>,
    text: Seq<char>,
) -> Seq<char> {
    md5_hex_of(hash_input(fields, attrs, text))
}

/// The string that identifies chunk `text` carrying `attrs` under the dedup
/// fields `hash_on`.
pub fn dedup_input(hash_on: &Vec<String>, attrs: &Attributes, text: &String) -> (r: String)
    ensures
        r@ == hash_input(string_views(hash_on@), attrs@, text@),
{
    if hash_on.len() == 0 {
        return text.clone();
    }
    let ghost fields = string_views(hash_on@);
    let mut r = String::new();
    let mut i: usize = 0;
    while i < hash_on.len()
        invariant
            i <= hash_on@.len(),
            fields == string_views(hash_on@),
            r@ == dedup_key(fields.subrange(0, i as int), attrs@),
        decreases hash_on@.len() - i,
    {
        proof {
            assert(fields.subrange(0, i + 1).drop_last() =~= fields.subrange(0, i as int));
        }
        match attrs.get(&hash_on[i]) {
            Some(v) => {
                r.append(v.as_str());
            },
            None => {},
        }
        i = i + 1;
    }
    assert(fields.subrange(0, i as int) =~= fields);
    r
}

/// The content-addressed id of chunk `text` carrying `attrs` under the dedup
/// fields `hash_on`.
pub fn content_id(hash_on: &Vec<String>, attrs: &Attributes, text: &String) -> (r: String)
    ensures
        r@ == record_id(string_views(hash_on@), attrs@, text@),
{
    let input = dedup_input(hash_on, attrs, text);
    md5_hex(input.as_str())
}

} // verus!
