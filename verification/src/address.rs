//! From bucket, set and object to the storage key and the resource that is
//! authorized.
//!
//! Access to an object of a set is decided for the set as a whole; access to an
//! object outside any set is decided for that object.

use vstd::prelude::*;
use vstd::string::StringExecFns;

verus! {

/// The key of an object within a set: the set, a period, the object. Periods
/// inside the set or the object are kept as they are, so callers who need
/// distinct keys for distinct pairs keep periods out of set names.
pub open spec fn set_key(set: Seq<char>, object: Seq<char>) -> Seq<char> {
    set + seq!['.'] + object
}

/// The key under which an object is stored.
pub open spec fn canonical_key(set: Option<Seq<char>>, object: Seq<char>) -> Seq<char> {
    match set {
        Some(set) => set_key(set, object),
        None => object,
    }
}

/// The resource whose access is decided: the whole set where there is one,
/// else the object. The order of the segments is what providers' policies are
/// written against.
pub open spec fn resource_path(
    bucket: Seq<char>,
    set: Option<Seq<char>>,
    object: Seq<char>,
) -> Seq<Seq<char>> {
    match set {
        Some(set) => seq!["buckets"@, bucket, "sets"@, set],
        None => seq!["buckets"@, bucket, "objects"@, object],
    }
}

/// Where a request points: the storage key and the resource to authorize.
#[derive(Debug)]
pub struct Address {
    pub key: String,
    pub resource: Vec<String>,
}

/// The storage key of an object within a set.
pub fn s3_object(set: &str, object: &str) -> (key: String)
    ensures
        key@ == set_key(set@, object@),
{
    proof {
        reveal_strlit(".");
    }
    let mut key = String::from_str(set);
    key.append(".");
    key.append(object);
    assert(key@ =~= set_key(set@, object@));
    key
}

/// The storage key and the authorized resource of a request.
pub fn address(bucket: &str, set: Option<&str>, object: &str) -> (found: Address)
    ensures
        found.key@ == canonical_key(opt_view(set), object@),
        found.resource.deep_view() == resource_path(bucket@, opt_view(set), object@),
{
    let mut resource: Vec<String> = Vec::new();
    resource.push(String::from_str("buckets"));
    resource.push(String::from_str(bucket));
    let key = match set {
        Some(set) => {
            resource.push(String::from_str("sets"));
            resource.push(String::from_str(set));
            s3_object(set, object)
        },
        None => {
            resource.push(String::from_str("objects"));
            resource.push(String::from_str(object));
            String::from_str(object)
        },
    };
    assert(resource.deep_view() =~= resource_path(bucket@, opt_view(set), object@));
    Address { key, resource }
}

/// What an optional string holds.
pub open spec fn opt_view(s: Option<&str>) -> Option<Seq<char>> {
    match s {
        Some(s) => Some(s@),
        None => None,
    }
}

/// Two pairs of set and object with the same key are the same pair, provided
/// that neither set holds a period. The objects may hold periods.
pub proof fn lemma_set_key_injective(
    set1: Seq<char>,
    object1: Seq<char>,
    set2: Seq<char>,
    object2: Seq<char>,
)
    requires
        !set1.contains('.'),
        !set2.contains('.'),
        set_key(set1, object1) == set_key(set2, object2),
    ensures
        set1 == set2,
        object1 == object2,
{
    let k1 = set_key(set1, object1);
    let k2 = set_key(set2, object2);
    assert(k1[set1.len() as int] == '.');
    assert(k2[set2.len() as int] == '.');
    if set1.len() < set2.len() {
        assert(k2[set1.len() as int] == set2[set1.len() as int]);
        assert(set2.contains('.'));
    }
    if set2.len() < set1.len() {
        assert(k1[set2.len() as int] == set1[set2.len() as int]);
        assert(set1.contains('.'));
    }
    assert(set1 =~= set2) by {
        assert forall|i: int| 0 <= i < set1.len() implies set1[i] == set2[i] by {
            assert(k1[i] == set1[i]);
            assert(k2[i] == set2[i]);
        }
    }
    assert(object1 =~= object2) by {
        assert(object1.len() == object2.len()) by {
            assert(k1.len() == set1.len() + 1 + object1.len());
            assert(k2.len() == set2.len() + 1 + object2.len());
        }
        assert forall|i: int| 0 <= i < object1.len() implies object1[i] == object2[i] by {
            assert(k1[set1.len() + 1 + i] == object1[i]);
            assert(k2[set2.len() + 1 + i] == object2[i]);
        }
    }
}

/// The resource of an object within a set does not depend on the object.
pub proof fn lemma_set_resource_ignores_object(
    bucket: Seq<char>,
    set: Seq<char>,
    object1: Seq<char>,
    object2: Seq<char>,
)
    ensures
        resource_path(bucket, Some(set), object1) == resource_path(bucket, Some(set), object2),
{
}

} // verus!
