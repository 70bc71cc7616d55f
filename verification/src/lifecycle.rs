//! Teardown order for the analyzer's resources.
//!
//! One parse acquires foreign resources in a strict order — the backend
//! library before any index, an index before the translation unit it
//! owns — and must release them in reverse acquisition order: the
//! translation unit first, then the index, with no resource released
//! twice and none forgotten. The caller that drives the analyzer holds
//! the raw handles; [`release_order`] computes the release sequence its
//! teardown must follow, and the lemmas state why that sequence is safe:
//! it is exactly the acquisitions reversed, so it releases each acquired
//! resource once (no double release, no leak) and always releases a
//! later-acquired resource before an earlier one (an owner never falls
//! before what it owns).

use vstd::prelude::*;

verus! {

/// A resource one parse acquires, in acquisition order: first the
/// index, then the translation unit parsed under it.
#[derive(Debug, PartialEq, Eq, Clone, Copy)]
pub enum ParseResource {
    Index,
    TranslationUnit,
}

/// The order in which acquired resources are to be released: reverse
/// acquisition order.
pub fn release_order<T>(acquired: Vec<T>) -> (r: Vec<T>)
    ensures
        r@ == acquired@.reverse(),
{
    let ghost all = acquired@;
    let mut acquired = acquired;
    let mut released: Vec<T> = Vec::new();
    proof {
        assert(all.take(all.len() as int) =~= all);
    }
    while acquired.len() > 0
        invariant
            released@.len() + acquired@.len() == all.len(),
            acquired@ =~= all.take(acquired@.len() as int),
            forall|i: int|
                0 <= i < released@.len() ==> released@[i] == all[all.len() - 1 - i],
        decreases acquired@.len(),
    {
        let ghost n = acquired@.len() as int;
        let last = acquired.pop();
        match last {
            Some(resource) => {
                proof {
                    assert(acquired@ =~= all.take(n - 1));
                }
                released.push(resource);
            },
            None => {
                proof {
                    assert(false);
                }
            },
        }
    }
    proof {
        assert(released@ =~= all.reverse());
    }
    released
}

/// Law: releasing in reverse acquisition order releases exactly what
/// was acquired — each resource as often as it was acquired, so nothing
/// is released twice that was acquired once, and nothing leaks.
pub proof fn lemma_release_order_complete<T>(acquired: Seq<T>)
    ensures
        acquired.reverse().to_multiset() == acquired.to_multiset(),
        acquired.reverse().len() == acquired.len(),
{
    acquired.lemma_reverse_to_multiset();
}

/// Law: reverse acquisition order never releases an owner before what
/// it owns — of two acquisitions, the later one is released strictly
/// earlier.
pub proof fn lemma_release_order_nested<T>(acquired: Seq<T>, earlier: int, later: int)
    requires
        0 <= earlier < later < acquired.len(),
    ensures
        acquired.reverse()[acquired.len() - 1 - later] == acquired[later],
        acquired.reverse()[acquired.len() - 1 - earlier] == acquired[earlier],
        acquired.len() - 1 - later < acquired.len() - 1 - earlier,
{
}

} // verus!
