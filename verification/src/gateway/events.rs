//! Gateway events and their observers.
use vstd::prelude::*;

use crate::api::types::Snowflake;
use crate::text::str_eq;

verus! {

/// An entity that the gateway keeps up to date in its store, found there by its id.
pub trait Updateable: 'static + Send + Sync {
    fn id(&self) -> Snowflake;
}

/// The observers in `s` that are kept when unsubscribing `key`, in order: the observer at
/// position `i` goes if its rendering at that moment, `renderings[i]`, is `key`; an observer
/// without a rendering stays.
pub open spec fn kept<O>(s: Seq<O>, renderings: Seq<Seq<char>>, key: Seq<char>) -> Seq<O>
    decreases s.len(),
{
    if s.len() == 0 {
        s
    } else {
        let i = s.len() - 1;
        if i < renderings.len() && renderings[i] == key {
            kept(s.drop_last(), renderings, key)
        } else {
            kept(s.drop_last(), renderings, key).push(s.last())
        }
    }
}

/// An event of the gateway and the observers that are notified of it, in the order in
/// which they subscribed.
#[derive(Debug)]
pub struct GatewayEvent<O> {
    observers: Vec<O>,
}

impl<O> GatewayEvent<O> {
    /// The observers, in the order in which they subscribed.
    pub closed spec fn subscriptions(self) -> Seq<O> {
        self.observers@
    }

    /// An event that nobody observes.
    pub fn new() -> (res: GatewayEvent<O>)
        ensures
            res.subscriptions().len() == 0,
    {
        GatewayEvent { observers: Vec::new() }
    }

    /// Whether at least one observer is subscribed.
    pub fn is_observed(&self) -> (res: bool)
        ensures
            res == (self.subscriptions().len() > 0),
    {
        self.observers.len() > 0
    }

    /// Subscribes `observer`, after the observers already subscribed.
    pub fn subscribe(&mut self, observer: O)
        ensures
            final(self).subscriptions() == old(self).subscriptions().push(observer),
    {
        self.observers.push(observer);
    }

    /// Unsubscribes every observer that renders as `key` does now: `renderings` holds the
    /// rendering of each subscribed observer, in order, taken at the moment of the call.
    /// The others keep their order.
    pub fn unsubscribe(&mut self, key: &str, renderings: &Vec<String>)
        ensures
            final(self).subscriptions() == kept(
                old(self).subscriptions(),
                renderings@.map_values(|r: String| r@),
                key@,
            ),
    {
        let ghost rs = renderings@.map_values(|r: String| r@);
        let mut previous: Vec<O> = Vec::new();
        std::mem::swap(&mut previous, &mut self.observers);
        let ghost start = previous@;
        let n = previous.len();
        let mut index: usize = 0;
        while index < n
            invariant
                n == start.len(),
                index <= n,
                previous@ == start.skip(index as int),
                rs == renderings@.map_values(|r: String| r@),
                self.observers@ == kept(start.take(index as int), rs, key@),
            decreases n - index,
        {
            let o = previous.remove(0);
            proof {
                assert(start.take(index + 1).drop_last() =~= start.take(index as int));
                assert(start.skip(index as int).skip(1) =~= start.skip(index + 1));
            }
            let goes = index < renderings.len() && str_eq(renderings[index].as_str(), key);
            if !goes {
                self.observers.push(o);
            }
            index = index + 1;
        }
        proof {
            assert(start.take(start.len() as int) =~= start);
        }
    }

    /// The observers, in the order in which they are to be notified.
    pub fn observers(&self) -> (res: &Vec<O>)
        ensures
            res@ == self.subscriptions(),
    {
        &self.observers
    }
}

impl<O> Default for GatewayEvent<O> {
    fn default() -> (res: GatewayEvent<O>)
        ensures
            res.subscriptions().len() == 0,
    {
        GatewayEvent::new()
    }
}

} // verus!

verus! {

/// Every observer left after unsubscribing was subscribed at a position whose rendering is
/// not the key: no observer that renders as the key is left. The position is returned.
pub proof fn lemma_unsubscribed_key_gone<O>(
    s: Seq<O>,
    renderings: Seq<Seq<char>>,
    key: Seq<char>,
    k: int,
) -> (i: int)
    requires
        0 <= k < kept(s, renderings, key).len(),
    ensures
        0 <= i < s.len(),
        s[i] == kept(s, renderings, key)[k],
        !(i < renderings.len() && renderings[i] == key),
    decreases s.len(),
{
    let last = s.len() - 1;
    let rest = kept(s.drop_last(), renderings, key);
    if k < rest.len() {
        let j = lemma_unsubscribed_key_gone(s.drop_last(), renderings, key, k);
        assert(s[j] == s.drop_last()[j]);
        j
    } else {
        last
    }
}

/// If no observer renders as the key, unsubscribing it changes nothing.
pub proof fn lemma_unsubscribe_absent_key<O>(s: Seq<O>, renderings: Seq<Seq<char>>, key: Seq<char>)
    requires
        forall|i: int| 0 <= i < renderings.len() ==> renderings[i] != key,
    ensures
        kept(s, renderings, key) == s,
    decreases s.len(),
{
    if s.len() > 0 {
        lemma_unsubscribe_absent_key(s.drop_last(), renderings, key);
        assert(s.drop_last().push(s.last()) =~= s);
    }
}

/// Subscribing an observer and then unsubscribing the key it renders as leaves the other
/// observers as unsubscribing that key alone would have.
pub proof fn lemma_subscribe_then_unsubscribe<O>(
    s: Seq<O>,
    renderings: Seq<Seq<char>>,
    observer: O,
    key: Seq<char>,
)
    requires
        renderings.len() == s.len(),
    ensures
        kept(s.push(observer), renderings.push(key), key) == kept(s, renderings, key),
{
    lemma_kept_prefix(s, renderings, renderings.push(key), key);
    assert(s.push(observer).drop_last() =~= s);
}

/// Unsubscribing keeps an observer that renders otherwise, after the others kept.
pub proof fn lemma_unsubscribe_keeps_others<O>(
    s: Seq<O>,
    renderings: Seq<Seq<char>>,
    other: O,
    rendering: Seq<char>,
    key: Seq<char>,
)
    requires
        renderings.len() == s.len(),
        rendering != key,
    ensures
        kept(s.push(other), renderings.push(rendering), key) == kept(s, renderings, key).push(other),
{
    lemma_kept_prefix(s, renderings, renderings.push(rendering), key);
    assert(s.push(other).drop_last() =~= s);
}

/// Only the renderings of the observers in `s` matter.
pub proof fn lemma_kept_prefix<O>(s: Seq<O>, r1: Seq<Seq<char>>, r2: Seq<Seq<char>>, key: Seq<char>)
    requires
        r1.len() >= s.len(),
        r2.len() >= s.len(),
        forall|i: int| 0 <= i < s.len() ==> r1[i] == r2[i],
    ensures
        kept(s, r1, key) == kept(s, r2, key),
    decreases s.len(),
{
    if s.len() > 0 {
        lemma_kept_prefix(s.drop_last(), r1, r2, key);
    }
}

/// Unsubscribing twice with the same renderings of the observers left is the same as once.
pub proof fn lemma_unsubscribe_idempotent<O>(s: Seq<O>, renderings: Seq<Seq<char>>, key: Seq<char>, again: Seq<Seq<char>>)
    requires
        again.len() == kept(s, renderings, key).len(),
        forall|i: int| 0 <= i < again.len() ==> #[trigger] again[i] != key,
    ensures
        kept(kept(s, renderings, key), again, key) == kept(s, renderings, key),
{
    lemma_unsubscribe_absent_key(kept(s, renderings, key), again, key);
}

} // verus!
