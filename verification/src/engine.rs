//! The routing engine: an ordered list of bindings from a path prefix to a
//! loaded handler, scanned in registration order.

use vstd::prelude::*;
use crate::seqs::{lemma_filter_empty, lemma_filter_push};

verus! {

/// One route binding: a path prefix and the handle that serves it.
struct IngotContainer<H> {
    prefix: String,
    instance: H,
}

/// Routes request paths to handles. The first binding registered whose prefix
/// starts the path wins; a more specific prefix registered later does not.
pub struct IngotEngine<H> {
    containers: Vec<IngotContainer<H>>,
}

/// The model of a route binding: the prefix as characters, and the handle.
pub type Binding<H> = (Seq<char>, H);

/// Binding `i` exists and its prefix is a literal prefix of `url`.
pub open spec fn matches_at<H>(bindings: Seq<Binding<H>>, url: Seq<char>, i: int) -> bool {
    0 <= i < bindings.len() && bindings[i].0.is_prefix_of(url)
}

/// Binding `i` is the one a request for `url` goes to: it matches, and no
/// binding registered before it does.
pub open spec fn is_first_match<H>(bindings: Seq<Binding<H>>, url: Seq<char>, i: int) -> bool {
    matches_at(bindings, url, i) && forall|j: int| 0 <= j < i ==> !matches_at(bindings, url, j)
}

/// No binding serves `url`.
pub open spec fn no_match<H>(bindings: Seq<Binding<H>>, url: Seq<char>) -> bool {
    forall|j: int| !matches_at(bindings, url, j)
}

/// Binding `i` exists and is registered under exactly `prefix`.
pub open spec fn bound_at<H>(bindings: Seq<Binding<H>>, prefix: Seq<char>, i: int) -> bool {
    0 <= i < bindings.len() && bindings[i].0 == prefix
}

/// Binding `i` is the earliest one registered under exactly `prefix`.
pub open spec fn is_first_bound<H>(bindings: Seq<Binding<H>>, prefix: Seq<char>, i: int) -> bool {
    bound_at(bindings, prefix, i) && forall|j: int| 0 <= j < i ==> !bound_at(bindings, prefix, j)
}

/// The test a binding passes when it is registered under another prefix.
pub open spec fn has_other_prefix<H>(prefix: Seq<char>) -> spec_fn(Binding<H>) -> bool {
    |b: Binding<H>| b.0 != prefix
}

/// The test a binding passes when it is registered under exactly `prefix`.
pub open spec fn has_prefix<H>(prefix: Seq<char>) -> spec_fn(Binding<H>) -> bool {
    |b: Binding<H>| b.0 == prefix
}

/// The bindings that stay when `prefix` is unregistered, in their order.
pub open spec fn without_prefix<H>(bindings: Seq<Binding<H>>, prefix: Seq<char>) -> Seq<
    Binding<H>,
> {
    bindings.filter(has_other_prefix(prefix))
}

/// The handles that leave when `prefix` is unregistered, in registration order.
pub open spec fn handles_of_prefix<H>(bindings: Seq<Binding<H>>, prefix: Seq<char>) -> Seq<H> {
    bindings.filter(has_prefix(prefix)).map_values(|b: Binding<H>| b.1)
}

/// `str::starts_with` of std, called with a string pattern: true exactly when
/// the pattern's characters are the first characters of `s`.
#[verifier::external_body]
fn starts_with(s: &str, prefix: &str) -> (hit: bool)
    ensures
        hit == prefix@.is_prefix_of(s@),
{
    s.starts_with(prefix)
}

impl<H> View for IngotEngine<H> {
    type V = Seq<Binding<H>>;

    closed spec fn view(&self) -> Seq<Binding<H>> {
        Seq::new(
            self.containers@.len(),
            |i: int| (self.containers@[i].prefix@, self.containers@[i].instance),
        )
    }
}

impl<H> IngotEngine<H> {
    /// An engine without bindings.
    pub fn new() -> (engine: Self)
        ensures
            engine@ == Seq::<Binding<H>>::empty(),
    {
        let engine = IngotEngine { containers: Vec::new() };
        assert(engine@ =~= Seq::<Binding<H>>::empty());
        engine
    }

    /// The number of bindings.
    pub fn len(&self) -> (n: usize)
        ensures
            n == self@.len(),
    {
        self.containers.len()
    }

    /// Appends a binding. Earlier bindings keep their place and their
    /// precedence; prefixes need not be unique.
    pub fn register(&mut self, prefix: String, instance: H)
        ensures
            final(self)@ == old(self)@.push((prefix@, instance)),
    {
        self.containers.push(IngotContainer { prefix, instance });
        assert(self@ =~= old(self)@.push((prefix@, instance)));
    }

    /// The index of the binding that serves `url`: the earliest registered one
    /// whose prefix is a literal prefix of `url`, or nothing when none is.
    pub fn dispatch(&self, url: &str) -> (found: Option<usize>)
        ensures
            match found {
                Some(i) => is_first_match(self@, url@, i as int),
                None => no_match(self@, url@),
            },
    {
        let mut i: usize = 0;
        while i < self.containers.len()
            invariant
                i <= self.containers@.len(),
                forall|j: int| 0 <= j < i ==> !matches_at(self@, url@, j),
            decreases self.containers@.len() - i,
        {
            if starts_with(url, self.containers[i].prefix.as_str()) {
                return Some(i);
            }
            i += 1;
        }
        None
    }

    /// The handle that serves `url`, borrowed: that of the earliest registered
    /// binding whose prefix is a literal prefix of `url`.
    pub fn find_ingot_for_url(&self, url: &str) -> (found: Option<&H>)
        ensures
            match found {
                Some(h) => exists|i: int| is_first_match(self@, url@, i) && *h == self@[i].1,
                None => no_match(self@, url@),
            },
    {
        match self.dispatch(url) {
            Some(i) => {
                assert(is_first_match(self@, url@, i as int));
                Some(&self.containers[i].instance)
            },
            None => None,
        }
    }

    /// The index of the earliest binding registered under exactly `prefix`, or
    /// nothing when no binding has that prefix.
    pub fn lookup(&self, prefix: &str) -> (found: Option<usize>)
        ensures
            match found {
                Some(i) => is_first_bound(self@, prefix@, i as int),
                None => forall|j: int| !bound_at(self@, prefix@, j),
            },
    {
        let target: String = prefix.to_owned();
        let mut i: usize = 0;
        while i < self.containers.len()
            invariant
                target@ == prefix@,
                i <= self.containers@.len(),
                forall|j: int| 0 <= j < i ==> !bound_at(self@, prefix@, j),
            decreases self.containers@.len() - i,
        {
            if self.containers[i].prefix == target {
                return Some(i);
            }
            i += 1;
        }
        None
    }

    /// Removes every binding registered under exactly `prefix` and hands their
    /// handles back, in registration order, so that the caller decides when
    /// they are torn down. The other bindings keep their order. A prefix that
    /// was never registered leaves the engine as it was.
    pub fn unregister(&mut self, prefix: &str) -> (removed: Vec<H>)
        ensures
            final(self)@ == without_prefix(old(self)@, prefix@),
            removed@ == handles_of_prefix(old(self)@, prefix@),
    {
        let target: String = prefix.to_owned();
        let mut removed: Vec<H> = Vec::new();
        let mut i: usize = 0;
        let ghost orig = self@;
        let ghost mut k: int = 0;
        proof {
            lemma_unregister_none::<H>(prefix@);
            assert(orig.take(0) =~= Seq::<Binding<H>>::empty());
            assert(self@ =~= without_prefix(orig.take(0), prefix@) + orig.skip(0));
        }
        while i < self.containers.len()
            invariant
                target@ == prefix@,
                0 <= k <= orig.len(),
                i == without_prefix(orig.take(k), prefix@).len(),
                self@ == without_prefix(orig.take(k), prefix@) + orig.skip(k),
                self@.len() == self.containers@.len(),
                removed@ == handles_of_prefix(orig.take(k), prefix@),
            decreases orig.len() - k,
        {
            proof {
                assert(self@[i as int] == orig.skip(k)[0]);
                assert(orig.take(k + 1) =~= orig.take(k).push(orig[k]));
                lemma_unregister_last(orig.take(k), orig[k], prefix@);
            }
            let ghost before = self@;
            if self.containers[i].prefix == target {
                let gone = self.containers.remove(i);
                removed.push(gone.instance);
                proof {
                    assert(self@ =~= before.remove(i as int));
                    assert(self@ =~= without_prefix(orig.take(k + 1), prefix@) + orig.skip(k + 1));
                }
            } else {
                i += 1;
                proof {
                    assert(self@ =~= without_prefix(orig.take(k + 1), prefix@) + orig.skip(k + 1));
                }
            }
            proof {
                k = k + 1;
            }
        }
        proof {
            assert(orig.skip(k).len() == 0);
            assert(orig.take(k) =~= orig);
            assert(self@ =~= without_prefix(orig, prefix@));
        }
        removed
    }

    /// Swaps a new handle into the earliest binding registered under exactly
    /// `prefix` and hands the previous handle back. Prefixes and order are
    /// untouched, so every path is served by the same binding as before. When
    /// no binding has that prefix the engine is unchanged and the new handle
    /// comes back as the error.
    pub fn replace(&mut self, prefix: &str, instance: H) -> (swapped: Result<H, H>)
        ensures
            match swapped {
                Ok(previous) => exists|i: int|
                    is_first_bound(old(self)@, prefix@, i) && previous == old(self)@[i].1
                        && final(self)@ == old(self)@.update(i, (prefix@, instance)),
                Err(returned) => returned == instance && final(self)@ == old(self)@
                    && forall|j: int| !bound_at(old(self)@, prefix@, j),
            },
    {
        match self.lookup(prefix) {
            Some(i) => {
                let previous = self.containers.remove(i);
                self.containers.insert(i, IngotContainer { prefix: previous.prefix, instance });
                proof {
                    assert(self@ =~= old(self)@.update(i as int, (prefix@, instance)));
                }
                Ok(previous.instance)
            },
            None => Err(instance),
        }
    }

    /// The handle of binding `i`, borrowed for change. The prefix and the
    /// other bindings are out of reach, so routing stays as it is.
    pub fn instance_mut(&mut self, i: usize) -> (h: &mut H)
        requires
            i < old(self)@.len(),
        ensures
            *h == old(self)@[i as int].1,
            final(self)@ == old(self)@.update(i as int, (old(self)@[i as int].0, *final(h))),
    {
        &mut self.containers[i].instance
    }

    /// The prefix of binding `i`.
    pub fn prefix(&self, i: usize) -> (prefix: &str)
        requires
            i < self@.len(),
        ensures
            prefix@ == self@[i as int].0,
    {
        self.containers[i].prefix.as_str()
    }

    /// The handle of binding `i`, borrowed.
    pub fn instance(&self, i: usize) -> (h: &H)
        requires
            i < self@.len(),
        ensures
            *h == self@[i as int].1,
    {
        &self.containers[i].instance
    }
}

/// Unregistering from an engine without bindings leaves nothing and hands
/// nothing back.
proof fn lemma_unregister_none<H>(prefix: Seq<char>)
    ensures
        without_prefix(Seq::<Binding<H>>::empty(), prefix) == Seq::<Binding<H>>::empty(),
        handles_of_prefix(Seq::<Binding<H>>::empty(), prefix) == Seq::<H>::empty(),
{
    lemma_filter_empty::<Binding<H>>(has_other_prefix(prefix));
    lemma_filter_empty::<Binding<H>>(has_prefix(prefix));
    assert(handles_of_prefix(Seq::<Binding<H>>::empty(), prefix) =~= Seq::<H>::empty());
}

/// How unregistering treats the binding registered last: it stays, after the
/// others that stay, unless it has the prefix; then its handle leaves last.
proof fn lemma_unregister_last<H>(bindings: Seq<Binding<H>>, last: Binding<H>, prefix: Seq<char>)
    ensures
        without_prefix(bindings.push(last), prefix) == if last.0 != prefix {
            without_prefix(bindings, prefix).push(last)
        } else {
            without_prefix(bindings, prefix)
        },
        handles_of_prefix(bindings.push(last), prefix) == if last.0 == prefix {
            handles_of_prefix(bindings, prefix).push(last.1)
        } else {
            handles_of_prefix(bindings, prefix)
        },
{
    lemma_filter_push(bindings, last, has_other_prefix(prefix));
    lemma_filter_push(bindings, last, has_prefix(prefix));
    if last.0 == prefix {
        assert(handles_of_prefix(bindings.push(last), prefix) =~= handles_of_prefix(
            bindings,
            prefix,
        ).push(last.1));
    }
}

/// A path is served by at most one binding: the first match is unique.
pub proof fn law_first_match_unique<H>(bindings: Seq<Binding<H>>, url: Seq<char>, i: int, j: int)
    requires
        is_first_match(bindings, url, i),
        is_first_match(bindings, url, j),
    ensures
        i == j,
{
}

/// Every path is either served by exactly one first match or by none.
pub proof fn law_match_or_none<H>(bindings: Seq<Binding<H>>, url: Seq<char>)
    ensures
        no_match(bindings, url) || exists|i: int| is_first_match(bindings, url, i),
    decreases bindings.len(),
{
    if bindings.len() > 0 {
        let front = bindings.drop_last();
        law_match_or_none(front, url);
        if no_match(front, url) {
            let last = bindings.len() - 1;
            if matches_at(bindings, url, last) {
                assert forall|j: int| 0 <= j < last implies !matches_at(bindings, url, j) by {
                    assert(!matches_at(front, url, j));
                }
                assert(is_first_match(bindings, url, last));
            } else {
                assert forall|j: int| !matches_at(bindings, url, j) by {
                    assert(!matches_at(front, url, j));
                }
            }
        } else {
            let i = choose|i: int| is_first_match(front, url, i);
            assert forall|j: int| 0 <= j < i implies !matches_at(bindings, url, j) by {
                assert(!matches_at(front, url, j));
            }
            assert(is_first_match(bindings, url, i));
        }
    }
}

/// Registration order is precedence: a binding registered later never takes a
/// path from the binding that served it before, however specific its prefix.
pub proof fn law_earlier_binding_wins<H>(
    bindings: Seq<Binding<H>>,
    added: Binding<H>,
    url: Seq<char>,
    i: int,
)
    requires
        is_first_match(bindings, url, i),
    ensures
        is_first_match(bindings.push(added), url, i),
{
    assert forall|j: int| 0 <= j < i implies !matches_at(bindings.push(added), url, j) by {
        assert(!matches_at(bindings, url, j));
    }
}

/// A path that no binding served goes to a newly registered binding exactly
/// when the new prefix starts the path.
pub proof fn law_new_binding_serves_unmatched<H>(
    bindings: Seq<Binding<H>>,
    added: Binding<H>,
    url: Seq<char>,
)
    requires
        no_match(bindings, url),
    ensures
        added.0.is_prefix_of(url) ==> is_first_match(
            bindings.push(added),
            url,
            bindings.len() as int,
        ),
        !added.0.is_prefix_of(url) ==> no_match(bindings.push(added), url),
{
    let after = bindings.push(added);
    assert forall|j: int| 0 <= j < bindings.len() implies !matches_at(after, url, j) by {
        assert(!matches_at(bindings, url, j));
    }
}

/// Unregistering a prefix that no binding has changes nothing and hands no
/// handle back.
pub proof fn law_unregister_absent_is_noop<H>(bindings: Seq<Binding<H>>, prefix: Seq<char>)
    requires
        forall|j: int| !bound_at(bindings, prefix, j),
    ensures
        without_prefix(bindings, prefix) == bindings,
        handles_of_prefix(bindings, prefix) == Seq::<H>::empty(),
    decreases bindings.len(),
{
    if bindings.len() == 0 {
        lemma_unregister_none::<H>(prefix);
        assert(bindings =~= Seq::<Binding<H>>::empty());
    } else {
        let front = bindings.drop_last();
        let last = bindings.last();
        assert forall|j: int| !bound_at(front, prefix, j) by {
            assert(!bound_at(bindings, prefix, j));
        }
        law_unregister_absent_is_noop(front, prefix);
        assert(!bound_at(bindings, prefix, bindings.len() - 1));
        assert(bindings =~= front.push(last));
        lemma_unregister_last(front, last, prefix);
    }
}

/// Once a prefix is unregistered no binding has it, so unregistering it again
/// changes nothing.
pub proof fn law_unregister_twice<H>(bindings: Seq<Binding<H>>, prefix: Seq<char>)
    ensures
        forall|j: int| !bound_at(without_prefix(bindings, prefix), prefix, j),
        without_prefix(without_prefix(bindings, prefix), prefix) == without_prefix(
            bindings,
            prefix,
        ),
        handles_of_prefix(without_prefix(bindings, prefix), prefix) == Seq::<H>::empty(),
{
    let rest = without_prefix(bindings, prefix);
    assert forall|j: int| !bound_at(rest, prefix, j) by {
        if 0 <= j < rest.len() {
            bindings.lemma_filter_pred(has_other_prefix(prefix), j);
        }
    }
    law_unregister_absent_is_noop(rest, prefix);
}

/// Swapping the handle of binding `i` moves no route: each path is served by
/// the binding with the same index as before, so paths that went to the old
/// handle now go to the new one, and all others go where they went.
pub proof fn law_replace_keeps_routes<H>(
    bindings: Seq<Binding<H>>,
    i: int,
    instance: H,
    url: Seq<char>,
    k: int,
)
    requires
        0 <= i < bindings.len(),
    ensures
        is_first_match(bindings, url, k) <==> is_first_match(
            bindings.update(i, (bindings[i].0, instance)),
            url,
            k,
        ),
        no_match(bindings, url) <==> no_match(bindings.update(i, (bindings[i].0, instance)), url),
        is_first_match(bindings, url, i) ==> bindings.update(i, (bindings[i].0, instance))[i].1
            == instance,
{
    let after = bindings.update(i, (bindings[i].0, instance));
    assert forall|j: int| matches_at(bindings, url, j) == matches_at(after, url, j) by {}
}

} // verus!
