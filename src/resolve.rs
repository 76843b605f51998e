//! Resolution of a lookup token that may be an identifier or a name.
//!
//! The resolver is a state machine: it says which request to make next, and
//! is told what that request returned. It first fetches the token as an
//! identifier; only where that fetch reports `NotFound` does it list the
//! resources by name, insist on exactly one match, and fetch that match by its
//! identifier.

use vstd::multiset::Multiset;
use vstd::prelude::*;

use crate::error::Error;

verus! {

/// The summary record of a resource in a listing.
#[derive(Clone, Debug, PartialEq, Eq)]
pub struct IdAndName {
    pub id: String,
    pub name: String,
}

/// The entries of `items` whose name is exactly `name`, in their order.
pub open spec fn named(items: Seq<IdAndName>, name: Seq<char>) -> Seq<IdAndName>
    decreases items.len(),
{
    if items.len() == 0 {
        Seq::empty()
    } else {
        let rest = named(items.drop_last(), name);
        if items.last().name@ == name {
            rest.push(items.last())
        } else {
            rest
        }
    }
}

/// The message of the `NotFound` given when no entry carries the name.
pub open spec fn no_match_message() -> Seq<char> {
    "no resource with given name or identifier"@
}

/// The message of the `AmbiguousResult` given when several entries carry the name.
pub open spec fn many_matches_message() -> Seq<char> {
    "too many resources with given name"@
}

/// The identifier of the one entry of `items` named `name`; `NotFound` where
/// there is none and `AmbiguousResult` where there are several.
pub fn select_by_name(items: &Vec<IdAndName>, name: &str) -> (r: Result<String, Error>)
    ensures
        r is Ok <==> named(items@, name@).len() == 1,
        r matches Ok(id) ==> id == named(items@, name@)[0].id,
        r is Err ==> (r->Err_0 is NotFound <==> named(items@, name@).len() == 0),
        r is Err ==> (r->Err_0 is AmbiguousResult <==> named(items@, name@).len() >= 2),
        r is Err && r->Err_0 is NotFound ==> r->Err_0->NotFound_0@ == no_match_message(),
        r is Err && r->Err_0 is AmbiguousResult ==> r->Err_0->AmbiguousResult_0@ == many_matches_message(),
{
    let wanted = name.to_owned();
    let mut count: usize = 0;
    let mut first: Option<String> = None;
    let mut i: usize = 0;
    while i < items.len()
        invariant
            i <= items.len(),
            wanted@ == name@,
            count == (if named(items@.subrange(0, i as int), name@).len() >= 2 {
                2
            } else {
                named(items@.subrange(0, i as int), name@).len()
            }),
            named(items@.subrange(0, i as int), name@).len() == 0 <==> first is None,
            first matches Some(id) ==> id == named(items@.subrange(0, i as int), name@)[0].id,
        decreases items.len() - i,
    {
        proof {
            let next = items@.subrange(0, i as int + 1);
            assert(next.drop_last() =~= items@.subrange(0, i as int));
            assert(next.last() == items@[i as int]);
        }
        if items[i].name == wanted {
            if first.is_none() {
                first = Some(items[i].id.clone());
            }
            if count < 2 {
                count = count + 1;
            }
        }
        i = i + 1;
    }
    assert(items@.subrange(0, items.len() as int) =~= items@);
    if count == 0 {
        Err(Error::NotFound(String::from_str("no resource with given name or identifier")))
    } else if count >= 2 {
        Err(Error::AmbiguousResult(String::from_str("too many resources with given name")))
    } else {
        match first {
            Some(id) => Ok(id),
            None => Err(Error::NotFound(String::from_str("no resource with given name or identifier"))),
        }
    }
}

/// Where a resolution stands.
#[derive(PartialEq, Eq, Structural, Clone, Copy, Debug)]
pub enum Stage {
    /// Waiting for the fetch of the token as an identifier.
    ById,
    /// Waiting for the listing of resources by name.
    ByName,
    /// Waiting for the fetch of the one match by its identifier.
    ByMatchedId,
    /// The outcome has been given.
    Finished,
}

/// What the resolver asks for next.
#[derive(Debug, PartialEq, Eq)]
pub enum Step<R> {
    /// Fetch the resource with this identifier, then call `on_fetched`.
    FetchById(String),
    /// List the resources with this name, then call `on_listed`.
    ListByName(String),
    /// The resolution is over, with this outcome.
    Done(Result<R, Error>),
}

/// A resolution of one lookup token in progress.
#[derive(Clone, Debug, PartialEq, Eq)]
pub struct Resolver {
    pub token: String,
    pub stage: Stage,
}

impl Resolver {
    /// `next` and `step` are what follows when the fetch asked for in `self`
    /// returns `result`.
    pub open spec fn fetch_outcome<R>(self, result: Result<R, Error>, next: Resolver, step: Step<R>) -> bool {
        &&& next.token == self.token
        &&& if self.stage is ById && result is Err && result->Err_0 is NotFound {
            next.stage is ByName && step == Step::<R>::ListByName(self.token)
        } else {
            next.stage is Finished && step == Step::<R>::Done(result)
        }
    }

    /// `next` and `step` are what follows when the listing asked for in `self`
    /// returns `listed`.
    pub open spec fn listing_outcome<R>(
        self,
        listed: Result<Seq<IdAndName>, Error>,
        next: Resolver,
        step: Step<R>,
    ) -> bool {
        &&& next.token == self.token
        &&& match listed {
            Err(e) => next.stage is Finished && step == Step::<R>::Done(Err(e)),
            Ok(items) => {
                let m = named(items, self.token@);
                if m.len() == 1 {
                    next.stage is ByMatchedId && step == Step::<R>::FetchById(m[0].id)
                } else {
                    &&& next.stage is Finished
                    &&& step is Done
                    &&& step->Done_0 is Err
                    &&& (step->Done_0->Err_0 is NotFound <==> m.len() == 0)
                    &&& (step->Done_0->Err_0 is AmbiguousResult <==> m.len() >= 2)
                    &&& (m.len() == 0 ==> step->Done_0->Err_0->NotFound_0@ == no_match_message())
                    &&& (m.len() >= 2 ==> step->Done_0->Err_0->AmbiguousResult_0@ == many_matches_message())
                }
            },
        }
    }

    /// Starts resolving `token`: the first request fetches it as an identifier.
    pub fn start<R>(token: &str) -> (r: (Resolver, Step<R>))
        ensures
            r.0.token@ == token@,
            r.0.stage is ById,
            r.1 == Step::<R>::FetchById(r.0.token),
    {
        let t = token.to_owned();
        let step = Step::FetchById(t.clone());
        (Resolver { token: t, stage: Stage::ById }, step)
    }

    /// Takes what a fetch by identifier returned. A direct hit, and any failure
    /// but `NotFound`, ends the resolution; `NotFound` on the token itself
    /// leads to a listing by name. The fetch of the matched identifier ends it
    /// with whatever came back.
    pub fn on_fetched<R>(&mut self, result: Result<R, Error>) -> (step: Step<R>)
        requires
            old(self).stage is ById || old(self).stage is ByMatchedId,
        ensures
            old(self).fetch_outcome(result, *final(self), step),
    {
        let fall_back = match &result {
            Err(Error::NotFound(_)) => self.stage == Stage::ById,
            _ => false,
        };
        if fall_back {
            self.stage = Stage::ByName;
            Step::ListByName(self.token.clone())
        } else {
            self.stage = Stage::Finished;
            Step::Done(result)
        }
    }

    /// Takes what the listing by name returned: exactly one entry named as the
    /// token leads to a fetch of its identifier; none, several, or a failed
    /// listing end the resolution.
    pub fn on_listed<R>(&mut self, listed: Result<Vec<IdAndName>, Error>) -> (step: Step<R>)
        requires
            old(self).stage is ByName,
        ensures
            old(self).listing_outcome(
                match listed {
                    Ok(v) => Ok(v@),
                    Err(e) => Err(e),
                },
                *final(self),
                step,
            ),
    {
        match listed {
            Err(e) => {
                self.stage = Stage::Finished;
                Step::Done(Err(e))
            },
            Ok(items) => match select_by_name(&items, self.token.as_str()) {
                Ok(id) => {
                    self.stage = Stage::ByMatchedId;
                    Step::FetchById(id)
                },
                Err(e) => {
                    self.stage = Stage::Finished;
                    Step::Done(Err(e))
                },
            },
        }
    }
}

/// A token that fetches directly as an identifier resolves to that resource
/// at once, and no listing is asked for.
pub proof fn direct_hit_skips_listing<R>(start: Resolver, r: R, next: Resolver, step: Step<R>)
    requires
        start.stage is ById,
        start.fetch_outcome(Ok(r), next, step),
    ensures
        step == Step::<R>::Done(Ok(r)),
        next.stage is Finished,
{
}

/// A failure of the direct fetch other than `NotFound` is handed back
/// unchanged, and no listing is asked for.
pub proof fn other_failure_propagates<R>(start: Resolver, e: Error, next: Resolver, step: Step<R>)
    requires
        start.stage is ById,
        !(e is NotFound),
        start.fetch_outcome(Err(e), next, step),
    ensures
        step == Step::<R>::Done(Err(e)),
        next.stage is Finished,
{
}

/// A token that is no identifier and names no resource in the listing fails
/// with `NotFound`.
pub proof fn no_match_is_not_found<R>(
    start: Resolver,
    missing: Error,
    items: Seq<IdAndName>,
    s1: Resolver,
    st1: Step<R>,
    s2: Resolver,
    st2: Step<R>,
)
    requires
        start.stage is ById,
        missing is NotFound,
        named(items, start.token@).len() == 0,
        start.fetch_outcome(Err(missing), s1, st1),
        s1.listing_outcome(Ok(items), s2, st2),
    ensures
        st1 == Step::<R>::ListByName(start.token),
        st2 is Done,
        st2->Done_0 is Err,
        st2->Done_0->Err_0 is NotFound,
        s2.stage is Finished,
{
}

/// A token that is no identifier and names exactly one resource in the
/// listing resolves to what the fetch of that entry's identifier returns, not
/// to the summary record.
pub proof fn single_match_fetches_its_identifier<R>(
    start: Resolver,
    missing: Error,
    items: Seq<IdAndName>,
    detail: Result<R, Error>,
    s1: Resolver,
    st1: Step<R>,
    s2: Resolver,
    st2: Step<R>,
    s3: Resolver,
    st3: Step<R>,
)
    requires
        start.stage is ById,
        missing is NotFound,
        named(items, start.token@).len() == 1,
        start.fetch_outcome(Err(missing), s1, st1),
        s1.listing_outcome(Ok(items), s2, st2),
        s2.fetch_outcome(detail, s3, st3),
    ensures
        st1 == Step::<R>::ListByName(start.token),
        st2 == Step::<R>::FetchById(named(items, start.token@)[0].id),
        named(items, start.token@)[0].name@ == start.token@,
        st3 == Step::<R>::Done(detail),
        s3.stage is Finished,
{
    lemma_named_have_name(items, start.token@);
}

/// A token that is no identifier and names two or more resources in the
/// listing fails with `AmbiguousResult`, and so it does for the same entries
/// listed in any other order.
pub proof fn several_matches_are_ambiguous<R>(
    start: Resolver,
    missing: Error,
    items: Seq<IdAndName>,
    reordered: Seq<IdAndName>,
    s1: Resolver,
    st1: Step<R>,
    s2: Resolver,
    st2: Step<R>,
)
    requires
        start.stage is ById,
        missing is NotFound,
        named(items, start.token@).len() >= 2,
        reordered.to_multiset() == items.to_multiset(),
        start.fetch_outcome(Err(missing), s1, st1),
        s1.listing_outcome(Ok(reordered), s2, st2),
    ensures
        st1 == Step::<R>::ListByName(start.token),
        st2 is Done,
        st2->Done_0 is Err,
        st2->Done_0->Err_0 is AmbiguousResult,
        s2.stage is Finished,
{
    match_count_ignores_order(items, reordered, start.token@);
}

/// Every entry that `named` keeps carries the name asked for.
pub proof fn lemma_named_have_name(items: Seq<IdAndName>, name: Seq<char>)
    ensures
        forall|i: int| 0 <= i < named(items, name).len() ==> (#[trigger] named(items, name)[i]).name@ == name,
    decreases items.len(),
{
    if items.len() > 0 {
        lemma_named_have_name(items.drop_last(), name);
        let rest = named(items.drop_last(), name);
        assert forall|i: int| 0 <= i < named(items, name).len() implies (#[trigger] named(items, name)[i]).name@ == name by {
            if i < rest.len() {
                assert(named(items, name)[i] == rest[i]);
            }
        }
    }
}

/// The test that an entry carries the name `name`.
pub open spec fn has_name(name: Seq<char>) -> spec_fn(IdAndName) -> bool {
    |x: IdAndName| x.name@ == name
}

/// The entries that `named` keeps are those of the listing that carry the
/// name, counted with their repetitions.
pub proof fn lemma_named_multiset(items: Seq<IdAndName>, name: Seq<char>)
    ensures
        named(items, name).to_multiset() =~= items.to_multiset().filter(has_name(name)),
    decreases items.len(),
{
    broadcast use vstd::multiset::group_multiset_axioms;

    if items.len() == 0 {
        vstd::seq_lib::to_multiset_len(items);
        vstd::seq_lib::to_multiset_len(named(items, name));
        assert(items.to_multiset() =~= Multiset::empty());
        assert(named(items, name).to_multiset() =~= Multiset::empty());
    } else {
        let init = items.drop_last();
        let last = items.last();
        lemma_named_multiset(init, name);
        assert(items =~= init.push(last));
        vstd::seq_lib::to_multiset_build(init, last);
        let rest = named(init, name);
        if last.name@ == name {
            vstd::seq_lib::to_multiset_build(rest, last);
        }
        assert forall|v: IdAndName|
            named(items, name).to_multiset().count(v) == items.to_multiset().filter(has_name(name)).count(v) by {
        }
    }
}

/// Whether a name is ambiguous, unique or absent does not depend on the order
/// of the listing: listings with the same entries have as many matches.
pub proof fn match_count_ignores_order(items: Seq<IdAndName>, reordered: Seq<IdAndName>, name: Seq<char>)
    requires
        items.to_multiset() == reordered.to_multiset(),
    ensures
        named(reordered, name).len() == named(items, name).len(),
{
    lemma_named_multiset(items, name);
    lemma_named_multiset(reordered, name);
    vstd::seq_lib::to_multiset_len(named(items, name));
    vstd::seq_lib::to_multiset_len(named(reordered, name));
}

} // verus!
