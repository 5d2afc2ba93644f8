//! Searches for healthcare services: which requests are accepted and to
//! which providers they go.

use crate::models::catalog::{Item, SearchRequest, SearchResponse};
use crate::models::provider::{Category, Location, Provider};
use crate::services::error::ServiceError;
use crate::text::{owned, str_eq};
use vstd::prelude::*;

verus! {

/// The settings of the search service.
#[derive(Debug, Clone)]
pub struct SearchServiceConfig {
    /// How long to wait for the answers of the providers, in seconds.
    pub search_timeout: u64,
    /// To how many providers a search goes at most.
    pub max_providers_per_search: usize,
    /// How many providers must answer for the results to count.
    pub min_providers_for_results: usize,
    /// How many searches may run at once.
    pub concurrent_search_limit: usize,
}

impl SearchServiceConfig {
    /// The settings that apply unless others are given.
    pub open spec fn is_default(self) -> bool {
        &&& self.search_timeout == 30
        &&& self.max_providers_per_search == 10
        &&& self.min_providers_for_results == 1
        &&& self.concurrent_search_limit == 100
    }
}

impl Default for SearchServiceConfig {
    fn default() -> (config: SearchServiceConfig)
        ensures
            config.is_default(),
    {
        SearchServiceConfig {
            search_timeout: 30,
            max_providers_per_search: 10,
            min_providers_for_results: 1,
            concurrent_search_limit: 100,
        }
    }
}

/// Whether some category of `have` has the identifier `id`.
pub open spec fn known_category(have: Seq<Category>, id: Seq<char>) -> bool {
    exists|i: int| 0 <= i < have.len() && (#[trigger] have[i]).id@ == id
}

/// `have`, followed by the categories of `more` whose identifier was not
/// seen before them, in their order.
pub open spec fn joined_categories(have: Seq<Category>, more: Seq<Category>) -> Seq<Category>
    decreases more.len(),
{
    if more.len() == 0 {
        have
    } else {
        let so_far = joined_categories(have, more.drop_last());
        if known_category(so_far, more.last().id@) {
            so_far
        } else {
            so_far.push(more.last())
        }
    }
}

/// Whether some location of `have` has the identifier `id`.
pub open spec fn known_location(have: Seq<Location>, id: Seq<char>) -> bool {
    exists|i: int| 0 <= i < have.len() && (#[trigger] have[i]).id@ == id
}

/// `have`, followed by the locations of `more` whose identifier was not
/// seen before them, in their order.
pub open spec fn joined_locations(have: Seq<Location>, more: Seq<Location>) -> Seq<Location>
    decreases more.len(),
{
    if more.len() == 0 {
        have
    } else {
        let so_far = joined_locations(have, more.drop_last());
        if known_location(so_far, more.last().id@) {
            so_far
        } else {
            so_far.push(more.last())
        }
    }
}

/// Whether `text` is one of `have`.
pub open spec fn known_text(have: Seq<String>, text: Seq<char>) -> bool {
    exists|i: int| 0 <= i < have.len() && (#[trigger] have[i])@ == text
}

/// `have`, followed by the texts of `more` that were not seen before them,
/// in their order.
pub open spec fn joined_texts(have: Seq<String>, more: Seq<String>) -> Seq<String>
    decreases more.len(),
{
    if more.len() == 0 {
        have
    } else {
        let so_far = joined_texts(have, more.drop_last());
        if known_text(so_far, more.last()@) {
            so_far
        } else {
            so_far.push(more.last())
        }
    }
}

/// The items of all the answers, one answer after the other.
pub open spec fn merged_items(answers: Seq<SearchResponse>) -> Seq<Item>
    decreases answers.len(),
{
    if answers.len() == 0 {
        Seq::empty()
    } else if answers.len() == 1 {
        answers[0].catalog.items@
    } else {
        merged_items(answers.drop_last()) + answers.last().catalog.items@
    }
}

/// The categories of the first answer, then those of each later answer
/// that no earlier category shares an identifier with.
pub open spec fn merged_categories(answers: Seq<SearchResponse>) -> Seq<Category>
    decreases answers.len(),
{
    if answers.len() == 0 {
        Seq::empty()
    } else if answers.len() == 1 {
        answers[0].catalog.categories@
    } else {
        joined_categories(
            merged_categories(answers.drop_last()),
            answers.last().catalog.categories@,
        )
    }
}

/// The locations of the first answer, then those of each later answer
/// that no earlier location shares an identifier with.
pub open spec fn merged_locations(answers: Seq<SearchResponse>) -> Seq<Location>
    decreases answers.len(),
{
    if answers.len() == 0 {
        Seq::empty()
    } else if answers.len() == 1 {
        answers[0].catalog.locations@
    } else {
        joined_locations(merged_locations(answers.drop_last()), answers.last().catalog.locations@)
    }
}

/// The fulfillments of the first answer, then those of each later answer
/// that were not named before.
pub open spec fn merged_fulfillments(answers: Seq<SearchResponse>) -> Seq<String>
    decreases answers.len(),
{
    if answers.len() == 0 {
        Seq::empty()
    } else if answers.len() == 1 {
        answers[0].catalog.fulfillments@
    } else {
        joined_texts(
            merged_fulfillments(answers.drop_last()),
            answers.last().catalog.fulfillments@,
        )
    }
}

/// Whether `merged` is the one answer that `answers` make together: the
/// first answer, with what the later ones add to its items, categories,
/// fulfillments and locations.
pub open spec fn is_merged(merged: SearchResponse, answers: Seq<SearchResponse>) -> bool {
    &&& answers.len() > 0
    &&& merged.catalog.descriptor == answers[0].catalog.descriptor
    &&& merged.catalog.payments == answers[0].catalog.payments
    &&& merged.catalog.exp == answers[0].catalog.exp
    &&& merged.catalog.items@ == merged_items(answers)
    &&& merged.catalog.categories@ == merged_categories(answers)
    &&& merged.catalog.locations@ == merged_locations(answers)
    &&& merged.catalog.fulfillments@ == merged_fulfillments(answers)
}

/// Adds to `have` the categories of `more` whose identifier is new.
fn add_categories(have: &mut Vec<Category>, more: Vec<Category>)
    ensures
        final(have)@ == joined_categories(old(have)@, more@),
{
    let ghost all = more@;
    proof {
        assert(all.subrange(0, 0) =~= Seq::<Category>::empty());
    }
    for category in iter: more
        invariant
            iter.seq() == all,
            have@ == joined_categories(old(have)@, all.subrange(0, iter.index() as int)),
    {
        proof {
            let next = all.subrange(0, iter.index() + 1);
            assert(next.drop_last() =~= all.subrange(0, iter.index() as int));
            assert(next.last() == category);
        }
        let mut known = false;
        let mut i: usize = 0;
        while i < have.len()
            invariant
                i <= have@.len(),
                known == known_category(have@.subrange(0, i as int), category.id@),
            decreases have@.len() - i,
        {
            let ghost seen = have@.subrange(0, i as int);
            let ghost grown = have@.subrange(0, i + 1);
            let same = str_eq(have[i].id.as_str(), category.id.as_str());
            proof {
                assert forall|k: int| 0 <= k < seen.len() implies seen[k] == grown[k] by {}
                if same {
                    assert(grown[i as int].id@ == category.id@);
                } else if known_category(grown, category.id@) {
                    let k = choose|k: int|
                        0 <= k < grown.len() && (#[trigger] grown[k]).id@ == category.id@;
                    assert(seen[k].id@ == category.id@);
                } else if known {
                    let k = choose|k: int|
                        0 <= k < seen.len() && (#[trigger] seen[k]).id@ == category.id@;
                    assert(grown[k].id@ == category.id@);
                }
            }
            known = known || same;
            i += 1;
        }
        assert(have@.subrange(0, have@.len() as int) =~= have@);
        if !known {
            have.push(category);
        }
    }
    assert(all.subrange(0, all.len() as int) =~= all);
}

/// Adds to `have` the locations of `more` whose identifier is new.
fn add_locations(have: &mut Vec<Location>, more: Vec<Location>)
    ensures
        final(have)@ == joined_locations(old(have)@, more@),
{
    let ghost all = more@;
    proof {
        assert(all.subrange(0, 0) =~= Seq::<Location>::empty());
    }
    for location in iter: more
        invariant
            iter.seq() == all,
            have@ == joined_locations(old(have)@, all.subrange(0, iter.index() as int)),
    {
        proof {
            let next = all.subrange(0, iter.index() + 1);
            assert(next.drop_last() =~= all.subrange(0, iter.index() as int));
            assert(next.last() == location);
        }
        let mut known = false;
        let mut i: usize = 0;
        while i < have.len()
            invariant
                i <= have@.len(),
                known == known_location(have@.subrange(0, i as int), location.id@),
            decreases have@.len() - i,
        {
            let ghost seen = have@.subrange(0, i as int);
            let ghost grown = have@.subrange(0, i + 1);
            let same = str_eq(have[i].id.as_str(), location.id.as_str());
            proof {
                assert forall|k: int| 0 <= k < seen.len() implies seen[k] == grown[k] by {}
                if same {
                    assert(grown[i as int].id@ == location.id@);
                } else if known_location(grown, location.id@) {
                    let k = choose|k: int|
                        0 <= k < grown.len() && (#[trigger] grown[k]).id@ == location.id@;
                    assert(seen[k].id@ == location.id@);
                } else if known {
                    let k = choose|k: int|
                        0 <= k < seen.len() && (#[trigger] seen[k]).id@ == location.id@;
                    assert(grown[k].id@ == location.id@);
                }
            }
            known = known || same;
            i += 1;
        }
        assert(have@.subrange(0, have@.len() as int) =~= have@);
        if !known {
            have.push(location);
        }
    }
    assert(all.subrange(0, all.len() as int) =~= all);
}

/// Adds to `have` the texts of `more` that are new.
fn add_texts(have: &mut Vec<String>, more: Vec<String>)
    ensures
        final(have)@ == joined_texts(old(have)@, more@),
{
    let ghost all = more@;
    proof {
        assert(all.subrange(0, 0) =~= Seq::<String>::empty());
    }
    for text in iter: more
        invariant
            iter.seq() == all,
            have@ == joined_texts(old(have)@, all.subrange(0, iter.index() as int)),
    {
        proof {
            let next = all.subrange(0, iter.index() + 1);
            assert(next.drop_last() =~= all.subrange(0, iter.index() as int));
            assert(next.last() == text);
        }
        let mut known = false;
        let mut i: usize = 0;
        while i < have.len()
            invariant
                i <= have@.len(),
                known == known_text(have@.subrange(0, i as int), text@),
            decreases have@.len() - i,
        {
            let ghost seen = have@.subrange(0, i as int);
            let ghost grown = have@.subrange(0, i + 1);
            let same = str_eq(have[i].as_str(), text.as_str());
            proof {
                assert forall|k: int| 0 <= k < seen.len() implies seen[k] == grown[k] by {}
                if same {
                    assert(grown[i as int]@ == text@);
                } else if known_text(grown, text@) {
                    let k = choose|k: int|
                        0 <= k < grown.len() && (#[trigger] grown[k])@ == text@;
                    assert(seen[k]@ == text@);
                } else if known {
                    let k = choose|k: int|
                        0 <= k < seen.len() && (#[trigger] seen[k])@ == text@;
                    assert(grown[k]@ == text@);
                }
            }
            known = known || same;
            i += 1;
        }
        assert(have@.subrange(0, have@.len() as int) =~= have@);
        if !known {
            have.push(text);
        }
    }
    assert(all.subrange(0, all.len() as int) =~= all);
}

/// The rules of the search service.
#[derive(Debug, Clone)]
pub struct SearchService {
    /// The settings of the service.
    pub config: SearchServiceConfig,
}

impl SearchService {
    /// The number of providers that a search goes to when `count` are
    /// relevant: all of them, up to the limit of the settings.
    pub open spec fn forwarded(self, count: nat) -> nat {
        if count <= self.config.max_providers_per_search {
            count
        } else {
            self.config.max_providers_per_search as nat
        }
    }

    /// `ids` are the identifiers of the first providers of `providers`, as
    /// many as a search goes to.
    pub open spec fn are_targets(self, ids: Seq<String>, providers: Seq<Provider>) -> bool {
        &&& ids.len() == self.forwarded(providers.len())
        &&& forall|k: int| 0 <= k < ids.len() ==> (#[trigger] ids[k]) == providers[k].id
    }

    /// The service with the default settings.
    pub fn new() -> (service: SearchService)
        ensures
            service.config.is_default(),
    {
        SearchService { config: SearchServiceConfig::default() }
    }

    /// The service with the settings `config`.
    pub fn with_config(config: SearchServiceConfig) -> (service: SearchService)
        ensures
            service.config == config,
    {
        SearchService { config }
    }

    /// Checks a search request.
    ///
    /// Fails with a validation error exactly where the request has no
    /// parameter.
    pub fn validate_search_request(&self, request: &SearchRequest) -> (checked: Result<
        (),
        ServiceError,
    >)
        ensures
            match checked {
                Ok(_) => request.query@.len() > 0,
                Err(e) => e is Validation && request.query@.len() == 0,
            },
    {
        if request.query.len() == 0 {
            Err(ServiceError::Validation(owned("Search query cannot be empty")))
        } else {
            Ok(())
        }
    }

    /// The identifiers of the providers that a search goes to: those of
    /// the first providers of `providers`, up to the limit of the settings.
    pub fn identify_relevant_providers(&self, providers: &Vec<Provider>) -> (ids: Vec<String>)
        ensures
            self.are_targets(ids@, providers@),
    {
        let mut ids: Vec<String> = Vec::new();
        let mut i: usize = 0;
        while i < providers.len() && i < self.config.max_providers_per_search
            invariant
                i <= providers.len(),
                i <= self.config.max_providers_per_search,
                ids@.len() == i,
                forall|k: int| 0 <= k < i ==> (#[trigger] ids@[k]) == providers@[k].id,
            decreases providers.len() - i,
        {
            ids.push(providers[i].id.clone());
            i += 1;
        }
        ids
    }

    /// Accepts a search and names the providers that it goes to.
    ///
    /// Fails with a validation error where the request has no parameter,
    /// and with a not-found error where no provider is relevant.
    pub fn search(&self, request: &SearchRequest, providers: &Vec<Provider>) -> (targets: Result<
        Vec<String>,
        ServiceError,
    >)
        ensures
            match targets {
                Ok(ids) => request.query@.len() > 0 && ids@.len() > 0 && self.are_targets(
                    ids@,
                    providers@,
                ),
                Err(e) => if request.query@.len() == 0 {
                    e is Validation
                } else {
                    e is NotFound && self.forwarded(providers@.len()) == 0
                },
            },
    {
        match self.validate_search_request(request) {
            Ok(_) => {},
            Err(e) => { return Err(e); },
        }
        let ids = self.identify_relevant_providers(providers);
        if ids.len() == 0 {
            return Err(
                ServiceError::NotFound(
                    owned("No matching providers found for the search criteria"),
                ),
            );
        }
        Ok(ids)
    }
    /// Makes one answer of the answers of several providers, taken in the
    /// order given: the first answer, to which each later one adds all its
    /// items and those of its categories, fulfillments and locations that
    /// were not there before.
    ///
    /// Fails with a not-found error where there is no answer at all.
    pub fn merge_search_results(&self, responses: Vec<SearchResponse>) -> (merged: Result<
        SearchResponse,
        ServiceError,
    >)
        ensures
            match merged {
                Ok(answer) => is_merged(answer, responses@),
                Err(e) => responses@.len() == 0 && e is NotFound && e->NotFound_0@
                    == "No search results found"@,
            },
    {
        let ghost all = responses@;
        let mut rest = responses;
        if rest.len() == 0 {
            return Err(ServiceError::NotFound(owned("No search results found")));
        }
        let mut merged = rest.remove(0);
        proof {
            assert(all.subrange(0, 1).len() == 1);
            assert(all.subrange(0, 1)[0] == all[0]);
        }
        let ghost later = rest@;
        for response in iter: rest
            invariant
                iter.seq() == later,
                later == all.remove(0),
                all.len() > 0,
                is_merged(merged, all.subrange(0, 1 + iter.index())),
        {
            let ghost done = all.subrange(0, 1 + iter.index());
            let ghost next = all.subrange(0, 2 + iter.index());
            proof {
                assert(next.drop_last() =~= done);
                assert(next.last() == response);
                assert(next[0] == done[0]);
            }
            let mut catalog = response.catalog;
            merged.catalog.items.append(&mut catalog.items);
            add_categories(&mut merged.catalog.categories, catalog.categories);
            add_texts(&mut merged.catalog.fulfillments, catalog.fulfillments);
            add_locations(&mut merged.catalog.locations, catalog.locations);
        }
        assert(all.subrange(0, all.len() as int) =~= all);
        Ok(merged)
    }
}

} // verus!
