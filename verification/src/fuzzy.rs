//! Autocompletion: suggestions of teams or heroes for what the user typed,
//! found by fuzzy search, with a plain prefix match as fallback.

use std::hash::Hash;

use simsearch::{SearchOptions, SimSearch};

use vstd::prelude::*;

use crate::api::hero::Hero;
use crate::api::team::Team;
use crate::text::{first_index, lemma_first_index, position_of, starts_with, texts};

verus! {

/// `simsearch::SearchOptions`, carried through unread.
#[verifier::external_type_specification]
#[verifier::external_body]
pub struct ExSearchOptions(SearchOptions);

/// `simsearch::SimSearch`, a fuzzy search engine over inserted entries.
#[verifier::external_type_specification]
#[verifier::external_body]
#[verifier::reject_recursive_types(Id)]
pub struct ExSimSearch<Id: Eq + PartialEq + Clone + Hash + Ord>(SimSearch<Id>);

/// The entries of an engine: each id with the content it was inserted with.
pub uninterp spec fn engine_entries(e: SimSearch<String>) -> Map<Seq<char>, Seq<char>>;

/// `SimSearch::new_with`: an engine with no entries.
#[verifier::external_body]
fn engine_new(options: SearchOptions) -> (fresh: SimSearch<String>)
    ensures
        engine_entries(fresh).dom() == Set::<Seq<char>>::empty(),
{
    SimSearch::new_with(options)
}

/// `SimSearch::insert`: adds the entry `id` with `content`, replacing an
/// earlier entry with the same id.
#[verifier::external_body]
fn engine_insert(e: &mut SimSearch<String>, id: String, content: &str)
    ensures
        engine_entries(*final(e)) == engine_entries(*old(e)).insert(id@, content@),
{
    e.insert(id, content)
}

/// `SimSearch::search`: the ids whose content is similar to `pattern`, most
/// similar first. What is claimed is that each is the id of an entry, that
/// none comes twice, and that an empty pattern (which leaves no token to
/// compare) finds nothing; which entries are similar enough to other
/// patterns, and their order, are not stated (they rest on floating-point
/// scores summed in hash-map order).
#[verifier::external_body]
fn engine_search(e: &SimSearch<String>, pattern: &str) -> (r: Vec<String>)
    ensures
        forall|i: int| 0 <= i < r@.len() ==> engine_entries(*e).contains_key(#[trigger] r@[i]@),
        forall|i: int, j: int| 0 <= i < j < r@.len() ==> r@[i]@ != r@[j]@,
        pattern@.len() == 0 ==> r@.len() == 0,
{
    e.search(pattern)
}

/// Something that can be suggested: the id it is chosen by and its label.
#[derive(Clone, Debug)]
pub struct Candidate {
    pub id: String,
    pub label: String,
}

/// A suggestion as shown to the user: a label (`name`) and the text that is
/// filled in (`value`).
#[derive(Clone, Debug)]
pub struct Suggestion {
    pub name: String,
    pub value: String,
}

/// The ids of the candidates, in order.
pub open spec fn candidate_ids(c: Seq<Candidate>) -> Seq<Seq<char>> {
    c.map_values(|x: Candidate| x.id@)
}

/// The texts of `items` that begin with `query`, in order.
pub open spec fn prefixed(items: Seq<Seq<char>>, query: Seq<char>) -> Seq<Seq<char>>
    decreases items.len(),
{
    if items.len() == 0 {
        Seq::empty()
    } else {
        prefixed(items.drop_last(), query) + (if query.is_prefix_of(items.last()) {
            seq![items.last()]
        } else {
            Seq::empty()
        })
    }
}

/// The ids considered: the fuzzy matches, or, when there are none, the ids
/// that begin with the query; at most ten of them.
pub open spec fn considered(c: Seq<Candidate>, query: Seq<char>, matches: Seq<Seq<char>>) -> Seq<
    Seq<char>,
> {
    let all = if matches.len() == 0 {
        prefixed(candidate_ids(c), query)
    } else {
        matches
    };
    if all.len() <= 10 {
        all
    } else {
        all.subrange(0, 10)
    }
}

/// For each considered id that some candidate has, the first such candidate
/// as a suggestion (label, id).
pub open spec fn suggestions_for(c: Seq<Candidate>, ids: Seq<Seq<char>>) -> Seq<
    (Seq<char>, Seq<char>),
>
    decreases ids.len(),
{
    if ids.len() == 0 {
        Seq::empty()
    } else {
        let p = first_index(candidate_ids(c), ids.last());
        suggestions_for(c, ids.drop_last()) + (if p < c.len() {
            seq![(c[p].label@, c[p].id@)]
        } else {
            Seq::empty()
        })
    }
}

/// The suggestions for `query` given the fuzzy `matches`.
pub open spec fn suggestions_model(
    c: Seq<Candidate>,
    query: Seq<char>,
    matches: Seq<Seq<char>>,
) -> Seq<(Seq<char>, Seq<char>)> {
    suggestions_for(c, considered(c, query, matches))
}

/// Whether `matches` could come from a search over the candidates: ids of
/// candidates, none twice.
pub open spec fn possible_matches(c: Seq<Candidate>, matches: Seq<Seq<char>>) -> bool {
    &&& forall|i: int| 0 <= i < matches.len() ==> candidate_ids(c).contains(#[trigger] matches[i])
    &&& forall|i: int, j: int| 0 <= i < j < matches.len() ==> matches[i] != matches[j]
}

/// The suggestions, as (name, value) pairs.
pub open spec fn suggestion_pairs(s: Seq<Suggestion>) -> Seq<(Seq<char>, Seq<char>)> {
    s.map_values(|x: Suggestion| (x.name@, x.value@))
}

/// Teams are chosen by slug and labelled by name.
pub open spec fn team_candidate_model(teams: Seq<Team>) -> Seq<(Seq<char>, Seq<char>)> {
    teams.map_values(|t: Team| (t.slug@, t.name@))
}

/// Heroes are chosen by, and labelled with, their GitHub handle.
pub open spec fn hero_candidate_model(heroes: Seq<Hero>) -> Seq<(Seq<char>, Seq<char>)> {
    heroes.map_values(|h: Hero| (h.github@, h.github@))
}

/// The candidates as (id, label) pairs.
pub open spec fn candidate_pairs(c: Seq<Candidate>) -> Seq<(Seq<char>, Seq<char>)> {
    c.map_values(|x: Candidate| (x.id@, x.label@))
}

/// The teams as candidates: by slug, labelled by name.
pub fn team_candidates(teams: &Vec<Team>) -> (c: Vec<Candidate>)
    ensures
        candidate_pairs(c@) == team_candidate_model(teams@),
{
    let mut c: Vec<Candidate> = Vec::new();
    let n = teams.len();
    for i in 0..n
        invariant
            n == teams@.len(),
            c@.len() == i,
            forall|j: int|
                0 <= j < i ==> (#[trigger] c@[j]).id@ == teams@[j].slug@ && c@[j].label@
                    == teams@[j].name@,
    {
        c.push(Candidate { id: teams[i].slug.clone(), label: teams[i].name.clone() });
    }
    assert(candidate_pairs(c@) =~= team_candidate_model(teams@));
    c
}

/// The heroes as candidates: by GitHub handle, labelled by it too.
pub fn hero_candidates(heroes: &Vec<Hero>) -> (c: Vec<Candidate>)
    ensures
        candidate_pairs(c@) == hero_candidate_model(heroes@),
{
    let mut c: Vec<Candidate> = Vec::new();
    let n = heroes.len();
    for i in 0..n
        invariant
            n == heroes@.len(),
            c@.len() == i,
            forall|j: int|
                0 <= j < i ==> (#[trigger] c@[j]).id@ == heroes@[j].github@ && c@[j].label@
                    == heroes@[j].github@,
    {
        c.push(Candidate { id: heroes[i].github.clone(), label: heroes[i].github.clone() });
    }
    assert(candidate_pairs(c@) =~= hero_candidate_model(heroes@));
    c
}

/// The suggestions for `query`, given the ids that fuzzy search found: the
/// matches, or, when there are none, the ids that begin with the query; at
/// most ten; each shown with the first candidate that has it.
pub fn suggestions_from_matches(c: &Vec<Candidate>, query: &str, matches: Vec<String>) -> (s: Vec<
    Suggestion,
>)
    ensures
        suggestion_pairs(s@) == suggestions_model(c@, query@, texts(matches@)),
{
    let n = c.len();
    let mut ids: Vec<String> = Vec::new();
    for i in 0..n
        invariant
            n == c@.len(),
            ids@.len() == i,
            forall|j: int| 0 <= j < i ==> #[trigger] ids@[j]@ == c@[j].id@,
    {
        ids.push(c[i].id.clone());
    }
    assert(texts(ids@) =~= candidate_ids(c@));
    let mut res = matches;
    if res.len() == 0 {
        let mut i: usize = 0;
        while i < n
            invariant
                n == c@.len(),
                ids@.len() == n,
                texts(ids@) == candidate_ids(c@),
                0 <= i <= n,
                texts(res@) == prefixed(candidate_ids(c@).subrange(0, i as int), query@),
            decreases n - i,
        {
            let ghost sub = candidate_ids(c@).subrange(0, i + 1);
            assert(texts(ids@)[i as int] == ids@[i as int]@);
            assert(sub.last() == ids@[i as int]@);
            if starts_with(ids[i].as_str(), query) {
                res.push(ids[i].clone());
            }
            assert(candidate_ids(c@).subrange(0, i + 1).drop_last() =~= candidate_ids(c@).subrange(
                0,
                i as int,
            ));
            assert(prefixed(sub, query@) == prefixed(sub.drop_last(), query@) + (if query@.is_prefix_of(sub.last()) {
                seq![sub.last()]
            } else {
                Seq::empty()
            }));
            assert(texts(res@) =~= prefixed(sub, query@));
            i = i + 1;
        }
        assert(candidate_ids(c@).subrange(0, n as int) =~= candidate_ids(c@));
    }
    let ghost all = texts(res@);
    res.truncate(10);
    let ghost kept = texts(res@);
    assert(kept =~= considered(c@, query@, texts(matches@)));
    let mut out: Vec<Suggestion> = Vec::new();
    let k = res.len();
    for i in 0..k
        invariant
            n == c@.len(),
            k == res@.len(),
            texts(ids@) == candidate_ids(c@),
            kept == texts(res@),
            suggestion_pairs(out@) == suggestions_for(c@, kept.subrange(0, i as int)),
    {
        let p = position_of(&ids, &res[i]);
        proof {
            lemma_first_index(texts(ids@), res@[i as int]@, 0);
            assert(kept.subrange(0, i + 1).drop_last() =~= kept.subrange(0, i as int));
            assert(kept.subrange(0, i + 1).last() == res@[i as int]@);
        }
        if p < n {
            out.push(Suggestion { name: c[p].label.clone(), value: c[p].id.clone() });
        }
        assert(suggestion_pairs(out@) =~= suggestions_for(c@, kept.subrange(0, i + 1)));
    }
    assert(kept.subrange(0, k as int) =~= kept);
    out
}

/// The entries of an engine into which the candidates were inserted in
/// order: each id with the label of its last candidate.
pub open spec fn inserted(c: Seq<Candidate>) -> Map<Seq<char>, Seq<char>>
    decreases c.len(),
{
    if c.len() == 0 {
        Map::empty()
    } else {
        inserted(c.drop_last()).insert(c.last().id@, c.last().label@)
    }
}

/// Whether `m` can be what a search of `e` for `query` gives: ids of entries,
/// none twice, and nothing for an empty query.
pub open spec fn found_in(e: SimSearch<String>, query: Seq<char>, m: Seq<Seq<char>>) -> bool {
    &&& forall|i: int| 0 <= i < m.len() ==> engine_entries(e).contains_key(#[trigger] m[i])
    &&& forall|i: int, j: int| 0 <= i < j < m.len() ==> m[i] != m[j]
    &&& query.len() == 0 ==> m.len() == 0
}

/// The ids of an engine built from the candidates are the candidates' ids.
pub proof fn lemma_inserted_ids(c: Seq<Candidate>, k: Seq<char>)
    ensures
        inserted(c).contains_key(k) <==> candidate_ids(c).contains(k),
    decreases c.len(),
{
    if c.len() > 0 {
        lemma_inserted_ids(c.drop_last(), k);
        assert(candidate_ids(c.drop_last()) =~= candidate_ids(c).drop_last());
        if candidate_ids(c).contains(k) && k != c.last().id@ {
            let j = choose|j: int| 0 <= j < candidate_ids(c).len() && candidate_ids(c)[j] == k;
            assert(j != c.len() - 1);
            assert(candidate_ids(c.drop_last())[j] == k);
        }
        if candidate_ids(c.drop_last()).contains(k) {
            let j = choose|j: int|
                0 <= j < candidate_ids(c.drop_last()).len() && candidate_ids(c.drop_last())[j] == k;
            assert(candidate_ids(c)[j] == k);
        }
        if k == c.last().id@ {
            assert(candidate_ids(c)[c.len() - 1] == k);
        }
    }
}

/// A search engine built with `options` holding every candidate, in order:
/// its id, with its label as the searched content.
pub fn build_engine(options: SearchOptions, c: &Vec<Candidate>) -> (e: SimSearch<String>)
    ensures
        engine_entries(e) == inserted(c@),
{
    let mut engine = engine_new(options);
    assert(engine_entries(engine) =~= Map::<Seq<char>, Seq<char>>::empty());
    assert(c@.subrange(0, 0) =~= Seq::<Candidate>::empty());
    let n = c.len();
    for i in 0..n
        invariant
            n == c@.len(),
            engine_entries(engine) == inserted(c@.subrange(0, i as int)),
    {
        engine_insert(&mut engine, c[i].id.clone(), c[i].label.as_str());
        assert(c@.subrange(0, i + 1).drop_last() =~= c@.subrange(0, i as int));
        assert(c@.subrange(0, i + 1).last() == c@[i as int]);
    }
    assert(c@.subrange(0, n as int) =~= c@);
    engine
}

/// Whether `found` is a result that the engine's search `engine_search` gave
/// when it searched `e` for `pattern`.
pub closed spec fn searched(e: SimSearch<String>, pattern: &str, found: Vec<String>) -> bool {
    call_ensures(engine_search, (&e, pattern), found)
}

/// The suggestions for `query` among `c`: an engine built with `options`
/// holding every candidate (`build_engine`) is searched for `query`, and what
/// it finds is turned into suggestions as `suggestions_from_matches` says.
pub fn search_candidates(options: SearchOptions, c: &Vec<Candidate>, query: &str) -> (s: Vec<
    Suggestion,
>)
    ensures
        exists|e: SimSearch<String>, m: Seq<Seq<char>>|
            #![trigger engine_entries(e), suggestions_model(c@, query@, m)]
            engine_entries(e) == inserted(c@) && found_in(e, query@, m) && possible_matches(c@, m)
                && suggestion_pairs(s@) == suggestions_model(c@, query@, m),
        query@.len() == 0 ==> suggestion_pairs(s@) == suggestions_model(c@, query@, Seq::empty()),
        exists|e: SimSearch<String>, found: Vec<String>|
            #![trigger searched(e, query, found)]
            engine_entries(e) == inserted(c@) && searched(e, query, found) && possible_matches(
                c@,
                texts(found@),
            ) && suggestion_pairs(s@) == suggestions_model(c@, query@, texts(found@)),
{
    let engine = build_engine(options, c);
    let search = engine_search;
    let found = search(&engine, query);
    let ghost found_v = found;
    assert(searched(engine, query, found_v));
    proof {
        assert forall|i: int| 0 <= i < found@.len() implies candidate_ids(c@).contains(
            #[trigger] texts(found@)[i],
        ) by {
            assert(engine_entries(engine).contains_key(found@[i]@));
            lemma_inserted_ids(c@, found@[i]@);
        }
    }
    let ghost m = texts(found@);
    assert(found_in(engine, query@, m));
    assert(query@.len() == 0 ==> m =~= Seq::<Seq<char>>::empty());
    let s = suggestions_from_matches(c, query, found);
    assert(possible_matches(c@, m));
    assert(engine_entries(engine) == inserted(c@) && found_in(engine, query@, m)
        && possible_matches(c@, m) && suggestion_pairs(s@) == suggestions_model(c@, query@, m));
    assert(engine_entries(engine) == inserted(c@) && searched(engine, query, found_v)
        && possible_matches(c@, texts(found_v@)) && suggestion_pairs(s@) == suggestions_model(
        c@,
        query@,
        texts(found_v@),
    ));
    s
}

/// Team suggestions for `query`: teams are searched by name and suggested by
/// slug.
pub fn search_teams(options: SearchOptions, leaderboard: &Vec<Team>, query: &str) -> (s: Vec<
    Suggestion,
>)
    ensures
        exists|c: Seq<Candidate>, e: SimSearch<String>, m: Seq<Seq<char>>|
            #![trigger candidate_pairs(c), engine_entries(e), suggestions_model(c, query@, m)]
            candidate_pairs(c) == team_candidate_model(leaderboard@) && engine_entries(e)
                == inserted(c) && found_in(e, query@, m) && possible_matches(c, m)
                && suggestion_pairs(s@) == suggestions_model(c, query@, m),
        query@.len() == 0 ==> exists|c: Seq<Candidate>|
            candidate_pairs(c) == team_candidate_model(leaderboard@) && suggestion_pairs(s@)
                == #[trigger] suggestions_model(c, query@, Seq::empty()),
        exists|c: Seq<Candidate>, e: SimSearch<String>, found: Vec<String>|
            #![trigger candidate_pairs(c), searched(e, query, found)]
            candidate_pairs(c) == team_candidate_model(leaderboard@) && engine_entries(e) == inserted(c)
                && searched(e, query, found) && possible_matches(c, texts(found@))
                && suggestion_pairs(s@) == suggestions_model(c, query@, texts(found@)),
{
    let c = team_candidates(leaderboard);
    let s = search_candidates(options, &c, query);
    assert(query@.len() == 0 ==> suggestion_pairs(s@) == suggestions_model(c@, query@, Seq::empty()));
    s
}

/// Hero suggestions for `query`: heroes are searched and suggested by GitHub
/// handle.
pub fn search_hero(options: SearchOptions, heroes: &Vec<Hero>, query: &str) -> (s: Vec<
    Suggestion,
>)
    ensures
        exists|c: Seq<Candidate>, e: SimSearch<String>, m: Seq<Seq<char>>|
            #![trigger candidate_pairs(c), engine_entries(e), suggestions_model(c, query@, m)]
            candidate_pairs(c) == hero_candidate_model(heroes@) && engine_entries(e) == inserted(c)
                && found_in(e, query@, m) && possible_matches(c, m) && suggestion_pairs(s@)
                == suggestions_model(c, query@, m),
        query@.len() == 0 ==> exists|c: Seq<Candidate>|
            candidate_pairs(c) == hero_candidate_model(heroes@) && suggestion_pairs(s@)
                == #[trigger] suggestions_model(c, query@, Seq::empty()),
        exists|c: Seq<Candidate>, e: SimSearch<String>, found: Vec<String>|
            #![trigger candidate_pairs(c), searched(e, query, found)]
            candidate_pairs(c) == hero_candidate_model(heroes@) && engine_entries(e) == inserted(c)
                && searched(e, query, found) && possible_matches(c, texts(found@))
                && suggestion_pairs(s@) == suggestions_model(c, query@, texts(found@)),
{
    let c = hero_candidates(heroes);
    let s = search_candidates(options, &c, query);
    assert(query@.len() == 0 ==> suggestion_pairs(s@) == suggestions_model(c@, query@, Seq::empty()));
    s
}

/// Each suggestion names a candidate: its label and its id.
pub proof fn lemma_suggestions_are_candidates(c: Seq<Candidate>, ids: Seq<Seq<char>>)
    ensures
        suggestions_for(c, ids).len() <= ids.len(),
        forall|i: int|
            #![trigger suggestions_for(c, ids)[i]]
            0 <= i < suggestions_for(c, ids).len() ==> exists|k: int|
                0 <= k < c.len() && suggestions_for(c, ids)[i] == (#[trigger] c[k].label@, c[k].id@),
    decreases ids.len(),
{
    if ids.len() > 0 {
        lemma_suggestions_are_candidates(c, ids.drop_last());
        let p = first_index(candidate_ids(c), ids.last());
        lemma_first_index(candidate_ids(c), ids.last(), 0);
        let rest = suggestions_for(c, ids.drop_last());
        let whole = suggestions_for(c, ids);
        if p < c.len() {
            assert(whole == rest + seq![(c[p].label@, c[p].id@)]);
            assert forall|i: int| #![trigger whole[i]] 0 <= i < whole.len() implies exists|k: int|
                0 <= k < c.len() && whole[i] == (#[trigger] c[k].label@, c[k].id@) by {
                if i < rest.len() {
                    assert(whole[i] == rest[i]);
                    let k = choose|k: int|
                        0 <= k < c.len() && rest[i] == (#[trigger] c[k].label@, c[k].id@);
                    assert(whole[i] == (c[k].label@, c[k].id@));
                } else {
                    assert(whole[i] == (c[p].label@, c[p].id@));
                }
            }
        } else {
            assert(whole =~= rest);
            assert forall|i: int| #![trigger whole[i]] 0 <= i < whole.len() implies exists|k: int|
                0 <= k < c.len() && whole[i] == (#[trigger] c[k].label@, c[k].id@) by {
                assert(whole[i] == rest[i]);
                let k = choose|k: int|
                    0 <= k < c.len() && rest[i] == (#[trigger] c[k].label@, c[k].id@);
                assert(whole[i] == (c[k].label@, c[k].id@));
            }
        }
    }
}

/// Ids that candidates have become one suggestion each, in order: the label
/// of the first candidate with that id, and the id.
proof fn lemma_suggestions_follow_ids(c: Seq<Candidate>, ids: Seq<Seq<char>>)
    requires
        forall|i: int| 0 <= i < ids.len() ==> candidate_ids(c).contains(#[trigger] ids[i]),
    ensures
        suggestions_for(c, ids).len() == ids.len(),
        forall|i: int|
            0 <= i < ids.len() ==> first_index(candidate_ids(c), #[trigger] ids[i]) < c.len()
                && c[first_index(candidate_ids(c), ids[i])].id@ == ids[i] && suggestions_for(
                c,
                ids,
            )[i] == (c[first_index(candidate_ids(c), ids[i])].label@, ids[i]),
    decreases ids.len(),
{
    if ids.len() > 0 {
        let rest = ids.drop_last();
        assert forall|i: int| 0 <= i < rest.len() implies candidate_ids(c).contains(
            #[trigger] rest[i],
        ) by {
            assert(rest[i] == ids[i]);
        }
        lemma_suggestions_follow_ids(c, rest);
        assert forall|i: int| 0 <= i < ids.len() implies first_index(
            candidate_ids(c),
            #[trigger] ids[i],
        ) < c.len() && c[first_index(candidate_ids(c), ids[i])].id@ == ids[i] by {
            lemma_first_index(candidate_ids(c), ids[i], 0);
            assert(candidate_ids(c).contains(ids[i]));
            let j = choose|j: int| 0 <= j < candidate_ids(c).len() && candidate_ids(c)[j] == ids[i];
            assert(first_index(candidate_ids(c), ids[i]) <= j);
        }
        assert(ids.last() == ids[ids.len() - 1]);
        let whole = suggestions_for(c, ids);
        assert forall|i: int| 0 <= i < ids.len() implies #[trigger] whole[i] == (c[first_index(
            candidate_ids(c),
            ids[i],
        )].label@, ids[i]) by {
            if i < rest.len() {
                assert(rest[i] == ids[i]);
                assert(whole[i] == suggestions_for(c, rest)[i]);
            }
        }
    }
}

/// When the engine's search found ids, those ids become the suggestions, in
/// the order found, at most ten: the i-th suggestion fills in the i-th id and
/// is labelled by a candidate with that id. The query is then not read.
pub proof fn lemma_matches_become_suggestions(c: Seq<Candidate>, query: Seq<char>, m: Seq<Seq<char>>)
    requires
        m.len() > 0,
        possible_matches(c, m),
    ensures
        suggestions_model(c, query, m).len() == (if m.len() < 10 {
            m.len()
        } else {
            10
        }),
        forall|i: int|
            0 <= i < suggestions_model(c, query, m).len() ==> (#[trigger] suggestions_model(
                c,
                query,
                m,
            )[i]).1 == m[i] && exists|k: int|
                0 <= k < c.len() && c[k].id@ == m[i] && suggestions_model(c, query, m)[i].0
                    == c[k].label@,
{
    let ids = considered(c, query, m);
    assert forall|i: int| 0 <= i < ids.len() implies candidate_ids(c).contains(#[trigger] ids[i]) by {
        assert(ids[i] == m[i]);
    }
    lemma_suggestions_follow_ids(c, ids);
    let s = suggestions_model(c, query, m);
    assert forall|i: int| 0 <= i < s.len() implies (#[trigger] s[i]).1 == m[i] && exists|k: int|
        0 <= k < c.len() && c[k].id@ == m[i] && s[i].0 == c[k].label@ by {
        assert(ids[i] == m[i]);
        let k = first_index(candidate_ids(c), ids[i]);
        assert(0 <= k < c.len() && c[k].id@ == m[i] && s[i].0 == c[k].label@) by {
            lemma_first_index(candidate_ids(c), ids[i], 0);
        }
    }
}

/// At most ten suggestions are made (each names a candidate, by
/// `lemma_suggestions_are_candidates`).
pub proof fn lemma_at_most_ten_suggestions(c: Seq<Candidate>, query: Seq<char>, m: Seq<Seq<char>>)
    ensures
        suggestions_model(c, query, m).len() <= 10,
{
    lemma_suggestions_are_candidates(c, considered(c, query, m));
}

/// Without fuzzy matches, the ids considered are those that begin with the
/// query: each of them does.
pub proof fn lemma_fallback_is_prefix_match(items: Seq<Seq<char>>, query: Seq<char>)
    ensures
        forall|i: int| 0 <= i < prefixed(items, query).len() ==> query.is_prefix_of(
            #[trigger] prefixed(items, query)[i],
        ),
        prefixed(items, query).len() <= items.len(),
    decreases items.len(),
{
    if items.len() > 0 {
        lemma_fallback_is_prefix_match(items.drop_last(), query);
        let rest = prefixed(items.drop_last(), query);
        assert forall|i: int| 0 <= i < prefixed(items, query).len() implies query.is_prefix_of(
            #[trigger] prefixed(items, query)[i],
        ) by {
            if i < rest.len() {
                assert(prefixed(items, query)[i] == rest[i]);
            }
        }
    }
}

} // verus!
