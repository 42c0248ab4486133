use vstd::prelude::*;

verus! {

/// The case-folded form of a piece of text, as `str::to_lowercase` produces it.
pub uninterp spec fn lower_of(s: Seq<char>) -> Seq<char>;

/// The best-match score that the word-start-emphasizing fuzzy search assigns
/// to `query` against `target`, or `None` when no full alignment of the query
/// inside the target exists.
pub uninterp spec fn fuzzy_score_of(query: Seq<char>, target: Seq<char>) -> Option<int>;

/// Relies on str::to_lowercase: the result depends on the characters alone.
#[verifier::external_body]
fn lowercase(s: &str) -> (r: String)
    ensures
        r@ == lower_of(s@),
{
    s.to_lowercase()
}

/// Relies on sublime_fuzzy::FuzzySearch with Scoring::emphasize_word_starts:
/// the best-match score depends on the query and target text alone.
#[verifier::external_body]
fn fuzzy_best_score(query: &str, target: &str) -> (r: Option<isize>)
    ensures
        r is Some <==> fuzzy_score_of(query@, target@) is Some,
        r matches Some(s) ==> fuzzy_score_of(query@, target@) == Some(s as int),
{
    let scoring = sublime_fuzzy::Scoring::emphasize_word_starts();
    match sublime_fuzzy::FuzzySearch::new(query, target).score_with(&scoring).best_match() {
        Some(m) => Some(m.score()),
        None => None,
    }
}

/// A candidate matches exactly when the case-folded input equals its own
/// case-folded text.
pub open spec fn is_exact(input: Seq<char>, cand: Seq<char>) -> bool {
    lower_of(input) == lower_of(cand)
}

/// The fuzzy score a candidate earns against the input, both case-folded.
pub open spec fn cand_score(input: Seq<char>, cand: Seq<char>) -> Option<int> {
    fuzzy_score_of(lower_of(input), lower_of(cand))
}

/// The score reaches at least `bound`.
pub open spec fn score_at_least(score: Option<int>, bound: int) -> bool {
    score matches Some(s) && s >= bound
}

/// The score exceeds `bound`.
pub open spec fn score_above(score: Option<int>, bound: int) -> bool {
    score matches Some(s) && s > bound
}

/// One step of the scan over the candidate list, carrying the best score so
/// far and the index that earned it: an exact match at position `k` ends the
/// scan at once, and a later candidate displaces the best one only with a
/// strictly greater score, so ties keep the earliest candidate.
pub open spec fn scan_from(
    input: Seq<char>,
    cands: Seq<Seq<char>>,
    k: int,
    best_score: int,
    best: Option<int>,
) -> Option<int>
    decreases cands.len() - k,
{
    if k < 0 || k >= cands.len() {
        best
    } else if is_exact(input, cands[k]) {
        Some(k)
    } else if score_above(cand_score(input, cands[k]), best_score) {
        scan_from(input, cands, k + 1, cand_score(input, cands[k])->Some_0, Some(k))
    } else {
        scan_from(input, cands, k + 1, best_score, best)
    }
}

/// The index of the candidate the selector picks for `input`, or `None` when
/// no candidate matches exactly and none earns a positive fuzzy score.
pub open spec fn select_spec(input: Seq<char>, cands: Seq<Seq<char>>) -> Option<int> {
    scan_from(input, cands, 0, 0, None)
}

/// Picks the candidate that best matches the free-form `input`: a candidate
/// equal to the input up to case folding wins outright (the earliest such
/// one), otherwise the earliest candidate with the strictly greatest positive
/// fuzzy score, and `None` when neither exists. The winner is returned in its
/// original casing. An empty input can only win by matching an empty
/// candidate exactly; it earns no fuzzy score.
pub fn select(input: &str, candidates: &Vec<String>) -> (r: Option<String>)
    ensures
        match r {
            Some(c) => select_spec(input@, candidates.deep_view()) matches Some(i)
                && 0 <= i < candidates.len() && c@ == candidates.deep_view()[i],
            None => select_spec(input@, candidates.deep_view()) is None,
        },
{
    let folded = lowercase(input);
    let ghost cv = candidates.deep_view();
    let mut best_score: isize = 0;
    let mut best: Option<String> = None;
    let ghost mut best_i: Option<int> = None;
    let mut k: usize = 0;
    while k < candidates.len()
        invariant
            0 <= k <= candidates.len(),
            cv == candidates.deep_view(),
            folded@ == lower_of(input@),
            scan_from(input@, cv, k as int, best_score as int, best_i)
                == select_spec(input@, cv),
            match best_i {
                Some(i) => {
                    &&& 0 <= i < k
                    &&& best matches Some(b) && b@ == cv[i]
                    &&& cand_score(input@, cv[i]) == Some(best_score as int)
                    &&& best_score > 0
                },
                None => best is None && best_score == 0,
            },
        decreases candidates.len() - k,
    {
        let cand = &candidates[k];
        let cand_folded = lowercase(cand.as_str());
        match fuzzy_best_score(folded.as_str(), cand_folded.as_str()) {
            Some(s) => {
                if s > best_score {
                    best_score = s;
                    best = Some(cand.clone());
                    proof {
                        best_i = Some(k as int);
                    }
                }
            },
            None => {},
        }
        if folded == cand_folded {
            return Some(cand.clone());
        }
        k = k + 1;
    }
    best
}

/// The position of the first input attempt the selector accepts against the
/// candidate list, scanning from `k`.
pub open spec fn first_accepted_from(
    attempts: Seq<Seq<char>>,
    cands: Seq<Seq<char>>,
    k: int,
) -> Option<int>
    decreases attempts.len() - k,
{
    if k < 0 || k >= attempts.len() {
        None
    } else if select_spec(attempts[k], cands) is Some {
        Some(k)
    } else {
        first_accepted_from(attempts, cands, k + 1)
    }
}

/// The selection retry loop over a fixed list of input attempts: each attempt
/// is fed to the selector in turn and the first accepted selection is
/// returned, so a bounded attempt list gives a bounded retry policy.
pub fn select_first(attempts: &Vec<String>, candidates: &Vec<String>) -> (r: Option<String>)
    ensures
        match r {
            Some(c) => first_accepted_from(attempts.deep_view(), candidates.deep_view(), 0)
                matches Some(a) && (select_spec(attempts.deep_view()[a], candidates.deep_view())
                matches Some(i) && 0 <= i < candidates.len() && c@ == candidates.deep_view()[i]),
            None => first_accepted_from(attempts.deep_view(), candidates.deep_view(), 0) is None,
        },
{
    let ghost av = attempts.deep_view();
    let ghost cv = candidates.deep_view();
    let mut k: usize = 0;
    while k < attempts.len()
        invariant
            0 <= k <= attempts.len(),
            av == attempts.deep_view(),
            cv == candidates.deep_view(),
            first_accepted_from(av, cv, k as int) == first_accepted_from(av, cv, 0),
        decreases attempts.len() - k,
    {
        let attempt = &attempts[k];
        match select(attempt.as_str(), candidates) {
            Some(c) => {
                return Some(c);
            },
            None => {},
        }
        k = k + 1;
    }
    None
}

/// The position of the earliest exactly matching candidate at or after `k`.
spec fn first_exact_from(input: Seq<char>, cands: Seq<Seq<char>>, k: int) -> Option<int>
    decreases cands.len() - k,
{
    if k < 0 || k >= cands.len() {
        None
    } else if is_exact(input, cands[k]) {
        Some(k)
    } else {
        first_exact_from(input, cands, k + 1)
    }
}

proof fn lemma_first_exact_sound(input: Seq<char>, cands: Seq<Seq<char>>, k: int)
    requires
        0 <= k <= cands.len(),
    ensures
        match first_exact_from(input, cands, k) {
            Some(w) => k <= w < cands.len() && is_exact(input, cands[w])
                && (forall|j: int| k <= j < w ==> !is_exact(input, cands[j])),
            None => forall|j: int| k <= j < cands.len() ==> !is_exact(input, cands[j]),
        },
    decreases cands.len() - k,
{
    if k < cands.len() && !is_exact(input, cands[k]) {
        lemma_first_exact_sound(input, cands, k + 1);
    }
}

proof fn lemma_scan_hits_first_exact(
    input: Seq<char>,
    cands: Seq<Seq<char>>,
    k: int,
    bs: int,
    bi: Option<int>,
    e: int,
)
    requires
        0 <= k <= cands.len(),
        first_exact_from(input, cands, k) == Some(e),
    ensures
        scan_from(input, cands, k, bs, bi) == Some(e),
    decreases cands.len() - k,
{
    if k < cands.len() && !is_exact(input, cands[k]) {
        if score_above(cand_score(input, cands[k]), bs) {
            lemma_scan_hits_first_exact(
                input,
                cands,
                k + 1,
                cand_score(input, cands[k])->Some_0,
                Some(k),
                e,
            );
        } else {
            lemma_scan_hits_first_exact(input, cands, k + 1, bs, bi, e);
        }
    }
}

/// Law: an exact match wins regardless of score. Whenever some candidate
/// equals the input up to case folding, the selector picks the earliest such
/// candidate, whatever fuzzy scores the others earn.
pub proof fn lemma_exact_match_wins(input: Seq<char>, cands: Seq<Seq<char>>, e: int)
    requires
        0 <= e < cands.len(),
        is_exact(input, cands[e]),
    ensures
        select_spec(input, cands) matches Some(w) && 0 <= w <= e && is_exact(input, cands[w])
            && (forall|j: int| 0 <= j < w ==> !is_exact(input, cands[j])),
{
    lemma_first_exact_sound(input, cands, 0);
    let w = first_exact_from(input, cands, 0)->Some_0;
    lemma_scan_hits_first_exact(input, cands, 0, 0, None, w);
}

proof fn lemma_scan_best(input: Seq<char>, cands: Seq<Seq<char>>, k: int, bs: int, bi: Option<int>)
    requires
        0 <= k <= cands.len(),
        forall|j: int| k <= j < cands.len() ==> !is_exact(input, cands[j]),
        match bi {
            Some(i) => 0 <= i < k && cand_score(input, cands[i]) == Some(bs) && bs > 0
                && (forall|j: int| 0 <= j < i ==> !score_at_least(cand_score(input, cands[j]), bs))
                && (forall|j: int| i < j < k ==> !score_above(cand_score(input, cands[j]), bs)),
            None => bs == 0 && (forall|j: int|
                0 <= j < k ==> !score_above(cand_score(input, cands[j]), 0)),
        },
    ensures
        match scan_from(input, cands, k, bs, bi) {
            Some(w) => {
                &&& 0 <= w < cands.len()
                &&& cand_score(input, cands[w]) matches Some(s) && s > 0 && (forall|j: int|
                    0 <= j < w ==> !score_at_least(cand_score(input, cands[j]), s)) && (forall|
                    j: int,
                |
                    w < j < cands.len() ==> !score_above(cand_score(input, cands[j]), s))
            },
            None => forall|j: int|
                0 <= j < cands.len() ==> !score_above(cand_score(input, cands[j]), 0),
        },
    decreases cands.len() - k,
{
    if k >= cands.len() {
    } else if score_above(cand_score(input, cands[k]), bs) {
        let s2 = cand_score(input, cands[k])->Some_0;
        assert forall|j: int| 0 <= j < k implies !score_at_least(
            cand_score(input, cands[j]),
            s2,
        ) by {
            match bi {
                Some(i) => {
                    if j < i {
                        assert(!score_at_least(cand_score(input, cands[j]), bs));
                    } else if j == i {
                        assert(cand_score(input, cands[j]) == Some(bs));
                    } else {
                        assert(!score_above(cand_score(input, cands[j]), bs));
                    }
                },
                None => {
                    assert(!score_above(cand_score(input, cands[j]), 0));
                },
            }
        }
        lemma_scan_best(input, cands, k + 1, s2, Some(k));
    } else {
        lemma_scan_best(input, cands, k + 1, bs, bi);
    }
}

/// Law: when no candidate matches exactly, the selector returns the earliest
/// candidate whose fuzzy score is positive and strictly greatest, and absent
/// when no candidate earns a positive score.
pub proof fn lemma_best_fuzzy_score_wins(input: Seq<char>, cands: Seq<Seq<char>>)
    requires
        forall|k: int| 0 <= k < cands.len() ==> !is_exact(input, cands[k]),
    ensures
        match select_spec(input, cands) {
            Some(w) => {
                &&& 0 <= w < cands.len()
                &&& cand_score(input, cands[w]) matches Some(s) && s > 0 && (forall|j: int|
                    0 <= j < w ==> !score_at_least(cand_score(input, cands[j]), s)) && (forall|
                    j: int,
                |
                    w < j < cands.len() ==> !score_above(cand_score(input, cands[j]), s))
            },
            None => forall|j: int|
                0 <= j < cands.len() ==> !score_above(cand_score(input, cands[j]), 0),
        },
{
    lemma_scan_best(input, cands, 0, 0, None);
}

/// Law: ties favor the earliest listed candidate. When two candidates earn
/// identical fuzzy scores and the later one matches only approximately, the
/// later one is never the selection.
pub proof fn lemma_tie_break_earliest(input: Seq<char>, cands: Seq<Seq<char>>, i: int, j: int)
    requires
        0 <= i < j < cands.len(),
        !is_exact(input, cands[j]),
        cand_score(input, cands[i]) == cand_score(input, cands[j]),
    ensures
        select_spec(input, cands) != Some(j),
{
    lemma_first_exact_sound(input, cands, 0);
    match first_exact_from(input, cands, 0) {
        Some(w) => {
            lemma_scan_hits_first_exact(input, cands, 0, 0, None, w);
        },
        None => {
            lemma_scan_best(input, cands, 0, 0, None);
            if select_spec(input, cands) == Some(j) {
                assert(score_at_least(
                    cand_score(input, cands[i]),
                    cand_score(input, cands[j])->Some_0,
                ));
            }
        },
    }
}

/// Law: input that neither equals any candidate up to case folding nor aligns
/// inside any candidate is reported as absent.
pub proof fn lemma_no_match_absent(input: Seq<char>, cands: Seq<Seq<char>>)
    requires
        forall|k: int| 0 <= k < cands.len() ==> !is_exact(input, cands[k]),
        forall|k: int| 0 <= k < cands.len() ==> cand_score(input, cands[k]) is None,
    ensures
        select_spec(input, cands) is None,
{
    lemma_best_fuzzy_score_wins(input, cands);
}

/// Law: with no candidates there is nothing to select.
pub proof fn lemma_empty_candidates(input: Seq<char>)
    ensures
        select_spec(input, Seq::<Seq<char>>::empty()) is None,
{
}

} // verus!
