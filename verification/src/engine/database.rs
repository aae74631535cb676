//! The engine catalog: lookup by name and suggestions for a name that
//! matches nothing.

use vstd::prelude::*;

use super::engine::Engine;
use super::text::{characters, lowercase, to_lowercase};

verus! {

/// The greatest score that still makes a suggestion.
pub const SUGGESTION_THRESHOLD: usize = 6;

/// The greatest number of suggestions.
pub const SUGGESTION_LIMIT: usize = 3;

/// A list of engines that can be asked by name.
#[derive(Debug, Clone)]
pub struct EngineDatabase {
    pub engines: Vec<Engine>,
}

/// The least of three numbers.
pub open spec fn least(x: nat, y: nat, z: nat) -> nat {
    if x <= y && x <= z {
        x
    } else if y <= z {
        y
    } else {
        z
    }
}

/// The Levenshtein distance of two texts: the least number of characters
/// to delete, insert or replace to turn one into the other.
pub open spec fn levenshtein(a: Seq<char>, b: Seq<char>) -> nat
    decreases a.len() + b.len(),
{
    if a.len() == 0 {
        b.len()
    } else if b.len() == 0 {
        a.len()
    } else {
        least(
            levenshtein(a.drop_last(), b) + 1,
            levenshtein(a, b.drop_last()) + 1,
            levenshtein(a.drop_last(), b.drop_last()) + (if a.last() == b.last() {
                0nat
            } else {
                1nat
            }),
        )
    }
}

/// Whether `pattern` occurs in `text` as a run of consecutive characters.
pub open spec fn occurs_in(pattern: Seq<char>, text: Seq<char>) -> bool {
    exists|i: int|
        0 <= i && i + pattern.len() <= text.len() && #[trigger] text.subrange(
            i,
            i + pattern.len(),
        ) == pattern
}

/// How far a name is from a query, both in lower case: 0 where the name
/// starts with the query, 1 where it holds the query, 2 where the query
/// starts with the name, else 3 more than their Levenshtein distance.
pub open spec fn score(query: Seq<char>, name: Seq<char>) -> nat {
    if query.is_prefix_of(name) {
        0
    } else if occurs_in(query, name) {
        1
    } else if name.is_prefix_of(query) {
        2
    } else {
        levenshtein(query, name) + 3
    }
}

/// Whether engine `i` with score `s` comes before engine `j` with score
/// `t`: by score, and by place in the catalog where the scores are equal.
pub open spec fn ranks_before(s: nat, i: int, t: nat, j: int) -> bool {
    s < t || (s == t && i < j)
}

/// Whether `picks` are the suggestions for the given scores: at most three
/// engines whose score is at most 6, the best first, and no engine left out
/// that would come before one of them or fill a free place.
pub open spec fn suggested(scores: Seq<nat>, picks: Seq<int>) -> bool {
    &&& picks.len() <= SUGGESTION_LIMIT
    &&& forall|k: int|
        0 <= k < picks.len() ==> 0 <= #[trigger] picks[k] < scores.len() && scores[picks[k]]
            <= SUGGESTION_THRESHOLD
    &&& forall|k: int, l: int|
        0 <= k < l < picks.len() ==> ranks_before(
            scores[#[trigger] picks[k]],
            picks[k],
            scores[#[trigger] picks[l]],
            picks[l],
        )
    &&& forall|j: int|
        0 <= j < scores.len() && #[trigger] scores[j] <= SUGGESTION_THRESHOLD ==> picks.contains(j)
            || (picks.len() == SUGGESTION_LIMIT && ranks_before(
            scores[picks[picks.len() - 1]],
            picks[picks.len() - 1],
            scores[j],
            j,
        ))
}

/// The distance of two texts is at most the length of the longer.
pub proof fn lemma_levenshtein_bound(a: Seq<char>, b: Seq<char>)
    ensures
        levenshtein(a, b) <= a.len() || levenshtein(a, b) <= b.len(),
    decreases a.len() + b.len(),
{
    if a.len() > 0 && b.len() > 0 {
        lemma_levenshtein_bound(a.drop_last(), b.drop_last());
    }
}

/// The distance of a text to itself is zero.
pub proof fn lemma_levenshtein_self(a: Seq<char>)
    ensures
        levenshtein(a, a) == 0,
    decreases a.len(),
{
    if a.len() > 0 {
        lemma_levenshtein_self(a.drop_last());
    }
}

/// The Levenshtein distance of two character lists.
pub fn distance(a: &Vec<char>, b: &Vec<char>) -> (r: usize)
    ensures
        r == levenshtein(a@, b@),
{
    let m: usize = a.len();
    let n: usize = b.len();
    if m == 0 {
        return n;
    }
    if n == 0 {
        return m;
    }
    let mut prev: Vec<usize> = Vec::new();
    let mut j: usize = 0;
    while j < n
        invariant
            j <= n,
            n == b@.len(),
            prev@.len() == j,
            forall|k: int| 0 <= k < j ==> prev@[k] == levenshtein(a@.take(0), b@.take(k)),
        decreases n - j,
    {
        prev.push(j);
        j = j + 1;
    }
    prev.push(n);
    assert(prev@.len() == n + 1);
    let full: usize = prev.len();
    let mut i: usize = 0;
    while i < m
        invariant
            i <= m,
            m == a@.len(),
            n == b@.len(),
            n > 0,
            n < usize::MAX,
            prev@.len() == n + 1,
            forall|k: int|
                0 <= k <= n ==> prev@[k] == levenshtein(a@.take(i as int), #[trigger] b@.take(k)),
        decreases m - i,
    {
        let row: usize = i + 1;
        let mut curr: Vec<usize> = Vec::new();
        curr.push(row);
        let mut j: usize = 1;
        while j <= n
            invariant
                1 <= j <= n + 1,
                i < m,
                row == i + 1,
                m == a@.len(),
                n == b@.len(),
                n < usize::MAX,
                prev@.len() == n + 1,
                curr@.len() == j,
                forall|k: int|
                    0 <= k <= n ==> prev@[k] == levenshtein(a@.take(i as int), #[trigger] b@.take(k)),
                forall|k: int|
                    0 <= k < j ==> curr@[k] == levenshtein(a@.take(row as int), #[trigger] b@.take(k)),
            decreases n + 1 - j,
        {
            proof {
                let x = a@.take(row as int);
                let y = b@.take(j as int);
                assert(x.drop_last() == a@.take(i as int));
                assert(y.drop_last() == b@.take(j - 1));
                assert(x.last() == a@[i as int]);
                assert(y.last() == b@[j - 1]);
                lemma_levenshtein_bound(a@.take(i as int), b@.take(j as int));
                lemma_levenshtein_bound(a@.take(row as int), b@.take(j - 1));
                lemma_levenshtein_bound(a@.take(i as int), b@.take(j - 1));
                assert(prev@[j as int] == levenshtein(a@.take(i as int), b@.take(j as int)));
                assert(prev@[j - 1] == levenshtein(a@.take(i as int), b@.take(j - 1)));
                assert(curr@[j - 1] == levenshtein(a@.take(row as int), b@.take(j - 1)));
            }
            let cost: usize = if a[i] == b[j - 1] {
                0
            } else {
                1
            };
            let step: usize = if prev[j] <= curr[j - 1] {
                prev[j]
            } else {
                curr[j - 1]
            };
            let swap: usize = prev[j - 1] + cost;
            let value: usize = if step < swap {
                step + 1
            } else {
                swap
            };
            curr.push(value);
            j = j + 1;
        }
        prev = curr;
        i = i + 1;
    }
    proof {
        assert(a@.take(m as int) == a@);
        assert(b@.take(n as int) == b@);
    }
    prev[n]
}

/// The Levenshtein distance of two texts.
pub fn edit_distance(a: &str, b: &str) -> (r: usize)
    ensures
        r == levenshtein(a@, b@),
{
    let x: Vec<char> = characters(a);
    let y: Vec<char> = characters(b);
    distance(&x, &y)
}

/// Whether `text` starts with `pattern`.
pub fn starts_with(text: &Vec<char>, pattern: &Vec<char>) -> (r: bool)
    ensures
        r == pattern@.is_prefix_of(text@),
{
    if pattern.len() > text.len() {
        return false;
    }
    let mut k: usize = 0;
    while k < pattern.len()
        invariant
            k <= pattern@.len() <= text@.len(),
            forall|i: int| 0 <= i < k ==> pattern@[i] == text@[i],
        decreases pattern@.len() - k,
    {
        if pattern[k] != text[k] {
            proof {
                assert(text@.subrange(0, pattern@.len() as int)[k as int] == text@[k as int]);
            }
            return false;
        }
        k = k + 1;
    }
    assert(pattern@ =~= text@.subrange(0, pattern@.len() as int));
    true
}

/// Whether `pattern` occurs in `text`.
pub fn holds(text: &Vec<char>, pattern: &Vec<char>) -> (r: bool)
    ensures
        r == occurs_in(pattern@, text@),
{
    if pattern.len() > text.len() {
        return false;
    }
    let last: usize = text.len() - pattern.len();
    let mut i: usize = 0;
    loop
        invariant
            i <= last,
            last == text@.len() - pattern@.len(),
            text@.len() <= usize::MAX,
            forall|s: int|
                0 <= s < i ==> #[trigger] text@.subrange(s, s + pattern@.len()) != pattern@,
        decreases last - i,
    {
        let mut k: usize = 0;
        let mut same: bool = true;
        while k < pattern.len() && same
            invariant
                k <= pattern@.len(),
                i + pattern@.len() <= text@.len(),
                text@.len() <= usize::MAX,
                same ==> forall|d: int| 0 <= d < k ==> pattern@[d] == text@[i + d],
                !same ==> text@.subrange(i as int, i + pattern@.len()) != pattern@,
            decreases
                    (if same {
                        pattern@.len() - k + 1
                    } else {
                        0
                    }),
        {
            if pattern[k] != text[i + k] {
                same = false;
                proof {
                    assert(text@.subrange(i as int, i + pattern@.len())[k as int] == text@[i + k]);
                }
            } else {
                k = k + 1;
            }
        }
        if same {
            assert(text@.subrange(i as int, i + pattern@.len()) =~= pattern@);
            return true;
        }
        if i == last {
            assert forall|s: int|
                0 <= s && s + pattern@.len() <= text@.len() implies #[trigger] text@.subrange(
                s,
                s + pattern@.len(),
            ) != pattern@ by {}
            return false;
        }
        i = i + 1;
    }
}

/// How far a name is from a query, both in lower case. A score beyond the
/// machine's integers is given as the greatest of them.
pub fn score_of(query: &Vec<char>, name: &Vec<char>) -> (r: usize)
    ensures
        r == score(query@, name@) || (r == usize::MAX && score(query@, name@) > usize::MAX),
{
    if starts_with(name, query) {
        0
    } else if holds(name, query) {
        1
    } else if starts_with(query, name) {
        2
    } else {
        let d: usize = distance(query, name);
        if d > usize::MAX - 3 {
            usize::MAX
        } else {
            d + 3
        }
    }
}

/// Whether the machine scores `held` stand for the scores `scores`: each is
/// its score, or the greatest integer where the score is beyond it.
pub open spec fn stands_for(held: Seq<usize>, scores: Seq<nat>) -> bool {
    &&& held.len() == scores.len()
    &&& forall|i: int|
        0 <= i < held.len() ==> #[trigger] held[i] == scores[i] || (held[i] == usize::MAX
            && scores[i] > usize::MAX)
}

/// The places of engines as integers.
pub open spec fn places(picks: Seq<usize>) -> Seq<int> {
    Seq::new(picks.len(), |k: int| picks[k] as int)
}

/// Picks the suggestions from the engines' scores: the engines of the
/// three least scores that are at most 6, the best first, engines of equal
/// score in catalog order.
fn pick_suggestions(held: &Vec<usize>, Ghost(scores): Ghost<Seq<nat>>) -> (r: Vec<usize>)
    requires
        stands_for(held@, scores),
    ensures
        suggested(scores, places(r@)),
{
    let n: usize = held.len();
    let mut picks: Vec<usize> = Vec::new();
    let mut more: bool = true;
    while picks.len() < SUGGESTION_LIMIT && more
        invariant
            n == held@.len(),
            stands_for(held@, scores),
            picks@.len() <= SUGGESTION_LIMIT,
            forall|k: int|
                0 <= k < picks@.len() ==> #[trigger] picks@[k] < n && scores[picks@[k] as int]
                    <= SUGGESTION_THRESHOLD,
            forall|k: int, l: int|
                0 <= k < l < picks@.len() ==> ranks_before(
                    scores[#[trigger] picks@[k] as int],
                    picks@[k] as int,
                    scores[#[trigger] picks@[l] as int],
                    picks@[l] as int,
                ),
            forall|j: int|
                0 <= j < n && #[trigger] scores[j] <= SUGGESTION_THRESHOLD ==> picks@.contains(
                    j as usize,
                ) || (picks@.len() > 0 && more && ranks_before(
                    scores[picks@[picks@.len() - 1] as int],
                    picks@[picks@.len() - 1] as int,
                    scores[j],
                    j,
                )) || (picks@.len() == 0 && more),
        decreases
                (if more {
                    SUGGESTION_LIMIT - picks@.len() + 1
                } else {
                    0
                }),
    {
        let mut best: Option<usize> = None;
        let mut j: usize = 0;
        while j < n
            invariant
                j <= n,
                n == held@.len(),
                stands_for(held@, scores),
                more,
                forall|k: int| 0 <= k < picks@.len() ==> #[trigger] picks@[k] < n,
                best matches Some(b) ==> {
                    &&& b < j
                    &&& scores[b as int] <= SUGGESTION_THRESHOLD
                    &&& picks@.len() > 0 ==> ranks_before(
                        scores[picks@[picks@.len() - 1] as int],
                        picks@[picks@.len() - 1] as int,
                        scores[b as int],
                        b as int,
                    )
                },
                forall|k: int|
                    0 <= k < j && #[trigger] scores[k] <= SUGGESTION_THRESHOLD && (picks@.len() > 0
                        ==> ranks_before(
                        scores[picks@[picks@.len() - 1] as int],
                        picks@[picks@.len() - 1] as int,
                        scores[k],
                        k,
                    )) ==> best is Some && (k == best->0 || ranks_before(
                        scores[best->0 as int],
                        best->0 as int,
                        scores[k],
                        k,
                    )),
            decreases n - j,
        {
            let s: usize = held[j];
            let after: bool = if picks.len() == 0 {
                true
            } else {
                let last: usize = picks[picks.len() - 1];
                held[last] < s || (held[last] == s && last < j)
            };
            if s <= SUGGESTION_THRESHOLD && after {
                let better: bool = match best {
                    None => true,
                    Some(b) => s < held[b],
                };
                if better {
                    best = Some(j);
                }
            }
            j = j + 1;
        }
        match best {
            None => {
                more = false;
            },
            Some(b) => {
                let ghost before = picks@;
                picks.push(b);
                proof {
                    assert forall|j: int|
                        0 <= j < n && #[trigger] scores[j] <= SUGGESTION_THRESHOLD implies picks@.contains(
                        j as usize,
                    ) || ranks_before(scores[b as int], b as int, scores[j], j) by {
                        if before.contains(j as usize) {
                            let w = choose|w: int| 0 <= w < before.len() && before[w] == j as usize;
                            assert(picks@[w] == j as usize);
                        } else if j == b {
                            assert(picks@[picks@.len() - 1] == b);
                        }
                    }
                    assert forall|k: int, l: int| 0 <= k < l < picks@.len() implies ranks_before(
                        scores[#[trigger] picks@[k] as int],
                        picks@[k] as int,
                        scores[#[trigger] picks@[l] as int],
                        picks@[l] as int,
                    ) by {
                        if l == picks@.len() - 1 {
                            assert(picks@[k] == before[k]);
                            if k < before.len() - 1 {
                                assert(ranks_before(
                                    scores[before[k] as int],
                                    before[k] as int,
                                    scores[before[before.len() - 1] as int],
                                    before[before.len() - 1] as int,
                                ));
                            }
                        } else {
                            assert(picks@[k] == before[k] && picks@[l] == before[l]);
                        }
                    }
                }
            },
        }
    }
    proof {
        let chosen = places(picks@);
        assert forall|j: int|
            0 <= j < scores.len() && #[trigger] scores[j] <= SUGGESTION_THRESHOLD implies chosen.contains(
            j,
        ) || (chosen.len() == SUGGESTION_LIMIT && ranks_before(
            scores[chosen[chosen.len() - 1]],
            chosen[chosen.len() - 1],
            scores[j],
            j,
        )) by {
            if picks@.contains(j as usize) {
                let w = choose|w: int| 0 <= w < picks@.len() && picks@[w] == j as usize;
                assert(chosen[w] == j);
            }
        }
        assert forall|k: int, l: int| 0 <= k < l < chosen.len() implies ranks_before(
            scores[#[trigger] chosen[k]],
            chosen[k],
            scores[#[trigger] chosen[l]],
            chosen[l],
        ) by {
            assert(chosen[k] == picks@[k] as int && chosen[l] == picks@[l] as int);
        }
    }
    picks
}

impl EngineDatabase {
    /// Whether engine `i` goes by `name`, case aside.
    pub open spec fn named(&self, i: int, name: Seq<char>) -> bool {
        lowercase(self.engines@[i].name@) == lowercase(name)
    }

    /// The scores of the engines for a query.
    pub open spec fn scores(&self, query: Seq<char>) -> Seq<nat> {
        Seq::new(
            self.engines@.len(),
            |i: int| score(lowercase(query), lowercase(self.engines@[i].name@)),
        )
    }

    /// A catalog of the given engines.
    pub fn new(engines: Vec<Engine>) -> (r: EngineDatabase)
        ensures
            r.engines == engines,
    {
        EngineDatabase { engines }
    }

    /// The first engine that goes by `name`, case aside.
    pub fn get(&self, name: &str) -> (r: Option<&Engine>)
        ensures
            match r {
                Some(engine) => exists|i: int|
                    {
                        &&& 0 <= i < self.engines@.len()
                        &&& #[trigger] self.named(i, name@)
                        &&& forall|k: int| 0 <= k < i ==> !self.named(k, name@)
                        &&& *engine == self.engines@[i]
                    },
                None => forall|i: int| 0 <= i < self.engines@.len() ==> !self.named(i, name@),
            },
    {
        let wanted: String = to_lowercase(name);
        let mut i: usize = 0;
        while i < self.engines.len()
            invariant
                i <= self.engines@.len(),
                wanted@ == lowercase(name@),
                forall|k: int| 0 <= k < i ==> !self.named(k, name@),
            decreases self.engines@.len() - i,
        {
            let lowered: String = to_lowercase(self.engines[i].name.as_str());
            if lowered == wanted {
                assert(self.named(i as int, name@));
                return Some(&self.engines[i]);
            }
            i = i + 1;
        }
        None
    }

    /// The engines to suggest for a name that matched nothing, by their
    /// places in the catalog: at most three, whose names are closest to the
    /// query, the closest first.
    pub fn suggestions(&self, query: &str) -> (r: Vec<usize>)
        ensures
            suggested(self.scores(query@), places(r@)),
    {
        let lowered: String = to_lowercase(query);
        let wanted: Vec<char> = characters(lowered.as_str());
        let mut held: Vec<usize> = Vec::new();
        let mut i: usize = 0;
        while i < self.engines.len()
            invariant
                i <= self.engines@.len(),
                wanted@ == lowercase(query@),
                held@.len() == i,
                forall|k: int|
                    0 <= k < i ==> #[trigger] held@[k] == self.scores(query@)[k] || (held@[k]
                        == usize::MAX && self.scores(query@)[k] > usize::MAX),
            decreases self.engines@.len() - i,
        {
            let name: String = to_lowercase(self.engines[i].name.as_str());
            let letters: Vec<char> = characters(name.as_str());
            held.push(score_of(&wanted, &letters));
            i = i + 1;
        }
        pick_suggestions(&held, Ghost(self.scores(query@)))
    }

    /// The names to suggest for a name that matched nothing: at most
    /// three, closest first. A name that starts with the query is closest,
    /// then one that holds it, then one that the query starts with, then
    /// names by their edit distance, as far as 3.
    pub fn suggest(&self, query: &str) -> (r: Vec<&str>)
        ensures
            exists|picks: Seq<int>|
                {
                    &&& #[trigger] suggested(self.scores(query@), picks)
                    &&& r@.len() == picks.len()
                    &&& forall|k: int|
                        0 <= k < r@.len() ==> (#[trigger] r@[k])@ == self.engines@[picks[k]].name@
                },
    {
        let picks: Vec<usize> = self.suggestions(query);
        let mut out: Vec<&str> = Vec::new();
        let mut k: usize = 0;
        while k < picks.len()
            invariant
                k <= picks@.len(),
                suggested(self.scores(query@), places(picks@)),
                out@.len() == k,
                forall|l: int|
                    0 <= l < k ==> (#[trigger] out@[l])@ == self.engines@[picks@[l] as int].name@,
            decreases picks@.len() - k,
        {
            assert(places(picks@)[k as int] == picks@[k as int]);
            out.push(self.engines[picks[k]].name.as_str());
            k = k + 1;
        }
        proof {
            let chosen = places(picks@);
            assert forall|l: int| 0 <= l < out@.len() implies (#[trigger] out@[l])@
                == self.engines@[chosen[l]].name@ by {
                assert(chosen[l] == picks@[l] as int);
            }
        }
        out
    }

    /// Every engine, in catalog order.
    pub fn list(&self) -> (r: &Vec<Engine>)
        ensures
            *r == self.engines,
    {
        &self.engines
    }

    /// The names of the engines, in catalog order.
    pub fn names(&self) -> (r: Vec<&str>)
        ensures
            r@.len() == self.engines@.len(),
            forall|i: int| 0 <= i < r@.len() ==> (#[trigger] r@[i])@ == self.engines@[i].name@,
    {
        let mut out: Vec<&str> = Vec::new();
        let mut i: usize = 0;
        while i < self.engines.len()
            invariant
                i <= self.engines@.len(),
                out@.len() == i,
                forall|k: int| 0 <= k < i ==> (#[trigger] out@[k])@ == self.engines@[k].name@,
            decreases self.engines@.len() - i,
        {
            out.push(self.engines[i].name.as_str());
            i = i + 1;
        }
        out
    }
}

} // verus!
