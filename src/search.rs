use vstd::prelude::*;
use crate::product::Product;

verus! {

/// Matches whose distance is above this are not reported.
pub const MAX_DISTANCE: usize = 10;

/// At most this many matches are reported.
pub const MAX_RESULTS: usize = 10;

/// One search hit: a product's id and name with its distance from the term.
pub struct LevenshteinDistance {
    pub id: String,
    pub name: String,
    pub distance: usize,
}

pub open spec fn min3(x: int, y: int, z: int) -> int {
    if x <= y && x <= z {
        x
    } else if y <= z {
        y
    } else {
        z
    }
}

/// The weighted edit table after `i` characters of `b` and `j` of `a`:
/// insertion and deletion cost 1, a mismatch costs 2, and a match right
/// after a cost takes 1 back.
pub open spec fn cell(a: Seq<char>, b: Seq<char>, i: nat, j: nat) -> int
    decreases i, j,
{
    if i == 0 {
        j as int
    } else if j == 0 {
        i as int
    } else {
        let diag = cell(a, b, (i - 1) as nat, (j - 1) as nat);
        let change = if a[j - 1] != b[i - 1] {
            diag + 2
        } else if diag > 0 {
            diag - 1
        } else {
            diag
        };
        min3(
            cell(a, b, (i - 1) as nat, j) + 1,
            cell(a, b, i, (j - 1) as nat) + 1,
            change,
        )
    }
}

/// The weighted edit distance between `a` and `b`; 0 when they are equal.
pub open spec fn edit_distance(a: Seq<char>, b: Seq<char>) -> int {
    if a == b {
        0
    } else {
        cell(a, b, b.len(), a.len())
    }
}

/// How far a lowercased name is from a lowercased term: 0 for an equal name
/// or one that starts with the term, else the edit distance. A pair too long
/// to tabulate in machine integers is past the cut-off.
pub open spec fn score(term: Seq<char>, name: Seq<char>) -> int {
    if term == name || term.is_prefix_of(name) {
        0
    } else if term.len() + name.len() < usize::MAX {
        edit_distance(term, name)
    } else {
        MAX_DISTANCE + 1
    }
}

pub open spec fn entry(p: Product, d: int) -> LevenshteinDistance {
    LevenshteinDistance { id: p.id, name: p.name, distance: d as usize }
}

/// The hits of distance `d` among `ps`, in their order; `names` holds the
/// lowercased names, index for index.
pub open spec fn hits(ps: Seq<Product>, names: Seq<Seq<char>>, term: Seq<char>, d: int) -> Seq<
    LevenshteinDistance,
>
    decreases ps.len(),
{
    if ps.len() == 0 {
        seq![]
    } else {
        let k = ps.len() - 1;
        hits(ps.take(k), names, term, d) + if score(term, names[k]) == d {
            seq![entry(ps[k], d)]
        } else {
            seq![]
        }
    }
}

/// All hits of distance below `d`, by distance, ties in catalog order.
pub open spec fn ranked_below(ps: Seq<Product>, names: Seq<Seq<char>>, term: Seq<char>, d: nat) -> Seq<
    LevenshteinDistance,
>
    decreases d,
{
    if d == 0 {
        seq![]
    } else {
        ranked_below(ps, names, term, (d - 1) as nat) + hits(ps, names, term, d - 1)
    }
}

/// What a search reports: the hits of distance up to the cut-off, stably
/// sorted by distance, at most `MAX_RESULTS` of them.
pub open spec fn ranked(ps: Seq<Product>, names: Seq<Seq<char>>, term: Seq<char>) -> Seq<
    LevenshteinDistance,
> {
    let all = ranked_below(ps, names, term, (MAX_DISTANCE + 1) as nat);
    if all.len() <= MAX_RESULTS {
        all
    } else {
        all.take(MAX_RESULTS as int)
    }
}

pub open spec fn views(v: Seq<String>) -> Seq<Seq<char>> {
    v.map_values(|s: String| s@)
}

proof fn lemma_cell_bounds(a: Seq<char>, b: Seq<char>, i: nat, j: nat)
    ensures
        0 <= cell(a, b, i, j) <= i + j,
    decreases i, j,
{
    if i > 0 && j > 0 {
        lemma_cell_bounds(a, b, (i - 1) as nat, (j - 1) as nat);
        lemma_cell_bounds(a, b, (i - 1) as nat, j);
        lemma_cell_bounds(a, b, i, (j - 1) as nat);
    }
}

fn chars_of(s: &String) -> (r: Vec<char>)
    ensures
        r@ == s@,
{
    let st = s.as_str();
    let n = st.unicode_len();
    let mut r: Vec<char> = Vec::new();
    let mut i: usize = 0;
    while i < n
        invariant
            n == s@.len(),
            st@ == s@,
            i <= n,
            r@ == s@.take(i as int),
        decreases n - i,
    {
        r.push(st.get_char(i));
        i = i + 1;
        assert(r@ =~= s@.take(i as int));
    }
    assert(r@ =~= s@);
    r
}

fn starts_with(s: &Vec<char>, prefix: &Vec<char>) -> (r: bool)
    ensures
        r == prefix@.is_prefix_of(s@),
{
    if prefix.len() > s.len() {
        return false;
    }
    let mut i: usize = 0;
    while i < prefix.len()
        invariant
            prefix.len() <= s.len(),
            i <= prefix.len(),
            forall|k: int| 0 <= k < i ==> prefix@[k] == s@[k],
        decreases prefix.len() - i,
    {
        if prefix[i] != s[i] {
            assert(prefix@[i as int] != s@.subrange(0, prefix@.len() as int)[i as int]);
            return false;
        }
        i = i + 1;
    }
    assert(prefix@ =~= s@.subrange(0, prefix@.len() as int));
    true
}

fn equal_chars(a: &Vec<char>, b: &Vec<char>) -> (r: bool)
    ensures
        r == (a@ == b@),
{
    if a.len() != b.len() {
        return false;
    }
    let r = starts_with(a, b);
    proof {
        if r {
            assert(a@ =~= b@);
        }
    }
    r
}

/// The weighted edit distance over the two sequences of characters.
fn table_distance(a: &Vec<char>, b: &Vec<char>) -> (r: usize)
    requires
        a@.len() + b@.len() < usize::MAX,
    ensures
        r == cell(a@, b@, b@.len(), a@.len()),
{
    let n = a.len();
    let m = b.len();
    let mut column: Vec<usize> = Vec::new();
    let mut j: usize = 0;
    while j <= n
        invariant
            n == a@.len(),
            n + b@.len() < usize::MAX,
            j <= n + 1,
            column@.len() == j,
            forall|k: int| 0 <= k < j ==> column@[k] == cell(a@, b@, 0, k as nat),
        decreases n + 1 - j,
    {
        column.push(j);
        j = j + 1;
    }
    let mut i: usize = 1;
    while i <= m
        invariant
            n == a@.len(),
            m == b@.len(),
            n + m < usize::MAX,
            1 <= i <= m + 1,
            column@.len() == n + 1,
            forall|k: int| 0 <= k <= n ==> column@[k] == cell(a@, b@, (i - 1) as nat, k as nat),
        decreases m + 1 - i,
    {
        let previous = column;
        let mut next: Vec<usize> = Vec::new();
        next.push(i);
        let mut j: usize = 1;
        while j <= n
            invariant
                n == a@.len(),
                m == b@.len(),
                n + m < usize::MAX,
                1 <= i <= m,
                1 <= j <= n + 1,
                previous@.len() == n + 1,
                next@.len() == j,
                forall|k: int|
                    0 <= k <= n ==> previous@[k] == cell(a@, b@, (i - 1) as nat, k as nat),
                forall|k: int| 0 <= k < j ==> next@[k] == cell(a@, b@, i as nat, k as nat),
            decreases n + 1 - j,
        {
            proof {
                lemma_cell_bounds(a@, b@, (i - 1) as nat, j as nat);
                lemma_cell_bounds(a@, b@, i as nat, (j - 1) as nat);
                lemma_cell_bounds(a@, b@, (i - 1) as nat, (j - 1) as nat);
            }
            let add = previous[j] + 1;
            let delete = next[j - 1] + 1;
            let mut change = previous[j - 1];
            if a[j - 1] != b[i - 1] {
                change = change + 2;
            } else if change > 0 {
                change = change - 1;
            }
            let best = if add <= delete && add <= change {
                add
            } else if delete <= change {
                delete
            } else {
                change
            };
            next.push(best);
            j = j + 1;
        }
        column = next;
        i = i + 1;
    }
    column[n]
}

impl LevenshteinDistance {
    pub fn new(id: String, name: String, distance: usize) -> (r: LevenshteinDistance)
        ensures
            r == (LevenshteinDistance { id, name, distance }),
    {
        LevenshteinDistance { id: id, name: name, distance: distance }
    }

    /// The weighted edit distance from `str1` to `str2`, over Unicode scalar
    /// values; 0 for equal strings.
    pub fn calculate(str1: &String, str2: &String) -> (r: usize)
        requires
            str1@.len() + str2@.len() < usize::MAX,
        ensures
            r == edit_distance(str1@, str2@),
    {
        let a = chars_of(str1);
        let b = chars_of(str2);
        if equal_chars(&a, &b) {
            return 0;
        }
        table_distance(&a, &b)
    }
}

/// The distance of one lowercased name from the lowercased term.
fn score_of(term: &Vec<char>, name: &Vec<char>) -> (r: usize)
    ensures
        r == score(term@, name@),
{
    if equal_chars(term, name) {
        return 0;
    }
    if starts_with(name, term) {
        return 0;
    }
    if term.len() < usize::MAX - name.len() {
        proof {
            lemma_cell_bounds(term@, name@, name@.len(), term@.len());
        }
        table_distance(term, name)
    } else {
        MAX_DISTANCE + 1
    }
}

proof fn lemma_hits_step(ps: Seq<Product>, names: Seq<Seq<char>>, term: Seq<char>, d: int, k: int)
    requires
        0 <= k < ps.len(),
    ensures
        hits(ps.take(k + 1), names, term, d) == hits(ps.take(k), names, term, d) + if score(
            term,
            names[k],
        ) == d {
            seq![entry(ps[k], d)]
        } else {
            seq![]
        },
{
    assert(ps.take(k + 1).take(k) =~= ps.take(k));
}

/// Ranks the products against a lowercased term, given their lowercased
/// names index for index: equal or prefixed names at distance 0, the rest by
/// edit distance, those past the cut-off left out, stably sorted by
/// distance and cut to the first `MAX_RESULTS`.
pub fn rank_products(products: &Vec<Product>, lowered_names: &Vec<String>, lowered_term: &String) -> (r: Vec<
    LevenshteinDistance,
>)
    requires
        lowered_names@.len() == products@.len(),
    ensures
        r@ == ranked(products@, views(lowered_names@), lowered_term@),
{
    let ghost names = views(lowered_names@);
    let term = chars_of(lowered_term);
    let mut scores: Vec<usize> = Vec::new();
    let mut k: usize = 0;
    while k < products.len()
        invariant
            lowered_names@.len() == products@.len(),
            names == views(lowered_names@),
            term@ == lowered_term@,
            k <= products.len(),
            scores@.len() == k,
            forall|i: int| 0 <= i < k ==> scores@[i] == score(term@, names[i]),
        decreases products.len() - k,
    {
        let name = chars_of(&lowered_names[k]);
        scores.push(score_of(&term, &name));
        k = k + 1;
    }
    let mut all: Vec<LevenshteinDistance> = Vec::new();
    let mut d: usize = 0;
    while d <= MAX_DISTANCE
        invariant
            scores@.len() == products@.len(),
            forall|i: int| 0 <= i < products@.len() ==> scores@[i] == score(term@, names[i]),
            d <= MAX_DISTANCE + 1,
            all@ == ranked_below(products@, names, term@, d as nat),
        decreases MAX_DISTANCE + 1 - d,
    {
        let mut k: usize = 0;
        while k < products.len()
            invariant
                scores@.len() == products@.len(),
                forall|i: int| 0 <= i < products@.len() ==> scores@[i] == score(term@, names[i]),
                d <= MAX_DISTANCE,
                k <= products.len(),
                all@ == ranked_below(products@, names, term@, d as nat) + hits(
                    products@.take(k as int),
                    names,
                    term@,
                    d as int,
                ),
            decreases products.len() - k,
        {
            proof {
                lemma_hits_step(products@, names, term@, d as int, k as int);
            }
            if scores[k] == d {
                let p = &products[k];
                all.push(LevenshteinDistance::new(p.id.clone(), p.name.clone(), d));
            }
            k = k + 1;
            assert(all@ =~= ranked_below(products@, names, term@, d as nat) + hits(
                products@.take(k as int),
                names,
                term@,
                d as int,
            ));
        }
        assert(products@.take(products@.len() as int) =~= products@);
        d = d + 1;
    }
    all.truncate(MAX_RESULTS);
    proof {
        let full = ranked_below(products@, names, term@, (MAX_DISTANCE + 1) as nat);
        if full.len() > MAX_RESULTS {
            assert(all@ =~= full.take(MAX_RESULTS as int));
        }
    }
    all
}

proof fn lemma_no_hits(ps: Seq<Product>, names: Seq<Seq<char>>, term: Seq<char>, d: int)
    requires
        forall|i: int| 0 <= i < ps.len() ==> score(term, names[i]) != d,
    ensures
        hits(ps, names, term, d) == Seq::<LevenshteinDistance>::empty(),
    decreases ps.len(),
{
    if ps.len() > 0 {
        lemma_no_hits(ps.take(ps.len() - 1), names, term, d);
        assert(hits(ps, names, term, d) =~= Seq::<LevenshteinDistance>::empty());
    }
}

proof fn lemma_first_hit(ps: Seq<Product>, names: Seq<Seq<char>>, term: Seq<char>, k: int)
    requires
        0 <= k < ps.len(),
        score(term, names[k]) == 0,
        forall|i: int| 0 <= i < k ==> score(term, names[i]) != 0,
    ensures
        hits(ps, names, term, 0).len() > 0,
        hits(ps, names, term, 0)[0] == entry(ps[k], 0),
    decreases ps.len(),
{
    let last = ps.len() - 1;
    if k == last {
        lemma_no_hits(ps.take(last), names, term, 0);
    } else {
        lemma_first_hit(ps.take(last), names, term, k);
    }
}

proof fn lemma_ranked_begins_with_exact(
    ps: Seq<Product>,
    names: Seq<Seq<char>>,
    term: Seq<char>,
    d: nat,
)
    requires
        d >= 1,
    ensures
        ranked_below(ps, names, term, d).len() >= hits(ps, names, term, 0).len(),
        forall|i: int|
            0 <= i < hits(ps, names, term, 0).len() ==> ranked_below(ps, names, term, d)[i]
                == hits(ps, names, term, 0)[i],
    decreases d,
{
    if d == 1 {
        assert(ranked_below(ps, names, term, 0) =~= Seq::<LevenshteinDistance>::empty());
        assert(ranked_below(ps, names, term, 1) == ranked_below(ps, names, term, 0) + hits(
            ps,
            names,
            term,
            0,
        ));
        assert(ranked_below(ps, names, term, 1) =~= hits(ps, names, term, 0));
    } else {
        lemma_ranked_begins_with_exact(ps, names, term, (d - 1) as nat);
    }
}

/// A name equal to the term, with no earlier name at distance 0, is
/// reported first, at distance 0.
pub proof fn lemma_exact_name_ranks_first(
    ps: Seq<Product>,
    names: Seq<Seq<char>>,
    term: Seq<char>,
    k: int,
)
    requires
        0 <= k < ps.len(),
        names[k] == term,
        forall|i: int| 0 <= i < k ==> score(term, names[i]) != 0,
    ensures
        ranked(ps, names, term).len() > 0,
        ranked(ps, names, term)[0] == entry(ps[k], 0),
{
    lemma_first_hit(ps, names, term, k);
    lemma_ranked_begins_with_exact(ps, names, term, (MAX_DISTANCE + 1) as nat);
}

} // verus!
