use vstd::prelude::*;

use crate::text::{
    chars_eq, chars_lex_lt, find_char, is_blank, lemma_find_char, lex_lt, lower_chars, lower_seq,
    str_chars, str_is_blank,
};

verus! {

/// One catalog entry: a display name and a two-letter language code.
#[derive(Clone, Copy, Debug)]
pub struct Language {
    pub name: &'static str,
    pub code: &'static str,
}

/// The static language catalog, as (name, code) character sequences, in
/// catalog order.
pub open spec fn catalog() -> Seq<(Seq<char>, Seq<char>)> {
    seq![
        ("English"@, "EN"@),
        ("Spanish"@, "ES"@),
        ("French"@, "FR"@),
        ("German"@, "DE"@),
        ("Italian"@, "IT"@),
        ("Portuguese"@, "PT"@),
        ("Dutch"@, "NL"@),
        ("Polish"@, "PL"@),
        ("Russian"@, "RU"@),
        ("Japanese"@, "JA"@),
        ("Chinese"@, "ZH"@),
        ("Korean"@, "KO"@),
        ("Swedish"@, "SV"@),
    ]
}

/// The language catalog. Order is stable; indices into it identify languages
/// throughout the session.
pub fn languages() -> (r: Vec<Language>)
    ensures
        r@.len() == catalog().len(),
        forall|i: int|
            0 <= i < r@.len() ==> r@[i].name@ == catalog()[i].0 && r@[i].code@ == catalog()[i].1,
{
    let mut r: Vec<Language> = Vec::new();
    r.push(Language { name: "English", code: "EN" });
    r.push(Language { name: "Spanish", code: "ES" });
    r.push(Language { name: "French", code: "FR" });
    r.push(Language { name: "German", code: "DE" });
    r.push(Language { name: "Italian", code: "IT" });
    r.push(Language { name: "Portuguese", code: "PT" });
    r.push(Language { name: "Dutch", code: "NL" });
    r.push(Language { name: "Polish", code: "PL" });
    r.push(Language { name: "Russian", code: "RU" });
    r.push(Language { name: "Japanese", code: "JA" });
    r.push(Language { name: "Chinese", code: "ZH" });
    r.push(Language { name: "Korean", code: "KO" });
    r.push(Language { name: "Swedish", code: "SV" });
    r
}

/// What a catalog entry is matched against: its lowercased name and
/// lowercased code, joined by one space.
pub open spec fn candidate_of(i: int) -> Seq<char> {
    lower_seq(catalog()[i].0) + seq![' '] + lower_seq(catalog()[i].1)
}

/// The fuzzy subsequence score: each query character must occur, in order,
/// in the candidate; the score sums the candidate characters skipped before
/// each one is found (lower is better). `None` when some character never
/// occurs.
pub open spec fn fuzzy_spec(q: Seq<char>, cand: Seq<char>) -> Option<int>
    decreases q.len(),
{
    if q.len() == 0 {
        Option::Some(0)
    } else {
        match find_char(cand, q[0]) {
            Option::None => Option::None,
            Option::Some(i) => match fuzzy_spec(q.skip(1), cand.skip(i + 1)) {
                Option::None => Option::None,
                Option::Some(s) => Option::Some(s + i),
            },
        }
    }
}

/// Add a fixed amount to a score that may be absent.
pub open spec fn opt_add(k: int, o: Option<int>) -> Option<int> {
    match o {
        Option::None => Option::None,
        Option::Some(x) => Option::Some(k + x),
    }
}

/// Whether the (lowercased) query matches catalog entry `i`.
pub open spec fn lang_matches(q: Seq<char>, i: int) -> bool {
    fuzzy_spec(lower_seq(q), candidate_of(i)) is Some
}

/// The score of a matching catalog entry.
pub open spec fn score_of(q: Seq<char>, i: int) -> int {
    match fuzzy_spec(lower_seq(q), candidate_of(i)) {
        Option::Some(s) => s,
        Option::None => 0,
    }
}

/// How many of the first `n` catalog entries match the query.
pub open spec fn matched_count(q: Seq<char>, n: int) -> int
    decreases n,
{
    if n <= 0 {
        0
    } else {
        matched_count(q, n - 1) + if lang_matches(q, n - 1) {
            1int
        } else {
            0int
        }
    }
}

/// The first position at or after `from` holding `c`, if any.
fn find_from(cand: &Vec<char>, from: usize, c: char) -> (r: Option<usize>)
    requires
        from <= cand@.len(),
    ensures
        match r {
            Option::Some(j) => from <= j < cand@.len() && cand@[j as int] == c && find_char(
                cand@.skip(from as int),
                c,
            ) == Option::Some(j - from),
            Option::None => find_char(cand@.skip(from as int), c) is None,
        },
{
    let ghost tail = cand@.skip(from as int);
    let n = cand.len();
    let mut j = from;
    while j < n
        invariant
            from <= j <= n,
            n == cand@.len(),
            tail == cand@.skip(from as int),
            forall|k: int| from <= k < j ==> cand@[k] != c,
        decreases n - j,
    {
        if cand[j] == c {
            proof {
                lemma_find_char(tail, c);
                assert(tail[j - from] == cand@[j as int]);
                match find_char(tail, c) {
                    Option::None => {
                        assert(tail[j - from] != c);
                    },
                    Option::Some(i0) => {
                        assert(tail[i0] == c);
                        assert(tail[i0] == cand@[from + i0]);
                        if i0 < j - from {
                            assert(cand@[from + i0] != c);
                        }
                        if i0 > j - from {
                            assert(tail[j - from] != c);
                        }
                    },
                }
            }
            return Option::Some(j);
        }
        j = j + 1;
    }
    proof {
        lemma_find_char(tail, c);
        match find_char(tail, c) {
            Option::None => {},
            Option::Some(i0) => {
                assert(tail[i0] == cand@[from + i0]);
                assert(cand@[from + i0] != c);
            },
        }
    }
    Option::None
}

/// One unfolding of the fuzzy score from loop state: the next query
/// character found at offset `f` adds `f` to the score.
proof fn lemma_fuzzy_unfold(q: Seq<char>, cand: Seq<char>, qi: int, li: int)
    requires
        0 <= qi < q.len(),
        0 <= li <= cand.len(),
    ensures
        fuzzy_spec(q.skip(qi), cand.skip(li)) == match find_char(cand.skip(li), q[qi]) {
            Option::None => Option::None::<int>,
            Option::Some(f) => opt_add(
                f,
                fuzzy_spec(q.skip(qi + 1), cand.skip(li + f + 1)),
            ),
        },
{
    let sq = q.skip(qi);
    assert(sq[0] == q[qi]);
    assert(sq.skip(1) =~= q.skip(qi + 1));
    lemma_find_char(cand.skip(li), q[qi]);
    match find_char(cand.skip(li), q[qi]) {
        Option::None => {},
        Option::Some(f) => {
            assert(cand.skip(li).skip(f + 1) =~= cand.skip(li + f + 1));
        },
    }
}

/// The fuzzy score of an already-lowercased query against a candidate.
fn fuzzy_core(q: &Vec<char>, cand: &Vec<char>) -> (r: Option<usize>)
    ensures
        match r {
            Option::Some(s) => fuzzy_spec(q@, cand@) == Option::Some(s as int),
            Option::None => fuzzy_spec(q@, cand@) is None,
        },
{
    let mut qi: usize = 0;
    let mut li: usize = 0;
    let mut score: usize = 0;
    let n = cand.len();
    proof {
        assert(q@.skip(0) =~= q@);
        assert(cand@.skip(0) =~= cand@);
    }
    while qi < q.len()
        invariant
            qi <= q@.len(),
            li <= n,
            n == cand@.len(),
            score <= li,
            fuzzy_spec(q@, cand@) == opt_add(
                score as int,
                fuzzy_spec(q@.skip(qi as int), cand@.skip(li as int)),
            ),
        decreases q@.len() - qi,
    {
        proof {
            lemma_fuzzy_unfold(q@, cand@, qi as int, li as int);
        }
        let c = q[qi];
        match find_from(cand, li, c) {
            Option::None => {
                return Option::None;
            },
            Option::Some(j) => {
                score = score + (j - li);
                qi = qi + 1;
                li = j + 1;
            },
        }
    }
    proof {
        assert(q@.skip(qi as int) =~= Seq::<char>::empty());
    }
    Option::Some(score)
}

/// The fuzzy match score of `query` against `candidate`: the query is
/// ASCII-lowercased, then each of its characters must occur in order in the
/// candidate; the score counts the candidate characters skipped.
pub fn fuzzy_score(query: &str, candidate: &str) -> (r: Option<usize>)
    ensures
        match r {
            Option::Some(s) => fuzzy_spec(lower_seq(query@), candidate@) == Option::Some(s as int),
            Option::None => fuzzy_spec(lower_seq(query@), candidate@) is None,
        },
{
    let q = lower_chars(query);
    let cand = str_chars(candidate);
    fuzzy_core(&q, &cand)
}

/// The catalog index whose code equals `code` ignoring ASCII case, if any
/// (the first such index).
pub fn find_language_index(code: &str) -> (r: Option<usize>)
    ensures
        match r {
            Option::Some(i) => i < catalog().len() && lower_seq(catalog()[i as int].1) == lower_seq(
                code@,
            ) && forall|j: int|
                0 <= j < i ==> lower_seq(catalog()[j].1) != lower_seq(code@),
            Option::None => forall|j: int|
                0 <= j < catalog().len() ==> lower_seq(catalog()[j].1) != lower_seq(code@),
        },
{
    let langs = languages();
    let target = lower_chars(code);
    let mut i: usize = 0;
    while i < langs.len()
        invariant
            i <= langs@.len(),
            langs@.len() == catalog().len(),
            target@ == lower_seq(code@),
            forall|j: int|
                0 <= j < langs@.len() ==> langs@[j].name@ == catalog()[j].0 && langs@[j].code@
                    == catalog()[j].1,
            forall|j: int| 0 <= j < i ==> lower_seq(catalog()[j].1) != lower_seq(code@),
        decreases langs@.len() - i,
    {
        let lc = lower_chars(langs[i].code);
        if chars_eq(&lc, &target) {
            return Option::Some(i);
        }
        i = i + 1;
    }
    Option::None
}

/// Filter order, non-strictly: entry `a` does not come after entry `b` —
/// either a lower score, or an equal score and a display name that does not
/// follow `b`'s lexically.
pub open spec fn rank_le(q: Seq<char>, a: int, b: int) -> bool {
    ||| score_of(q, a) < score_of(q, b)
    ||| (score_of(q, a) == score_of(q, b) && !lex_lt(catalog()[b].0, catalog()[a].0))
}

/// Filter order, strictly: a lower score, or an equal score and a display
/// name lexically before. Since the catalog's names are pairwise distinct,
/// this order is total on catalog entries, so it determines the filtered
/// list completely.
pub open spec fn rank_lt(q: Seq<char>, a: int, b: int) -> bool {
    ||| score_of(q, a) < score_of(q, b)
    ||| (score_of(q, a) == score_of(q, b) && lex_lt(catalog()[a].0, catalog()[b].0))
}

/// The catalog's display names are pairwise distinct.
pub proof fn lemma_catalog_names_distinct()
    ensures
        forall|i: int, j: int|
            0 <= i < catalog().len() && 0 <= j < catalog().len() && i != j
                ==> catalog()[i].0 != catalog()[j].0,
{
    reveal_strlit("English");
    reveal_strlit("Spanish");
    reveal_strlit("French");
    reveal_strlit("German");
    reveal_strlit("Italian");
    reveal_strlit("Portuguese");
    reveal_strlit("Dutch");
    reveal_strlit("Polish");
    reveal_strlit("Russian");
    reveal_strlit("Japanese");
    reveal_strlit("Chinese");
    reveal_strlit("Korean");
    reveal_strlit("Swedish");
    assert forall|i: int, j: int|
        0 <= i < catalog().len() && 0 <= j < catalog().len() && i != j implies catalog()[i].0
        != catalog()[j].0 by {
        let a = catalog()[i].0;
        let b = catalog()[j].0;
        if a.len() == b.len() {
            // Names of equal length differ within their first two characters.
            assert(a[0] != b[0] || a[1] != b[1]);
        }
    }
}

/// Any two catalog entries are rank-comparable.
proof fn lemma_rank_total(q: Seq<char>, a: int, b: int)
    requires
        0 <= a < catalog().len(),
        0 <= b < catalog().len(),
    ensures
        rank_le(q, a, b) || rank_le(q, b, a),
{
    crate::text::lemma_lex_asym(catalog()[a].0, catalog()[b].0);
    crate::text::lemma_lex_asym(catalog()[b].0, catalog()[a].0);
}

/// Rank order is transitive.
proof fn lemma_rank_trans(q: Seq<char>, a: int, b: int, c: int)
    requires
        0 <= a < catalog().len(),
        0 <= b < catalog().len(),
        0 <= c < catalog().len(),
        rank_le(q, a, b),
        rank_le(q, b, c),
    ensures
        rank_le(q, a, c),
{
    let na = catalog()[a].0;
    let nb = catalog()[b].0;
    let nc = catalog()[c].0;
    if score_of(q, a) == score_of(q, c) {
        crate::text::lemma_lex_connex(nb, na);
        crate::text::lemma_lex_trans(nc, na, nb);
    }
}

/// A well-formed filter entry: a catalog index that matches the query,
/// paired with its score.
pub open spec fn pair_wf(q: Seq<char>, p: (usize, usize)) -> bool {
    &&& (p.1 as int) < catalog().len()
    &&& lang_matches(q, p.1 as int)
    &&& p.0 == score_of(q, p.1 as int)
}

/// Compare two scored entries in filter order.
fn pair_le(a: (usize, usize), b: (usize, usize), langs: &Vec<Language>, Ghost(q): Ghost<Seq<char>>) -> (r: bool)
    requires
        langs@.len() == catalog().len(),
        forall|j: int|
            0 <= j < langs@.len() ==> langs@[j].name@ == catalog()[j].0 && langs@[j].code@
                == catalog()[j].1,
        pair_wf(q, a),
        pair_wf(q, b),
    ensures
        r == rank_le(q, a.1 as int, b.1 as int),
{
    if a.0 < b.0 {
        true
    } else if a.0 > b.0 {
        false
    } else {
        let na = str_chars(langs[a.1].name);
        let nb = str_chars(langs[b.1].name);
        !chars_lex_lt(&nb, &na)
    }
}

/// The candidate text a catalog entry is matched against: lowercased name,
/// a space, lowercased code.
fn candidate_chars(lang: &Language) -> (r: Vec<char>)
    ensures
        r@ == lower_seq(lang.name@) + seq![' '] + lower_seq(lang.code@),
{
    let mut r = lower_chars(lang.name);
    r.push(' ');
    let code = lower_chars(lang.code);
    let mut k: usize = 0;
    while k < code.len()
        invariant
            k <= code@.len(),
            code@ == lower_seq(lang.code@),
            r@ =~= lower_seq(lang.name@) + seq![' '] + code@.take(k as int),
        decreases code@.len() - k,
    {
        r.push(code[k]);
        proof {
            assert(r@ =~= lower_seq(lang.name@) + seq![' '] + code@.take(k + 1));
        }
        k = k + 1;
    }
    proof {
        assert(code@.take(code@.len() as int) =~= code@);
    }
    r
}

/// The catalog indices whose entries fuzzily match `query`. A blank query
/// yields the whole catalog in catalog order; otherwise exactly the matching
/// indices, ordered by ascending score with ties broken by display name.
pub fn filtered_language_indices(query: &str) -> (r: Vec<usize>)
    ensures
        is_blank(query@) ==> r@ == Seq::new(catalog().len(), |i: int| i as usize),
        !is_blank(query@) ==> r@.len() == matched_count(query@, catalog().len() as int),
        !is_blank(query@) ==> (forall|x: usize|
            r@.contains(x) <==> ((x as int) < catalog().len() && lang_matches(query@, x as int))),
        !is_blank(query@) ==> r@.no_duplicates(),
        !is_blank(query@) ==> (forall|k1: int, k2: int|
            0 <= k1 < k2 < r@.len() ==> rank_lt(query@, r@[k1] as int, r@[k2] as int)),
{
    let ghost q = query@;
    if str_is_blank(query) {
        let mut r: Vec<usize> = Vec::new();
        let mut i: usize = 0;
        while i < 13
            invariant
                i <= 13,
                r@.len() == i,
                forall|k: int| 0 <= k < i ==> r@[k] == k as usize,
            decreases 13 - i,
        {
            r.push(i);
            i = i + 1;
        }
        proof {
            assert(r@ =~= Seq::new(catalog().len(), |i: int| i as usize));
        }
        return r;
    }
    let langs = languages();
    let lq = lower_chars(query);
    let mut pairs: Vec<(usize, usize)> = Vec::new();
    let mut i: usize = 0;
    while i < langs.len()
        invariant
            i <= langs@.len(),
            langs@.len() == catalog().len(),
            forall|j: int|
                0 <= j < langs@.len() ==> langs@[j].name@ == catalog()[j].0 && langs@[j].code@
                    == catalog()[j].1,
            lq@ == lower_seq(q),
            pairs@.len() == matched_count(q, i as int),
            forall|k: int|
                0 <= k < pairs@.len() ==> pair_wf(q, #[trigger] pairs@[k]) && (pairs@[k].1 as int)
                    < i,
            forall|x: int|
                0 <= x < i && lang_matches(q, x) ==> exists|k: int|
                    0 <= k < pairs@.len() && (#[trigger] pairs@[k]).1 as int == x,
            forall|k1: int, k2: int|
                0 <= k1 < k2 < pairs@.len() ==> rank_le(q, pairs@[k1].1 as int, pairs@[k2].1 as int),
            forall|k1: int, k2: int|
                0 <= k1 < k2 < pairs@.len() ==> pairs@[k1].1 != pairs@[k2].1,
        decreases langs@.len() - i,
    {
        let cand = candidate_chars(&langs[i]);
        proof {
            assert(cand@ == candidate_of(i as int));
        }
        match fuzzy_core(&lq, &cand) {
            Option::None => {
                proof {
                    assert(!lang_matches(q, i as int));
                }
            },
            Option::Some(s) => {
                let e = (s, i);
                proof {
                    assert(pair_wf(q, e));
                }
                let mut p: usize = 0;
                let mut scanning = true;
                while scanning
                    invariant
                        p <= pairs@.len(),
                        langs@.len() == catalog().len(),
                        forall|j: int|
                            0 <= j < langs@.len() ==> langs@[j].name@ == catalog()[j].0
                                && langs@[j].code@ == catalog()[j].1,
                        e == (s, i),
                        pair_wf(q, e),
                        forall|k: int|
                            0 <= k < pairs@.len() ==> pair_wf(q, #[trigger] pairs@[k]),
                        forall|k: int| 0 <= k < p ==> rank_le(q, pairs@[k].1 as int, i as int),
                        !scanning ==> (p == pairs@.len() || !rank_le(
                            q,
                            pairs@[p as int].1 as int,
                            i as int,
                        )),
                    decreases pairs@.len() - p, (if scanning { 1int } else { 0int }),
                {
                    if p < pairs.len() {
                        if pair_le(pairs[p], e, &langs, Ghost(q)) {
                            p = p + 1;
                        } else {
                            scanning = false;
                        }
                    } else {
                        scanning = false;
                    }
                }
                proof {
                    if p < pairs@.len() {
                        lemma_rank_total(q, pairs@[p as int].1 as int, i as int);
                    }
                    assert forall|k: int| p <= k < pairs@.len() implies rank_le(
                        q,
                        i as int,
                        pairs@[k].1 as int,
                    ) by {
                        if k > p {
                            lemma_rank_trans(
                                q,
                                i as int,
                                pairs@[p as int].1 as int,
                                pairs@[k].1 as int,
                            );
                        }
                    }
                }
                let ghost old_pairs = pairs@;
                pairs.insert(p, e);
                proof {
                    old_pairs.insert_ensures(p as int, e);
                    assert forall|x: int|
                        0 <= x < i + 1 && lang_matches(q, x) implies exists|k: int|
                        0 <= k < pairs@.len() && (#[trigger] pairs@[k]).1 as int == x by {
                        if x == i as int {
                            assert(pairs@[p as int].1 as int == x);
                        } else {
                            let k0 = choose|k0: int|
                                0 <= k0 < old_pairs.len() && (#[trigger] old_pairs[k0]).1 as int
                                    == x;
                            if k0 < p {
                                assert(pairs@[k0].1 as int == x);
                            } else {
                                assert(pairs@[k0 + 1].1 as int == x);
                            }
                        }
                    }
                }
            },
        }
        i = i + 1;
    }
    let mut r: Vec<usize> = Vec::new();
    let mut k: usize = 0;
    while k < pairs.len()
        invariant
            k <= pairs@.len(),
            r@.len() == k,
            forall|m: int| 0 <= m < k ==> r@[m] == (#[trigger] pairs@[m]).1,
            pairs@.len() == matched_count(q, catalog().len() as int),
            forall|m: int| 0 <= m < pairs@.len() ==> pair_wf(q, #[trigger] pairs@[m]),
            forall|x: int|
                0 <= x < catalog().len() && lang_matches(q, x) ==> exists|m: int|
                    0 <= m < pairs@.len() && (#[trigger] pairs@[m]).1 as int == x,
            forall|k1: int, k2: int|
                0 <= k1 < k2 < pairs@.len() ==> rank_le(q, pairs@[k1].1 as int, pairs@[k2].1 as int),
            forall|k1: int, k2: int|
                0 <= k1 < k2 < pairs@.len() ==> pairs@[k1].1 != pairs@[k2].1,
        decreases pairs@.len() - k,
    {
        r.push(pairs[k].1);
        k = k + 1;
    }
    proof {
        assert(r@.len() == pairs@.len());
        assert(r@.no_duplicates()) by {
            assert forall|k1: int, k2: int|
                0 <= k1 < r@.len() && 0 <= k2 < r@.len() && k1 != k2 implies r@[k1] != r@[k2] by {
                assert(r@[k1] == pairs@[k1].1);
                assert(r@[k2] == pairs@[k2].1);
            }
        }
        assert forall|k1: int, k2: int|
            0 <= k1 < k2 < r@.len() implies rank_lt(query@, r@[k1] as int, r@[k2] as int) by {
            assert(r@[k1] == pairs@[k1].1);
            assert(r@[k2] == pairs@[k2].1);
            let a = pairs@[k1].1 as int;
            let b = pairs@[k2].1 as int;
            assert(rank_le(query@, a, b));
            assert(a != b);
            assert(pair_wf(query@, pairs@[k1]));
            assert(pair_wf(query@, pairs@[k2]));
            lemma_catalog_names_distinct();
            assert(catalog()[a].0 != catalog()[b].0);
            crate::text::lemma_lex_connex(catalog()[b].0, catalog()[a].0);
        }
        assert forall|x: usize|
            r@.contains(x) <==> ((x as int) < catalog().len() && lang_matches(
                query@,
                x as int,
            )) by {
            if r@.contains(x) {
                let m = choose|m: int| 0 <= m < r@.len() && r@[m] == x;
                assert(0 <= m < pairs@.len());
                assert(r@[m] == pairs@[m].1);
                assert(pairs@[m].1 == x);
                assert(pair_wf(q, pairs@[m]));
                assert((x as int) < catalog().len());
                assert(lang_matches(q, x as int));
            }
            if (x as int) < catalog().len() && lang_matches(q, x as int) {
                let k0 = choose|k0: int|
                    0 <= k0 < pairs@.len() && (#[trigger] pairs@[k0]).1 as int == x as int;
                assert(r@[k0] == pairs@[k0].1);
                assert(r@[k0] == x);
                assert(r@.contains(x));
            }
        }
    }
    r
}

} // verus!
