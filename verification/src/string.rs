//! Text utilities: decimal numerals, edit distance and the search for the
//! name that is nearest to a misspelt one.

use vstd::prelude::*;
use vstd::string::*;

verus! {

/// The largest edit distance at which a name is still proposed.
pub const MAX_DISTANCE: usize = 3;

/// The numeral of a single digit.
pub open spec fn digit(d: nat) -> Seq<char> {
    if d == 0 {
        "0"@
    } else if d == 1 {
        "1"@
    } else if d == 2 {
        "2"@
    } else if d == 3 {
        "3"@
    } else if d == 4 {
        "4"@
    } else if d == 5 {
        "5"@
    } else if d == 6 {
        "6"@
    } else if d == 7 {
        "7"@
    } else if d == 8 {
        "8"@
    } else {
        "9"@
    }
}

/// The decimal numeral of a natural number, without leading zeros.
pub open spec fn decimal(n: nat) -> Seq<char>
    decreases n,
{
    if n < 10 {
        digit(n)
    } else {
        decimal(n / 10) + digit(n % 10)
    }
}

/// The decimal numeral of an integer, with a minus sign when negative.
pub open spec fn signed_decimal(i: int) -> Seq<char> {
    if i < 0 {
        "-"@ + decimal((-i) as nat)
    } else {
        decimal(i as nat)
    }
}

/// The number that a numeral stands for, each character counted as its
/// distance from `0`.
pub open spec fn numeral_value(s: Seq<char>) -> int
    decreases s.len(),
{
    if s.len() == 0 {
        0
    } else {
        10 * numeral_value(s.drop_last()) + (s.last() as int - '0' as int)
    }
}

/// The numeral of a digit is the one character of that digit.
pub proof fn lemma_digit(d: nat)
    requires
        d < 10,
    ensures
        digit(d).len() == 1,
        digit(d)[0] as int == '0' as int + d,
{
    reveal_strlit("0");
    reveal_strlit("1");
    reveal_strlit("2");
    reveal_strlit("3");
    reveal_strlit("4");
    reveal_strlit("5");
    reveal_strlit("6");
    reveal_strlit("7");
    reveal_strlit("8");
    reveal_strlit("9");
}

/// The decimal numeral of a number stands for that number, and consists of
/// digits only.
pub proof fn lemma_decimal(n: nat)
    ensures
        decimal(n).len() >= 1,
        numeral_value(decimal(n)) == n,
        forall|i: int|
            0 <= i < decimal(n).len() ==> '0' as int <= (#[trigger] decimal(n)[i]) as int <= '9' as int,
    decreases n,
{
    lemma_digit(n % 10);
    if n < 10 {
        reveal_with_fuel(numeral_value, 2);
        assert(decimal(n).drop_last() =~= Seq::<char>::empty());
    } else {
        lemma_decimal(n / 10);
        let head = decimal(n / 10);
        let last = digit(n % 10);
        assert((head + last).drop_last() =~= head);
        assert((head + last).last() == last[0]);
        assert forall|i: int| 0 <= i < decimal(n).len() implies '0' as int <= (
        #[trigger] decimal(n)[i]) as int <= '9' as int by {
            if i < head.len() {
                assert(decimal(n)[i] == head[i]);
            }
        }
    }
}

fn digit_str(d: u128) -> (s: &'static str)
    requires
        d < 10,
    ensures
        s@ == digit(d as nat),
{
    if d == 0 {
        "0"
    } else if d == 1 {
        "1"
    } else if d == 2 {
        "2"
    } else if d == 3 {
        "3"
    } else if d == 4 {
        "4"
    } else if d == 5 {
        "5"
    } else if d == 6 {
        "6"
    } else if d == 7 {
        "7"
    } else if d == 8 {
        "8"
    } else {
        "9"
    }
}

/// Appends the decimal numeral of `n` to `out`.
pub fn push_decimal(out: &mut String, n: u128)
    ensures
        final(out)@ == old(out)@ + decimal(n as nat),
    decreases n,
{
    if n >= 10 {
        push_decimal(out, n / 10);
    }
    out.append(digit_str(n % 10));
}

/// Appends the decimal numeral of the integer `n` to `out`.
pub fn push_signed_decimal(out: &mut String, n: i128)
    ensures
        final(out)@ == old(out)@ + signed_decimal(n as int),
{
    if n < 0 {
        let below: i128 = -(n + 1);
        let magnitude: u128 = below as u128 + 1;
        out.append("-");
        push_decimal(out, magnitude);
    } else {
        push_decimal(out, n as u128);
    }
}

/// Whether two string slices hold the same text.
pub fn text_eq(a: &str, b: &str) -> (r: bool)
    ensures
        r == (a@ == b@),
{
    let x = a.as_bytes();
    let y = b.as_bytes();
    if x.len() != y.len() {
        return false;
    }
    let mut i: usize = 0;
    while i < x.len()
        invariant
            x@.len() == y@.len(),
            i <= x@.len(),
            x@ == a.spec_bytes(),
            y@ == b.spec_bytes(),
            forall|k: int| 0 <= k < i ==> x@[k] == y@[k],
        decreases x@.len() - i,
    {
        if x[i] != y[i] {
            return false;
        }
        i += 1;
    }
    proof {
        assert(x@ =~= y@);
        vstd::utf8::encode_utf8_decode_utf8(a@);
        vstd::utf8::encode_utf8_decode_utf8(b@);
    }
    true
}

/// The characters of a string slice, one by one.
pub fn chars_of(s: &str) -> (v: Vec<char>)
    ensures
        v@ == s@,
{
    let n = s.unicode_len();
    let mut v: Vec<char> = Vec::new();
    let mut i: usize = 0;
    while i < n
        invariant
            n == s@.len(),
            i <= n,
            v@ == s@.take(i as int),
        decreases n - i,
    {
        v.push(s.get_char(i));
        i += 1;
    }
    v
}

pub open spec fn min2(a: nat, b: nat) -> nat {
    if a <= b {
        a
    } else {
        b
    }
}

/// The least number of insertions, deletions and substitutions of single
/// characters that turn `a` into `b`.
pub open spec fn edit_distance(a: Seq<char>, b: Seq<char>) -> nat
    decreases a.len() + b.len(),
{
    if a.len() == 0 {
        b.len()
    } else if b.len() == 0 {
        a.len()
    } else {
        let deletion = edit_distance(a.drop_last(), b) + 1;
        let insertion = edit_distance(a, b.drop_last()) + 1;
        let change: nat = if a.last() == b.last() {
            0
        } else {
            1
        };
        let substitution = edit_distance(a.drop_last(), b.drop_last()) + change;
        min2(deletion, min2(insertion, substitution))
    }
}

/// A text is at distance zero from itself.
pub proof fn lemma_edit_distance_identity(a: Seq<char>)
    ensures
        edit_distance(a, a) == 0,
    decreases a.len(),
{
    if a.len() > 0 {
        lemma_edit_distance_identity(a.drop_last());
    }
}

/// Two texts are no further apart than the longer of them is long.
pub proof fn lemma_edit_distance_bound(a: Seq<char>, b: Seq<char>)
    ensures
        edit_distance(a, b) <= if a.len() >= b.len() {
            a.len()
        } else {
            b.len()
        },
    decreases a.len() + b.len(),
{
    if a.len() > 0 && b.len() > 0 {
        lemma_edit_distance_bound(a.drop_last(), b.drop_last());
    }
}

/// The edit distance does not depend on the order of the two texts.
pub proof fn lemma_edit_distance_symmetric(a: Seq<char>, b: Seq<char>)
    ensures
        edit_distance(a, b) == edit_distance(b, a),
    decreases a.len() + b.len(),
{
    if a.len() > 0 && b.len() > 0 {
        lemma_edit_distance_symmetric(a.drop_last(), b);
        lemma_edit_distance_symmetric(a, b.drop_last());
        lemma_edit_distance_symmetric(a.drop_last(), b.drop_last());
    }
}

/// The edit distance between `a` and `b`, or `limit` if the distance is
/// larger than that.
pub fn bounded_distance(a: &Vec<char>, b: &Vec<char>, limit: usize) -> (d: usize)
    requires
        limit < usize::MAX,
    ensures
        d == min2(edit_distance(a@, b@), limit as nat),
{
    let n = a.len();
    let m = b.len();
    let mut prev: Vec<usize> = Vec::new();
    prev.push(0);
    let mut j: usize = 0;
    while j < m
        invariant
            m == b@.len(),
            j <= m,
            prev@.len() == j + 1,
            forall|k: int|
                0 <= k <= j ==> #[trigger] prev@[k] == min2(
                    edit_distance(a@.take(0), b@.take(k)),
                    limit as nat,
                ),
        decreases m - j,
    {
        j += 1;
        prev.push(if j < limit {
            j
        } else {
            limit
        });
    }
    let mut i: usize = 0;
    while i < n
        invariant
            n == a@.len(),
            m == b@.len(),
            limit < usize::MAX,
            i <= n,
            prev@.len() == m + 1,
            forall|k: int|
                0 <= k <= m ==> #[trigger] prev@[k] == min2(
                    edit_distance(a@.take(i as int), b@.take(k)),
                    limit as nat,
                ),
        decreases n - i,
    {
        let mut cur: Vec<usize> = Vec::new();
        cur.push(if i + 1 < limit {
            i + 1
        } else {
            limit
        });
        let mut j: usize = 0;
        while j < m
            invariant
                n == a@.len(),
                m == b@.len(),
                limit < usize::MAX,
                i < n,
                j <= m,
                prev@.len() == m + 1,
                cur@.len() == j + 1,
                forall|k: int|
                    0 <= k <= m ==> #[trigger] prev@[k] == min2(
                        edit_distance(a@.take(i as int), b@.take(k)),
                        limit as nat,
                    ),
                forall|k: int|
                    0 <= k <= j ==> #[trigger] cur@[k] == min2(
                        edit_distance(a@.take(i + 1), b@.take(k)),
                        limit as nat,
                    ),
            decreases m - j,
        {
            let deletion = prev[j + 1] + 1;
            let insertion = cur[j] + 1;
            let substitution = if a[i] == b[j] {
                prev[j]
            } else {
                prev[j] + 1
            };
            let mut best = deletion;
            if insertion < best {
                best = insertion;
            }
            if substitution < best {
                best = substitution;
            }
            if limit < best {
                best = limit;
            }
            proof {
                let x = a@.take(i + 1);
                let y = b@.take(j + 1);
                assert(x.drop_last() =~= a@.take(i as int));
                assert(y.drop_last() =~= b@.take(j as int));
            }
            cur.push(best);
            j += 1;
        }
        prev = cur;
        i += 1;
    }
    assert(a@.take(n as int) =~= a@);
    assert(b@.take(m as int) =~= b@);
    prev[m]
}

/// The dictionary order on texts, characters compared by code point.
pub open spec fn lex_le(a: Seq<char>, b: Seq<char>) -> bool
    decreases a.len(),
{
    if a.len() == 0 {
        true
    } else if b.len() == 0 {
        false
    } else if a[0] != b[0] {
        (a[0] as int) < (b[0] as int)
    } else {
        lex_le(a.drop_first(), b.drop_first())
    }
}

/// Of two texts, one comes before the other or they are the same.
pub proof fn lemma_lex_le_total(a: Seq<char>, b: Seq<char>)
    ensures
        lex_le(a, b) || lex_le(b, a),
    decreases a.len(),
{
    if a.len() != 0 && b.len() != 0 && a[0] == b[0] {
        lemma_lex_le_total(a.drop_first(), b.drop_first());
    }
}

/// The dictionary order is transitive.
pub proof fn lemma_lex_le_transitive(a: Seq<char>, b: Seq<char>, c: Seq<char>)
    requires
        lex_le(a, b),
        lex_le(b, c),
    ensures
        lex_le(a, c),
    decreases a.len(),
{
    if a.len() != 0 && b.len() != 0 && c.len() != 0 && a[0] == b[0] && b[0] == c[0] {
        lemma_lex_le_transitive(a.drop_first(), b.drop_first(), c.drop_first());
    }
}

/// Two texts that come before each other are the same text.
pub proof fn lemma_lex_le_antisymmetric(a: Seq<char>, b: Seq<char>)
    requires
        lex_le(a, b),
        lex_le(b, a),
    ensures
        a == b,
    decreases a.len(),
{
    if a.len() == 0 || b.len() == 0 {
    } else {
        lemma_lex_le_antisymmetric(a.drop_first(), b.drop_first());
        assert(a =~= seq![a[0]] + a.drop_first());
    }
}

/// Whether `a` comes before `b` in the dictionary order, or equals it.
pub fn lex_le_chars(a: &Vec<char>, b: &Vec<char>) -> (r: bool)
    ensures
        r == lex_le(a@, b@),
{
    let mut i: usize = 0;
    assert(a@.skip(0) =~= a@ && b@.skip(0) =~= b@);
    loop
        invariant
            i <= a@.len(),
            i <= b@.len(),
            lex_le(a@, b@) == lex_le(a@.skip(i as int), b@.skip(i as int)),
        decreases a@.len() - i,
    {
        if i == a.len() {
            return true;
        }
        if i == b.len() {
            return false;
        }
        let x = a[i];
        let y = b[i];
        if x != y {
            return x < y;
        }
        proof {
            assert(a@.skip(i as int).drop_first() =~= a@.skip(i + 1));
            assert(b@.skip(i as int).drop_first() =~= b@.skip(i + 1));
        }
        i += 1;
    }
}

/// Whether `x` is at least as good a proposal for `name` as `y`: nearer to
/// it, or as near and not after `y` in the dictionary order.
pub open spec fn nearer(name: Seq<char>, x: Seq<char>, y: Seq<char>) -> bool {
    let dx = edit_distance(name, x);
    let dy = edit_distance(name, y);
    dx < dy || (dx == dy && lex_le(x, y))
}

/// Whether `s` is the candidate to propose for `name`: within the largest
/// distance allowed, and at least as good as every other candidate.
pub open spec fn is_nearest(name: Seq<char>, candidates: Seq<Seq<char>>, s: Seq<char>) -> bool {
    &&& candidates.contains(s)
    &&& edit_distance(name, s) <= MAX_DISTANCE
    &&& forall|i: int| 0 <= i < candidates.len() ==> nearer(name, s, #[trigger] candidates[i])
}

/// Whether no candidate is near enough to `name` to be proposed.
pub open spec fn none_near(name: Seq<char>, candidates: Seq<Seq<char>>) -> bool {
    forall|i: int|
        0 <= i < candidates.len() ==> edit_distance(name, #[trigger] candidates[i]) > MAX_DISTANCE
}

/// The proposal for `name` among the candidates, if there is one.
pub open spec fn nearest(name: Seq<char>, candidates: Seq<Seq<char>>) -> Option<Seq<char>> {
    if none_near(name, candidates) {
        None
    } else {
        Some(choose|s: Seq<char>| is_nearest(name, candidates, s))
    }
}

/// At most one candidate is the one to propose.
pub proof fn lemma_nearest_unique(
    name: Seq<char>,
    candidates: Seq<Seq<char>>,
    s: Seq<char>,
    t: Seq<char>,
)
    requires
        is_nearest(name, candidates, s),
        is_nearest(name, candidates, t),
    ensures
        s == t,
{
    lemma_lex_le_antisymmetric(s, t);
}

/// Finds the candidate nearest to `name`: the one at the least edit distance
/// among those within `MAX_DISTANCE`, and of several at that distance the
/// first in the dictionary order.
pub fn find_near<'a>(name: &str, candidates: &'a Vec<String>) -> (r: Option<&'a String>)
    ensures
        match r {
            Some(s) => is_nearest(name@, candidates.deep_view(), s@),
            None => none_near(name@, candidates.deep_view()),
        },
        r.deep_view() == nearest(name@, candidates.deep_view()),
{
    let target = chars_of(name);
    let ghost names = candidates.deep_view();
    let mut best: Option<usize> = None;
    let mut best_distance: usize = 0;
    let mut best_chars: Vec<char> = Vec::new();
    let mut i: usize = 0;
    while i < candidates.len()
        invariant
            i <= candidates.len(),
            target@ == name@,
            names == candidates.deep_view(),
            names.len() == candidates.len(),
            match best {
                Some(b) => {
                    &&& b < i
                    &&& best_chars@ == names[b as int]
                    &&& best_distance == edit_distance(name@, names[b as int])
                    &&& best_distance <= MAX_DISTANCE
                    &&& forall|k: int| 0 <= k < i ==> nearer(name@, names[b as int], #[trigger] names[k])
                },
                None => forall|k: int|
                    0 <= k < i ==> edit_distance(name@, #[trigger] names[k]) > MAX_DISTANCE,
            },
        decreases candidates.len() - i,
    {
        let chars = chars_of(candidates[i].as_str());
        let distance = bounded_distance(&target, &chars, MAX_DISTANCE + 1);
        if distance <= MAX_DISTANCE {
            let replace = match best {
                None => true,
                Some(_) => distance < best_distance || (distance == best_distance && !lex_le_chars(
                    &best_chars,
                    &chars,
                )),
            };
            proof {
                lemma_lex_le_total(chars@, chars@);
                if replace {
                    if let Some(b) = best {
                        assert forall|k: int| 0 <= k < i implies nearer(
                            name@,
                            names[i as int],
                            #[trigger] names[k],
                        ) by {
                            if distance == best_distance {
                                lemma_lex_le_total(names[b as int], names[i as int]);
                                if edit_distance(name@, names[k]) == best_distance {
                                    lemma_lex_le_transitive(names[i as int], names[b as int], names[k]);
                                }
                            }
                        }
                    }
                }
            }
            if replace {
                best = Some(i);
                best_distance = distance;
                best_chars = chars;
            }
        }
        i += 1;
    }
    match best {
        Some(b) => {
            assert(names[b as int] == candidates[b as int]@);
            proof {
                let chosen = choose|s: Seq<char>| is_nearest(name@, names, s);
                lemma_nearest_unique(name@, names, names[b as int], chosen);
            }
            Some(&candidates[b])
        },
        None => None,
    }
}

/// Whether `i` is the first position at which `name` occurs in `names`.
pub open spec fn is_first(names: Seq<Seq<char>>, name: Seq<char>, i: int) -> bool {
    &&& 0 <= i < names.len()
    &&& names[i] == name
    &&& forall|j: int| 0 <= j < i ==> names[j] != name
}

/// The first position at which `name` occurs in `names`, if it occurs.
pub open spec fn index_of(names: Seq<Seq<char>>, name: Seq<char>) -> Option<int> {
    if exists|i: int| is_first(names, name, i) {
        Some(choose|i: int| is_first(names, name, i))
    } else {
        None
    }
}

/// Whether no name occurs twice.
pub open spec fn distinct(names: Seq<Seq<char>>) -> bool {
    forall|i: int, j: int| 0 <= i < j < names.len() ==> names[i] != names[j]
}

/// A first occurrence is the one that `index_of` gives.
pub proof fn lemma_index_of_found(names: Seq<Seq<char>>, name: Seq<char>, i: int)
    requires
        is_first(names, name, i),
    ensures
        index_of(names, name) == Some(i),
{
    let c = choose|c: int| is_first(names, name, c);
    assert(c == i);
}

/// A name that occurs nowhere has no position.
pub proof fn lemma_index_of_missing(names: Seq<Seq<char>>, name: Seq<char>)
    requires
        forall|j: int| 0 <= j < names.len() ==> names[j] != name,
    ensures
        index_of(names, name) is None,
{
}

/// What `index_of` gives is a first occurrence, and `None` means that the
/// name occurs nowhere.
pub proof fn lemma_index_of(names: Seq<Seq<char>>, name: Seq<char>)
    ensures
        match index_of(names, name) {
            Some(i) => is_first(names, name, i),
            None => forall|j: int| 0 <= j < names.len() ==> names[j] != name,
        },
{
    if index_of(names, name) is None {
        assert forall|j: int| 0 <= j < names.len() implies names[j] != name by {
            if names[j] == name {
                lemma_has_first(names, name, j);
            }
        }
    }
}

/// A name that occurs has a first occurrence.
pub proof fn lemma_has_first(names: Seq<Seq<char>>, name: Seq<char>, j: int)
    requires
        0 <= j < names.len(),
        names[j] == name,
    ensures
        exists|i: int| is_first(names, name, i),
    decreases j,
{
    if exists|k: int| 0 <= k < j && names[k] == name {
        let k = choose|k: int| 0 <= k < j && names[k] == name;
        lemma_has_first(names, name, k);
    } else {
        assert(is_first(names, name, j));
    }
}

} // verus!
