//! Character-level helpers used to build request texts: decimal rendering of
//! integers, comma joining and splitting, prefix tests and the last segment
//! of a path.

use vstd::prelude::*;
use vstd::string::*;

verus! {

/// `String::push` appends one character to the end of the string.
pub assume_specification[ String::push ](s: &mut String, ch: char)
    ensures
        final(s)@ == old(s)@.push(ch),
;

/// The character of a decimal digit `0..=9`.
pub open spec fn digit_char(d: int) -> char {
    if d == 0 { '0' }
    else if d == 1 { '1' }
    else if d == 2 { '2' }
    else if d == 3 { '3' }
    else if d == 4 { '4' }
    else if d == 5 { '5' }
    else if d == 6 { '6' }
    else if d == 7 { '7' }
    else if d == 8 { '8' }
    else { '9' }
}

/// Decimal digits of a natural number, most significant first, without
/// leading zeros (zero is written `0`).
pub open spec fn nat_digits(n: nat) -> Seq<char>
    decreases n,
{
    if n < 10 {
        seq![digit_char(n as int)]
    } else {
        nat_digits((n / 10) as nat).push(digit_char((n % 10) as int))
    }
}

/// The decimal text of an integer, as Rust's `Display` writes it.
pub open spec fn decimal(n: int) -> Seq<char> {
    if n < 0 {
        seq!['-'] + nat_digits((-n) as nat)
    } else {
        nat_digits(n as nat)
    }
}

fn digit_to_char(d: u8) -> (c: char)
    requires
        d < 10,
    ensures
        c == digit_char(d as int),
{
    match d {
        0 => '0',
        1 => '1',
        2 => '2',
        3 => '3',
        4 => '4',
        5 => '5',
        6 => '6',
        7 => '7',
        8 => '8',
        _ => '9',
    }
}

fn push_nat_digits(out: &mut String, n: u128)
    ensures
        final(out)@ == old(out)@ + nat_digits(n as nat),
    decreases n,
{
    if n < 10 {
        out.push(digit_to_char(n as u8));
    } else {
        push_nat_digits(out, n / 10);
        out.push(digit_to_char((n % 10) as u8));
    }
}

/// Renders an integer in decimal.
pub fn decimal_string(n: i128) -> (s: String)
    requires
        n > i128::MIN,
    ensures
        s@ == decimal(n as int),
{
    let mut out = String::new();
    if n < 0 {
        out.push('-');
        push_nat_digits(&mut out, (-n) as u128);
    } else {
        push_nat_digits(&mut out, n as u128);
    }
    out
}

/// The views of a sequence of strings.
pub open spec fn views(v: Seq<String>) -> Seq<Seq<char>> {
    v.map_values(|p: String| p@)
}

/// `parts` joined with `,` between neighbours, as `[String]::join(",")`.
pub open spec fn join_commas(parts: Seq<Seq<char>>) -> Seq<char>
    decreases parts.len(),
{
    if parts.len() == 0 {
        seq![]
    } else if parts.len() == 1 {
        parts[0]
    } else {
        join_commas(parts.drop_last()) + seq![','] + parts.last()
    }
}

/// The pieces of `s` between commas, as `str::split(',')` yields them: the
/// empty text gives one empty piece, and a trailing comma an empty last piece.
pub open spec fn split_commas(s: Seq<char>) -> Seq<Seq<char>>
    decreases s.len(),
{
    if s.len() == 0 {
        seq![seq![]]
    } else {
        let prev = split_commas(s.drop_last());
        if s.last() == ',' {
            prev.push(seq![])
        } else {
            prev.update(prev.len() - 1, prev.last().push(s.last()))
        }
    }
}

/// No character of `s` is a comma.
pub open spec fn comma_free(s: Seq<char>) -> bool {
    forall|i: int| 0 <= i < s.len() ==> s[i] != ','
}

/// Splitting always yields at least one piece, and no piece holds a comma.
pub proof fn lemma_split_shape(s: Seq<char>)
    ensures
        split_commas(s).len() >= 1,
        forall|i: int| 0 <= i < split_commas(s).len() ==> comma_free(#[trigger] split_commas(s)[i]),
    decreases s.len(),
{
    if s.len() > 0 {
        lemma_split_shape(s.drop_last());
        let prev = split_commas(s.drop_last());
        if s.last() != ',' {
            let last = prev.last().push(s.last());
            assert(comma_free(prev[prev.len() - 1]));
            assert(comma_free(last)) by {
                assert forall|j: int| 0 <= j < last.len() implies last[j] != ',' by {
                    if j < prev.last().len() {
                        assert(last[j] == prev[prev.len() - 1][j]);
                    }
                }
            }
        }
    }
}

/// Joining the pieces of a split gives the text back.
pub proof fn lemma_join_split(s: Seq<char>)
    ensures
        join_commas(split_commas(s)) == s,
    decreases s.len(),
{
    if s.len() > 0 {
        let t = s.drop_last();
        lemma_join_split(t);
        lemma_split_shape(t);
        let prev = split_commas(t);
        if s.last() == ',' {
            let cur = prev.push(seq![]);
            assert(cur.drop_last() =~= prev);
            assert(join_commas(cur) =~= join_commas(prev) + seq![','] + seq![]);
            assert(s =~= t + seq![',']);
        } else {
            let cur = prev.update(prev.len() - 1, prev.last().push(s.last()));
            if prev.len() == 1 {
                assert(join_commas(prev) == prev[0]);
                assert(s =~= t.push(s.last()));
            } else {
                assert(cur.drop_last() =~= prev.drop_last());
                assert(join_commas(cur) == join_commas(prev.drop_last()) + seq![','] + cur.last());
                assert(join_commas(prev) == join_commas(prev.drop_last()) + seq![','] + prev.last());
                assert(join_commas(cur) =~= join_commas(prev).push(s.last()));
                assert(s =~= t.push(s.last()));
            }
        }
    }
}

/// A comma-free text is a single piece.
pub proof fn lemma_split_comma_free(b: Seq<char>)
    requires
        comma_free(b),
    ensures
        split_commas(b) == seq![b],
    decreases b.len(),
{
    if b.len() > 0 {
        let t = b.drop_last();
        assert(comma_free(t));
        lemma_split_comma_free(t);
        assert(b.last() == b[b.len() - 1]);
        assert(t.push(b.last()) =~= b);
        assert(split_commas(b) =~= seq![b]);
    } else {
        assert(b =~= seq![]);
    }
}

/// Splitting `p` followed by a comma and a comma-free `b` adds `b` as a last piece.
pub proof fn lemma_split_append(p: Seq<char>, b: Seq<char>)
    requires
        comma_free(b),
    ensures
        split_commas(p + seq![','] + b) == split_commas(p).push(b),
    decreases b.len(),
{
    let q = p + seq![','];
    if b.len() == 0 {
        assert(p + seq![','] + b =~= q);
        assert(q.drop_last() =~= p);
        assert(q.last() == ',');
        assert(b =~= seq![]);
        assert(split_commas(q) == split_commas(p).push(seq![]));
    } else {
        let t = b.drop_last();
        assert(comma_free(t));
        lemma_split_append(p, t);
        let s = p + seq![','] + b;
        assert(s.drop_last() =~= p + seq![','] + t);
        assert(s.last() == b[b.len() - 1]);
        assert(s.last() != ',');
        assert(t.push(s.last()) =~= b);
        assert(split_commas(s) =~= split_commas(p).push(b));
    }
}

/// Splitting the join of comma-free pieces gives the pieces back.
pub proof fn lemma_split_join(parts: Seq<Seq<char>>)
    requires
        parts.len() >= 1,
        forall|i: int| 0 <= i < parts.len() ==> comma_free(#[trigger] parts[i]),
    ensures
        split_commas(join_commas(parts)) == parts,
    decreases parts.len(),
{
    if parts.len() == 1 {
        assert(comma_free(parts[0]));
        lemma_split_comma_free(parts[0]);
        assert(split_commas(join_commas(parts)) =~= parts);
    } else {
        let init = parts.drop_last();
        assert forall|i: int| 0 <= i < init.len() implies comma_free(#[trigger] init[i]) by {
            assert(init[i] == parts[i]);
        }
        lemma_split_join(init);
        assert(comma_free(parts[parts.len() - 1]));
        lemma_split_append(join_commas(init), parts.last());
        assert(init.push(parts.last()) =~= parts);
    }
}

/// Joins strings with `,` between neighbours.
pub fn join_with_commas(parts: &[String]) -> (s: String)
    ensures
        s@ == join_commas(views(parts@)),
{
    let mut out = String::new();
    let mut i: usize = 0;
    let ghost all = views(parts@);
    while i < parts.len()
        invariant
            i <= parts@.len(),
            all == views(parts@),
            all.len() == parts@.len(),
            out@ == join_commas(all.take(i as int)),
        decreases parts@.len() - i,
    {
        proof {
            assert(all.take(i + 1).drop_last() =~= all.take(i as int));
            assert(all.take(i + 1).last() == parts@[i as int]@);
        }
        if i > 0 {
            out.push(',');
        }
        out.append(parts[i].as_str());
        proof {
            if i == 0 {
                assert(out@ =~= join_commas(all.take(1)));
            } else {
                assert(out@ =~= join_commas(all.take(i + 1)));
            }
        }
        i = i + 1;
    }
    proof {
        assert(all.take(parts@.len() as int) =~= all);
    }
    out
}

/// Splits a text at every comma.
pub fn split_at_commas(s: &str) -> (parts: Vec<String>)
    ensures
        views(parts@) == split_commas(s@),
{
    let n = s.unicode_len();
    let mut done: Vec<String> = Vec::new();
    let mut cur = String::new();
    let mut i: usize = 0;
    proof {
        assert(s@.take(0) =~= seq![]);
        assert(views(done@).push(cur@) =~= seq![seq![]]);
    }
    while i < n
        invariant
            n == s@.len(),
            i <= n,
            views(done@).push(cur@) == split_commas(s@.take(i as int)),
        decreases n - i,
    {
        let c = s.get_char(i);
        let ghost before = views(done@);
        proof {
            assert(s@.take(i + 1).drop_last() =~= s@.take(i as int));
            assert(s@.take(i + 1).last() == c);
        }
        if c == ',' {
            let finished = cur;
            done.push(finished);
            cur = String::new();
            proof {
                assert(views(done@) =~= before.push(finished@));
                assert(views(done@).push(cur@) =~= split_commas(s@.take(i + 1)));
            }
        } else {
            let ghost old_cur = cur@;
            cur.push(c);
            proof {
                let prev = before.push(old_cur);
                assert(prev.update(prev.len() - 1, prev.last().push(c)) =~= before.push(cur@));
            }
        }
        i = i + 1;
    }
    proof {
        assert(s@.take(n as int) =~= s@);
    }
    done.push(cur);
    proof {
        assert(views(done@) =~= split_commas(s@));
    }
    done
}

/// `s` begins with `p`.
pub open spec fn starts_with(s: Seq<char>, p: Seq<char>) -> bool {
    p.len() <= s.len() && s.subrange(0, p.len() as int) == p
}

/// Whether `s` begins with `p`.
pub fn has_prefix(s: &str, p: &str) -> (r: bool)
    ensures
        r == starts_with(s@, p@),
{
    let n = s.unicode_len();
    let m = p.unicode_len();
    if m > n {
        return false;
    }
    let mut i: usize = 0;
    while i < m
        invariant
            n == s@.len(),
            m == p@.len(),
            m <= n,
            i <= m,
            forall|j: int| 0 <= j < i ==> s@[j] == p@[j],
        decreases m - i,
    {
        if s.get_char(i) != p.get_char(i) {
            proof {
                assert(s@.subrange(0, m as int)[i as int] != p@[i as int]);
            }
            return false;
        }
        i = i + 1;
    }
    proof {
        assert(s@.subrange(0, m as int) =~= p@);
    }
    true
}

/// Whether two texts are equal.
pub fn same_text(a: &str, b: &str) -> (r: bool)
    ensures
        r == (a@ == b@),
{
    let n = a.unicode_len();
    if n != b.unicode_len() {
        return false;
    }
    let r = has_prefix(a, b);
    proof {
        assert(a@ =~= a@.subrange(0, n as int));
    }
    r
}

/// The part of `s` after its last `sep`, or all of `s` when it holds none,
/// as `str::split(sep).last()` gives it.
pub open spec fn after_last(s: Seq<char>, sep: char) -> Seq<char>
    decreases s.len(),
{
    if s.len() == 0 {
        seq![]
    } else if s.last() == sep {
        seq![]
    } else {
        after_last(s.drop_last(), sep).push(s.last())
    }
}

/// The part of `s` after its last `sep`.
pub fn text_after_last(s: &str, sep: char) -> (r: String)
    ensures
        r@ == after_last(s@, sep),
{
    let n = s.unicode_len();
    let mut cur = String::new();
    let mut i: usize = 0;
    proof {
        assert(s@.take(0) =~= seq![]);
    }
    while i < n
        invariant
            n == s@.len(),
            i <= n,
            cur@ == after_last(s@.take(i as int), sep),
        decreases n - i,
    {
        let c = s.get_char(i);
        proof {
            assert(s@.take(i + 1).drop_last() =~= s@.take(i as int));
            assert(s@.take(i + 1).last() == c);
        }
        if c == sep {
            cur = String::new();
        } else {
            cur.push(c);
        }
        i = i + 1;
    }
    proof {
        assert(s@.take(n as int) =~= s@);
    }
    cur
}

} // verus!
