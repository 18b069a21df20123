//! Denom traces: splitting a full token denomination into its transfer
//! path (alternating port / channel hops) and its base denom, and joining
//! the two back into the full form.

use vstd::prelude::*;
use crate::error::Error;

verus! {

/// A token denomination split into the path it was transferred along and
/// its base denom.
#[derive(Debug)]
pub struct DenomTrace {
    pub path: String,
    pub base_denom: String,
}

/// The separator between the segments of a full denom.
pub open spec fn sep() -> char {
    '/'
}

/// Index of the first separator in `s`, or `s.len()` when there is none.
pub open spec fn first_sep(s: Seq<char>) -> int
    decreases s.len(),
{
    if s.len() == 0 {
        0
    } else if s[0] == sep() {
        0
    } else {
        1 + first_sep(s.drop_first())
    }
}

/// No separator occurs in `s`.
pub open spec fn no_sep(s: Seq<char>) -> bool {
    forall|i: int| 0 <= i < s.len() ==> s[i] != sep()
}

/// The segments of `s`, cut at each separator.  Always at least one
/// segment: splitting an empty string gives one empty segment.
pub open spec fn split_sep(s: Seq<char>) -> Seq<Seq<char>>
    decreases s.len(),
{
    let i = first_sep(s);
    if !(0 <= i < s.len()) {
        seq![s]
    } else {
        seq![s.take(i)] + split_sep(s.skip(i + 1))
    }
}

/// The segments joined back with the separator between each two.
pub open spec fn join_sep(parts: Seq<Seq<char>>) -> Seq<char>
    decreases parts.len(),
{
    if parts.len() == 0 {
        Seq::empty()
    } else if parts.len() == 1 {
        parts[0]
    } else {
        parts[0] + seq![sep()] + join_sep(parts.drop_first())
    }
}

pub proof fn lemma_first_sep_props(s: Seq<char>)
    ensures
        0 <= first_sep(s) <= s.len(),
        first_sep(s) < s.len() ==> s[first_sep(s)] == sep(),
        forall|j: int| 0 <= j < first_sep(s) ==> s[j] != sep(),
        no_sep(s) <==> first_sep(s) == s.len(),
    decreases s.len(),
{
    if s.len() == 0 {
    } else if s[0] == sep() {
    } else {
        lemma_first_sep_props(s.drop_first());
        assert forall|j: int| 0 <= j < first_sep(s) implies s[j] != sep() by {
            if j > 0 {
                assert(s.drop_first()[j - 1] != sep());
            }
        }
        if first_sep(s) == s.len() {
            assert forall|i: int| 0 <= i < s.len() implies s[i] != sep() by {
                if i > 0 {
                    assert(s.drop_first()[i - 1] != sep());
                }
            }
        }
        if no_sep(s) {
            assert(no_sep(s.drop_first())) by {
                assert(forall|i: int| 0 <= i < s.drop_first().len() ==> s.drop_first()[i] == s[i + 1]);
            }
        }
    }
}

/// A prefix without separators, followed by one, fixes where the first
/// separator of the whole lies.
pub proof fn lemma_first_sep_concat(a: Seq<char>, b: Seq<char>)
    ensures
        no_sep(a) ==> first_sep(a + seq![sep()] + b) == a.len(),
        first_sep(a) < a.len() ==> first_sep(a + b) == first_sep(a),
    decreases a.len(),
{
    lemma_first_sep_props(a);
    if a.len() == 0 {
        if no_sep(a) {
            assert(a + seq![sep()] + b =~= seq![sep()] + b);
            assert((seq![sep()] + b)[0] == sep());
        }
    } else {
        lemma_first_sep_concat(a.drop_first(), b);
        if no_sep(a) {
            let w = a + seq![sep()] + b;
            assert(w[0] == a[0]);
            assert(a[0] != sep());
            assert(w.drop_first() =~= a.drop_first() + seq![sep()] + b);
            assert(no_sep(a.drop_first())) by {
                assert(forall|i: int|
                    0 <= i < a.drop_first().len() ==> a.drop_first()[i] == a[i + 1]);
            }
        }
        if first_sep(a) < a.len() {
            let w = a + b;
            assert(w[0] == a[0]);
            if a[0] != sep() {
                assert(w.drop_first() =~= a.drop_first() + b);
            }
        }
    }
}

/// Splitting distributes over a separator: the segments of
/// `a / b` are the segments of `a` followed by those of `b`.
pub proof fn lemma_split_concat(a: Seq<char>, b: Seq<char>)
    ensures
        split_sep(a + seq![sep()] + b) == split_sep(a) + split_sep(b),
    decreases a.len(),
{
    lemma_first_sep_props(a);
    lemma_first_sep_concat(a, b);
    let w = a + seq![sep()] + b;
    if no_sep(a) {
        assert(first_sep(w) == a.len());
        assert(w.len() == a.len() + 1 + b.len());
        assert(w.take(a.len() as int) =~= a);
        assert(w.skip(a.len() as int + 1) =~= b);
        assert(split_sep(w) == seq![a] + split_sep(b));
        assert(split_sep(a) =~= seq![a]);
        assert(split_sep(w) =~= split_sep(a) + split_sep(b));
    } else {
        let i = first_sep(a);
        assert(i < a.len());
        assert(a + (seq![sep()] + b) =~= w);
        lemma_first_sep_concat(a, seq![sep()] + b);
        assert(first_sep(w) == i);
        assert(w.take(i) =~= a.take(i));
        assert(w.skip(i + 1) =~= a.skip(i + 1) + seq![sep()] + b);
        lemma_split_concat(a.skip(i + 1), b);
        assert(split_sep(w) == seq![a.take(i)] + (split_sep(a.skip(i + 1)) + split_sep(b)));
        assert(split_sep(a) == seq![a.take(i)] + split_sep(a.skip(i + 1)));
        assert(split_sep(w) =~= split_sep(a) + split_sep(b));
    }
}

/// Splitting always yields at least one segment, and none of the segments
/// contains the separator.
pub proof fn lemma_split_props(s: Seq<char>)
    ensures
        split_sep(s).len() >= 1,
        forall|k: int| 0 <= k < split_sep(s).len() ==> no_sep(#[trigger] split_sep(s)[k]),
    decreases s.len(),
{
    lemma_first_sep_props(s);
    let i = first_sep(s);
    if !(0 <= i < s.len()) {
    } else {
        lemma_split_props(s.skip(i + 1));
        assert(no_sep(s.take(i))) by {
            assert(forall|j: int| 0 <= j < i ==> s.take(i)[j] == s[j]);
        }
        assert forall|k: int| 0 <= k < split_sep(s).len() implies no_sep(
            #[trigger] split_sep(s)[k],
        ) by {
            if k > 0 {
                assert(split_sep(s)[k] == split_sep(s.skip(i + 1))[k - 1]);
            }
        }
    }
}

/// Joining the segments of a string gives the string back.
pub proof fn lemma_join_split(s: Seq<char>)
    ensures
        join_sep(split_sep(s)) == s,
    decreases s.len(),
{
    lemma_first_sep_props(s);
    let i = first_sep(s);
    if !(0 <= i < s.len()) {
        assert(join_sep(split_sep(s)) == s);
    } else {
        lemma_join_split(s.skip(i + 1));
        let parts = split_sep(s);
        lemma_split_props(s.skip(i + 1));
        assert(parts.len() >= 2);
        assert(parts.drop_first() =~= split_sep(s.skip(i + 1)));
        assert(join_sep(parts) == s.take(i) + seq![sep()] + s.skip(i + 1));
        assert(s[i] == sep());
        assert(s.take(i) + seq![sep()] + s.skip(i + 1) =~= s);
    }
}

/// A string splits into a single segment exactly when it holds no
/// separator, and that segment is the string itself.
pub proof fn lemma_split_single(s: Seq<char>)
    ensures
        split_sep(s).len() == 1 <==> no_sep(s),
        no_sep(s) ==> split_sep(s) == seq![s],
{
    lemma_first_sep_props(s);
    if !no_sep(s) {
        let i = first_sep(s);
        assert(0 <= i < s.len());
        lemma_split_props(s.skip(i + 1));
    }
}

pub open spec fn is_digit(c: char) -> bool {
    '0' <= c <= '9'
}

/// The value of a digit string, read in base ten.
pub open spec fn digits_val(s: Seq<char>) -> int
    decreases s.len(),
{
    if s.len() == 0 {
        0
    } else {
        digits_val(s.drop_last()) * 10 + (s.last() as int - '0' as int)
    }
}

pub proof fn lemma_digits_val_bounds(s: Seq<char>)
    requires
        forall|i: int| 0 <= i < s.len() ==> is_digit(#[trigger] s[i]),
    ensures
        digits_val(s) >= 0,
        forall|j: int| 0 <= j <= s.len() ==> digits_val(#[trigger] s.take(j)) <= digits_val(s),
    decreases s.len(),
{
    if s.len() == 0 {
        assert forall|j: int| 0 <= j <= s.len() implies digits_val(#[trigger] s.take(j))
            <= digits_val(s) by {
            assert(s.take(j) =~= s);
        }
    } else {
        lemma_digits_val_bounds(s.drop_last());
        assert(is_digit(s.last()));
        assert(digits_val(s) >= digits_val(s.drop_last()));
        assert forall|j: int| 0 <= j <= s.len() implies digits_val(#[trigger] s.take(j))
            <= digits_val(s) by {
            if j == s.len() {
                assert(s.take(j) =~= s);
            } else {
                assert(s.take(j) =~= s.drop_last().take(j));
            }
        }
    }
}

/// The prefix every channel identifier starts with, as chars.
pub open spec fn channel_prefix() -> Seq<char> {
    seq!['c', 'h', 'a', 'n', 'n', 'e', 'l', '-']
}

/// A segment of the form `channel-<N>` with `N` a base-ten number that a
/// 64-bit machine word can hold.
pub open spec fn is_valid_channel_seq(s: Seq<char>) -> bool {
    &&& s.len() > 8
    &&& s.take(8) == channel_prefix()
    &&& forall|i: int| 8 <= i < s.len() ==> is_digit(#[trigger] s[i])
    &&& digits_val(s.skip(8)) <= u64::MAX
}

/// The loop that peels (port, channel) pairs off the front of a segment
/// list: a pair is consumed while the list is long enough and the odd
/// segment is a valid channel id; everything from the first segment that
/// breaks the pattern on belongs to the base denom.
pub open spec fn extract_from(parts: Seq<Seq<char>>, i: int) -> (Seq<Seq<char>>, Seq<Seq<char>>)
    decreases parts.len() - i,
{
    if !(0 <= i < parts.len()) {
        (Seq::empty(), Seq::empty())
    } else if i < parts.len() - 1 && parts.len() > 2 && is_valid_channel_seq(parts[i + 1]) {
        let rest = extract_from(parts, i + 2);
        (seq![parts[i], parts[i + 1]] + rest.0, rest.1)
    } else {
        (Seq::empty(), parts.skip(i))
    }
}

/// What parsing a full denom yields: the path part and the base part,
/// each joined back into a string.
pub open spec fn parse_denom_spec(raw: Seq<char>) -> (Seq<char>, Seq<char>) {
    if no_sep(raw) {
        (Seq::empty(), raw)
    } else {
        let r = extract_from(split_sep(raw), 0);
        (join_sep(r.0), join_sep(r.1))
    }
}

/// The full form of a trace: the base alone when the path is empty, else
/// the path, a separator, and the base.
pub open spec fn encode_denom_spec(path: Seq<char>, base: Seq<char>) -> Seq<char> {
    if path.len() == 0 {
        base
    } else {
        path + seq![sep()] + base
    }
}

/// A trace that the full form can carry faithfully: the path segments
/// alternate port and valid channel id, and the base does not itself open
/// with a (port, valid channel) pair that the extraction loop would eat.
pub open spec fn denom_trace_wf(path: Seq<char>, base: Seq<char>) -> bool {
    let pp = split_sep(path);
    let bp = split_sep(base);
    if path.len() == 0 {
        bp.len() <= 2 || !is_valid_channel_seq(bp[1])
    } else {
        &&& pp.len() % 2 == 0
        &&& forall|i: int|
            0 <= i < pp.len() && i % 2 == 1 ==> is_valid_channel_seq(#[trigger] pp[i])
        &&& (bp.len() == 1 || !is_valid_channel_seq(bp[1]))
    }
}

/// When the first `m` segments form clean (port, channel) pairs and the
/// pattern stops at `m`, extraction cuts the list exactly there.
proof fn lemma_extract_exact(parts: Seq<Seq<char>>, m: int, i: int)
    requires
        0 <= i <= m <= parts.len(),
        (m - i) % 2 == 0,
        forall|j: int| i <= j < m && (j - i) % 2 == 1 ==> is_valid_channel_seq(#[trigger] parts[j]),
        m == parts.len() || m == parts.len() - 1 || parts.len() <= 2 || !is_valid_channel_seq(
            parts[m + 1],
        ),
        i < m ==> parts.len() > 2,
    ensures
        extract_from(parts, i) == (parts.subrange(i, m), parts.skip(m)),
    decreases m - i,
{
    if i == m {
        if m == parts.len() {
            assert(extract_from(parts, i) == (Seq::<Seq<char>>::empty(), Seq::<Seq<char>>::empty()));
            assert(parts.subrange(i, m) =~= Seq::<Seq<char>>::empty());
            assert(parts.skip(m) =~= Seq::<Seq<char>>::empty());
        } else {
            assert(!(i < parts.len() - 1 && parts.len() > 2 && is_valid_channel_seq(
                parts[i + 1],
            )));
            assert(parts.subrange(i, m) =~= Seq::<Seq<char>>::empty());
        }
    } else {
        assert(i + 2 <= m);
        assert(is_valid_channel_seq(parts[i + 1])) by {
            assert(i <= i + 1 < m && ((i + 1) - i) % 2 == 1);
        }
        assert(i < parts.len() - 1);
        lemma_extract_exact(parts, m, i + 2);
        let rest = extract_from(parts, i + 2);
        assert(rest.0 == parts.subrange(i + 2, m));
        assert(seq![parts[i], parts[i + 1]] + parts.subrange(i + 2, m) =~= parts.subrange(i, m));
    }
}

/// Appending a separator ends the last segment and opens a fresh empty
/// one.
proof fn lemma_split_append_sep(x: Seq<char>)
    ensures
        split_sep(x + seq![sep()]) == split_sep(x) + seq![Seq::<char>::empty()],
{
    lemma_split_concat(x, Seq::empty());
    assert(x + seq![sep()] + Seq::<char>::empty() =~= x + seq![sep()]);
    assert(split_sep(Seq::<char>::empty()) =~= seq![Seq::<char>::empty()]);
}

/// Appending an ordinary character extends the last segment.
proof fn lemma_split_append_char(x: Seq<char>, c: char)
    requires
        c != sep(),
    ensures
        split_sep(x + seq![c]) == split_sep(x).drop_last().push(split_sep(x).last().push(c)),
    decreases x.len(),
{
    lemma_first_sep_props(x);
    lemma_split_props(x);
    if no_sep(x) {
        assert(no_sep(x + seq![c])) by {
            assert(forall|i: int|
                0 <= i < x.len() ==> (x + seq![c])[i] == x[i]);
            assert((x + seq![c])[x.len() as int] == c);
        }
        lemma_split_single(x + seq![c]);
        lemma_split_single(x);
        assert(split_sep(x + seq![c]) == seq![x + seq![c]]);
        assert(split_sep(x).drop_last().push(split_sep(x).last().push(c)) =~= seq![x.push(c)]);
        assert(x + seq![c] =~= x.push(c));
    } else {
        let i = first_sep(x);
        assert(i < x.len());
        lemma_first_sep_concat(x, seq![c]);
        assert(first_sep(x + seq![c]) == i);
        assert((x + seq![c]).take(i) =~= x.take(i));
        assert((x + seq![c]).skip(i + 1) =~= x.skip(i + 1) + seq![c]);
        lemma_split_append_char(x.skip(i + 1), c);
        lemma_split_props(x.skip(i + 1));
        let t = split_sep(x.skip(i + 1));
        assert(split_sep(x + seq![c]) == seq![x.take(i)] + t.drop_last().push(t.last().push(c)));
        assert(split_sep(x) == seq![x.take(i)] + t);
        assert(seq![x.take(i)] + t.drop_last().push(t.last().push(c)) =~= (seq![x.take(i)]
            + t).drop_last().push((seq![x.take(i)] + t).last().push(c)));
    }
}

/// Joining one more segment appends a separator and the segment.
proof fn lemma_join_push(p: Seq<Seq<char>>, x: Seq<char>)
    ensures
        p.len() == 0 ==> join_sep(p.push(x)) == x,
        p.len() > 0 ==> join_sep(p.push(x)) == join_sep(p) + seq![sep()] + x,
    decreases p.len(),
{
    if p.len() == 0 {
        assert(p.push(x)[0] == x);
    } else if p.len() == 1 {
        assert(p.push(x).drop_first() =~= seq![x]);
        assert(join_sep(seq![x]) == x);
        assert(p.push(x)[0] == p[0]);
        assert(join_sep(p.push(x)) == p[0] + seq![sep()] + x);
        assert(join_sep(p) == p[0]);
    } else {
        lemma_join_push(p.drop_first(), x);
        assert(p.push(x).drop_first() =~= p.drop_first().push(x));
        assert(join_sep(p.push(x)) == p[0] + seq![sep()] + (join_sep(p.drop_first()) + seq![sep()]
            + x));
        assert(p[0] + seq![sep()] + (join_sep(p.drop_first()) + seq![sep()] + x) =~= (p[0]
            + seq![sep()] + join_sep(p.drop_first())) + seq![sep()] + x);
    }
}

/// The views of a list of owned segments.
pub open spec fn seg_views(parts: Seq<String>) -> Seq<Seq<char>> {
    Seq::new(parts.len(), |i: int| parts[i]@)
}

/// Cuts a denom at each separator.  Splitting an empty string gives one
/// empty segment, and a string without separators is its own single
/// segment.
pub fn split_slash(s: &str) -> (parts: Vec<String>)
    ensures
        seg_views(parts@) == split_sep(s@),
        parts@.len() >= 1,
{
    let n = s.unicode_len();
    let mut parts: Vec<String> = Vec::new();
    let mut start: usize = 0;
    let mut i: usize = 0;
    while i < n
        invariant
            n == s@.len(),
            0 <= start <= i <= n,
            seg_views(parts@).push(s@.subrange(start as int, i as int)) == split_sep(
                s@.take(i as int),
            ),
        decreases n - i,
    {
        let c = s.get_char(i);
        proof {
            assert(s@.take(i as int + 1) =~= s@.take(i as int) + seq![s@[i as int]]);
        }
        if c == '/' {
            let seg = s.substring_char(start, i);
            proof {
                lemma_split_append_sep(s@.take(i as int));
            }
            parts.push(seg.to_owned());
            start = i + 1;
            proof {
                assert(s@.subrange(start as int, i as int + 1) =~= Seq::<char>::empty());
                assert(seg_views(parts@).push(s@.subrange(start as int, i as int + 1)) =~= split_sep(
                    s@.take(i as int),
                ) + seq![Seq::<char>::empty()]);
            }
        } else {
            proof {
                lemma_split_append_char(s@.take(i as int), c);
                lemma_split_props(s@.take(i as int));
                let old_parts = seg_views(parts@).push(s@.subrange(start as int, i as int));
                assert(old_parts.last() == s@.subrange(start as int, i as int));
                assert(old_parts.drop_last() =~= seg_views(parts@));
                assert(s@.subrange(start as int, i as int).push(c) =~= s@.subrange(
                    start as int,
                    i as int + 1,
                ));
                assert(seg_views(parts@).push(s@.subrange(start as int, i as int + 1)) =~= split_sep(
                    s@.take(i as int),
                ).drop_last().push(split_sep(s@.take(i as int)).last().push(c)));
            }
        }
        i = i + 1;
    }
    let seg = s.substring_char(start, n);
    parts.push(seg.to_owned());
    proof {
        assert(s@.take(n as int) =~= s@);
        assert(seg_views(parts@) =~= seg_views(parts@.drop_last()).push(s@.subrange(
            start as int,
            n as int,
        )));
    }
    parts
}

/// Joins segments back with a separator between each two.
pub fn join_slash(parts: &Vec<String>) -> (r: String)
    ensures
        r@ == join_sep(seg_views(parts@)),
{
    let mut r = String::new();
    let mut i: usize = 0;
    while i < parts.len()
        invariant
            0 <= i <= parts@.len(),
            r@ == join_sep(seg_views(parts@).take(i as int)),
        decreases parts@.len() - i,
    {
        proof {
            reveal_strlit("/");
            assert("/"@ =~= seq![sep()]);
            lemma_join_push(seg_views(parts@).take(i as int), parts@[i as int]@);
            assert(seg_views(parts@).take(i as int).push(parts@[i as int]@) =~= seg_views(
                parts@,
            ).take(i as int + 1));
        }
        if i > 0 {
            r.append("/");
        }
        r.append(parts[i].as_str());
        i = i + 1;
    }
    proof {
        assert(seg_views(parts@).take(parts@.len() as int) =~= seg_views(parts@));
    }
    r
}

/// Whether a segment has the form `channel-<N>` with `N` a base-ten
/// number a 64-bit word can hold.
pub fn is_valid_channel_id(s: &str) -> (r: bool)
    ensures
        r == is_valid_channel_seq(s@),
{
    let n = s.unicode_len();
    if n <= 8 {
        return false;
    }
    let prefix = "channel-";
    proof {
        reveal_strlit("channel-");
        assert(prefix@ =~= channel_prefix());
    }
    let mut j: usize = 0;
    while j < 8
        invariant
            0 <= j <= 8,
            n == s@.len(),
            n > 8,
            prefix@ == channel_prefix(),
            forall|k: int| 0 <= k < j ==> s@[k] == channel_prefix()[k],
        decreases 8 - j,
    {
        if s.get_char(j) != prefix.get_char(j) {
            proof {
                assert(s@.take(8)[j as int] != channel_prefix()[j as int]);
            }
            return false;
        }
        j = j + 1;
    }
    let mut acc: u64 = 0;
    let mut i: usize = 8;
    while i < n
        invariant
            8 <= i <= n,
            n == s@.len(),
            n > 8,
            forall|k: int| 8 <= k < i ==> is_digit(#[trigger] s@[k]),
            acc == digits_val(s@.subrange(8, i as int)),
        decreases n - i,
    {
        let c = s.get_char(i);
        if c < '0' || c > '9' {
            return false;
        }
        let d: u64 = (c as u32 - 48) as u64;
        proof {
            assert(s@.subrange(8, i as int + 1) =~= s@.subrange(8, i as int).push(c));
            assert(s@.subrange(8, i as int + 1).drop_last() =~= s@.subrange(8, i as int));
        }
        let step = match acc.checked_mul(10) {
            Some(m) => m.checked_add(d),
            None => None,
        };
        match step {
            Some(v) => {
                acc = v;
            },
            None => {
                proof {
                    let rest = s@.skip(8);
                    assert(digits_val(s@.subrange(8, i as int + 1)) > u64::MAX);
                    if forall|k: int| 8 <= k < s@.len() ==> is_digit(#[trigger] s@[k]) {
                        assert(forall|k: int| 0 <= k < rest.len() ==> is_digit(#[trigger] rest[k]));
                        lemma_digits_val_bounds(rest);
                        assert(rest.take(i as int + 1 - 8) =~= s@.subrange(8, i as int + 1));
                        assert(digits_val(rest) > u64::MAX);
                    }
                }
                return false;
            },
        }
        i = i + 1;
    }
    proof {
        assert(s@.subrange(8, n as int) =~= s@.skip(8));
        assert(s@.take(8) =~= channel_prefix());
    }
    true
}

/// Peels (port, channel) pairs off the front of the segment list and
/// joins what is left into the base denom, exactly as `extract_from`
/// describes.
pub fn extract_path_and_base_from_full_denom(parts: Vec<String>) -> (r: (String, String))
    ensures
        r.0@ == join_sep(extract_from(seg_views(parts@), 0).0),
        r.1@ == join_sep(extract_from(seg_views(parts@), 0).1),
{
    let ghost all: Seq<Seq<char>> = seg_views(parts@);
    let len = parts.len();
    let mut path_parts: Vec<String> = Vec::new();
    let mut base_parts: Vec<String> = Vec::new();
    let mut i: usize = 0;
    let mut stopped = false;
    while i < len && !stopped
        invariant
            0 <= i <= len,
            len == parts@.len(),
            all == seg_views(parts@),
            !stopped ==> extract_from(all, 0).0 == seg_views(path_parts@) + extract_from(
                all,
                i as int,
            ).0,
            !stopped ==> extract_from(all, 0).1 == extract_from(all, i as int).1,
            !stopped ==> base_parts@.len() == 0,
            stopped ==> seg_views(path_parts@) == extract_from(all, 0).0 && seg_views(base_parts@)
                == extract_from(all, 0).1,
        decreases len - i, 1int - (if stopped { 1int } else { 0int }),
    {
        if i + 1 < len && len > 2 && is_valid_channel_id(parts[i + 1].as_str()) {
            path_parts.push(parts[i].clone());
            path_parts.push(parts[i + 1].clone());
            proof {
                assert(seg_views(path_parts@) =~= seg_views(path_parts@.subrange(
                    0,
                    path_parts@.len() - 2,
                )) + seq![all[i as int], all[i as int + 1]]);
                assert(seg_views(path_parts@.subrange(0, path_parts@.len() - 2)) + (seq![
                    all[i as int],
                    all[i as int + 1],
                ] + extract_from(all, i as int + 2).0) =~= seg_views(path_parts@) + extract_from(
                    all,
                    i as int + 2,
                ).0);
            }
            i = i + 2;
        } else {
            proof {
                assert(seg_views(base_parts@) =~= all.subrange(i as int, i as int));
            }
            let mut j: usize = i;
            while j < len
                invariant
                    i <= j <= len,
                    len == parts@.len(),
                    all == seg_views(parts@),
                    seg_views(base_parts@) == all.subrange(i as int, j as int),
                decreases len - j,
            {
                let ghost bp0 = base_parts@;
                base_parts.push(parts[j].clone());
                proof {
                    assert(seg_views(bp0).len() == bp0.len());
                    assert(bp0.len() == j - i);
                    assert(base_parts@ =~= bp0.push(parts@[j as int]));
                    assert(base_parts@.len() == j - i + 1);
                    assert forall|k: int| 0 <= k < j - i + 1 implies seg_views(base_parts@)[k]
                        == all.subrange(i as int, j as int + 1)[k] by {
                        assert(all.subrange(i as int, j as int + 1)[k] == all[i + k]);
                        assert(all[i + k] == parts@[i + k]@);
                        assert(seg_views(base_parts@)[k] == base_parts@[k]@);
                        if k < bp0.len() {
                            assert(seg_views(bp0)[k] == all.subrange(i as int, j as int)[k]);
                            assert(all.subrange(i as int, j as int)[k] == all[i + k]);
                            assert(base_parts@[k] == bp0[k]);
                            assert(seg_views(bp0)[k] == bp0[k]@);
                        } else {
                            assert(base_parts@[k] == parts@[j as int]);
                        }
                    }
                    assert(seg_views(base_parts@) =~= all.subrange(i as int, j as int + 1));
                }
                j = j + 1;
            }
            proof {
                assert(all.subrange(i as int, len as int) =~= all.skip(i as int));
                assert(extract_from(all, i as int) == (
                    Seq::<Seq<char>>::empty(),
                    all.skip(i as int),
                ));
                assert(seg_views(path_parts@) + Seq::<Seq<char>>::empty() =~= seg_views(
                    path_parts@,
                ));
            }
            stopped = true;
        }
    }
    proof {
        if !stopped {
            assert(i == len);
            assert(extract_from(all, len as int) == (
                Seq::<Seq<char>>::empty(),
                Seq::<Seq<char>>::empty(),
            ));
            assert(seg_views(path_parts@) + Seq::<Seq<char>>::empty() =~= seg_views(path_parts@));
            assert(seg_views(base_parts@) =~= Seq::<Seq<char>>::empty());
        }
    }
    let path = join_slash(&path_parts);
    let base = join_slash(&base_parts);
    (path, base)
}

/// Splits a full denom into its transfer path and base denom.  A denom
/// without separators is all base; otherwise (port, channel) pairs are
/// peeled off the front while the channel segments are valid.
pub fn parse_denom_trace(raw: String) -> (r: Result<DenomTrace, Error>)
    ensures
        r is Ok,
        r matches Ok(t) ==> t.path@ == parse_denom_spec(raw@).0 && t.base_denom@
            == parse_denom_spec(raw@).1,
{
    let parts = split_slash(raw.as_str());
    proof {
        lemma_split_single(raw@);
    }
    if parts.len() == 1 {
        Ok(DenomTrace { path: String::new(), base_denom: raw })
    } else {
        let (path, base) = extract_path_and_base_from_full_denom(parts);
        Ok(DenomTrace { path, base_denom: base })
    }
}

/// The full form of a trace: the base alone when the path is empty, else
/// path, separator, base.
pub fn full_denom(trace: &DenomTrace) -> (r: String)
    ensures
        r@ == encode_denom_spec(trace.path@, trace.base_denom@),
{
    if trace.path.as_str().is_empty() {
        let base = trace.base_denom.as_str();
        base.to_owned()
    } else {
        proof {
            reveal_strlit("/");
            assert("/"@ =~= seq![sep()]);
        }
        let mut r = trace.path.as_str().to_owned();
        r.append("/");
        r.append(trace.base_denom.as_str());
        r
    }
}

/// Round trip: the full form of a well-formed trace parses back to
/// exactly the original (path, base) split.
pub proof fn lemma_denom_round_trip(path: Seq<char>, base: Seq<char>)
    requires
        denom_trace_wf(path, base),
    ensures
        parse_denom_spec(encode_denom_spec(path, base)) == (path, base),
{
    let pp = split_sep(path);
    let bp = split_sep(base);
    lemma_split_props(path);
    lemma_split_props(base);
    lemma_join_split(path);
    lemma_join_split(base);
    if path.len() == 0 {
        if no_sep(base) {
        } else {
            lemma_split_single(base);
            assert(bp.len() >= 2);
            lemma_extract_exact(bp, 0, 0);
            assert(bp.subrange(0, 0) =~= Seq::<Seq<char>>::empty());
            assert(bp.skip(0) =~= bp);
            assert(parse_denom_spec(base) == (join_sep(Seq::<Seq<char>>::empty()), join_sep(bp)));
            assert(path =~= join_sep(Seq::<Seq<char>>::empty()));
        }
    } else {
        let w = path + seq![sep()] + base;
        assert(w[path.len() as int] == sep());
        assert(!no_sep(w));
        lemma_split_concat(path, base);
        let parts = pp + bp;
        let m = pp.len() as int;
        assert(m % 2 == 0);
        assert(m >= 2) by {
            assert(pp.len() >= 1);
        }
        assert(parts.len() > 2) by {
            assert(bp.len() >= 1);
        }
        assert forall|j: int| 0 <= j < m && (j - 0) % 2 == 1 implies is_valid_channel_seq(
            #[trigger] parts[j],
        ) by {
            assert(parts[j] == pp[j]);
        }
        if bp.len() == 1 {
            assert(m == parts.len() - 1);
        } else {
            assert(parts[m + 1] == bp[1]);
        }
        lemma_extract_exact(parts, m, 0);
        assert(parts.subrange(0, m) =~= pp);
        assert(parts.skip(m) =~= bp);
    }
}


/// Shapes a denom-trace lookup's answer: the transfer contract answers
/// the empty string for an unknown trace hash, which is reported as the
/// empty-trace error carrying the queried hash; any other answer is
/// parsed into its trace.
pub fn denom_trace_from_lookup(hash: String, full_path: String) -> (r: Result<DenomTrace, Error>)
    ensures
        full_path@.len() == 0 ==> (r matches Err(e) && e matches Error::EmptyDenomTrace {
            hash: h,
        } && h@ == hash@),
        full_path@.len() > 0 ==> (r matches Ok(t) && t.path@ == parse_denom_spec(full_path@).0
            && t.base_denom@ == parse_denom_spec(full_path@).1),
{
    if full_path.as_str().is_empty() {
        return Err(Error::EmptyDenomTrace { hash });
    }
    parse_denom_trace(full_path)
}

} // verus!
