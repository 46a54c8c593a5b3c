use vstd::prelude::*;

use crate::text::{decimal, decimal_text, lemma_decimal_has_no_comma};

verus! {

/// The parts written one after another, a single comma between neighbours.
pub open spec fn comma_join(parts: Seq<Seq<char>>) -> Seq<char>
    decreases parts.len(),
{
    if parts.len() == 0 {
        Seq::empty()
    } else if parts.len() == 1 {
        parts[0]
    } else {
        comma_join(parts.drop_last()) + seq![','] + parts.last()
    }
}

/// The text cut at every comma; a text without commas is one part.
pub open spec fn comma_split(s: Seq<char>) -> Seq<Seq<char>>
    decreases s.len(),
{
    if s.len() == 0 {
        seq![Seq::empty()]
    } else if s.last() == ',' {
        comma_split(s.drop_last()).push(Seq::empty())
    } else {
        let r = comma_split(s.drop_last());
        r.update(r.len() - 1, r.last().push(s.last()))
    }
}

/// Decimal representations of a sequence of integers.
pub open spec fn decimals(ns: Seq<usize>) -> Seq<Seq<char>> {
    ns.map_values(|n: usize| decimal(n as nat))
}

/// Views of a sequence of texts.
pub open spec fn texts(ss: Seq<&str>) -> Seq<Seq<char>> {
    ss.map_values(|s: &str| s@)
}

/// A value, or an ordered collection of values, that a query argument
/// carries as one comma-separated text.
pub trait ComSep<T> {
    /// The textual form of each value, in order.
    spec fn cs_parts(&self) -> Seq<Seq<char>>;

    /// The comma-separated text of the values.
    fn to_cs_string(self) -> (r: String)
        ensures
            r@ == comma_join(self.cs_parts()),
    ;
}

impl ComSep<usize> for usize {
    open spec fn cs_parts(&self) -> Seq<Seq<char>> {
        seq![decimal(*self as nat)]
    }

    fn to_cs_string(self) -> (r: String) {
        decimal_text(self)
    }
}

impl<'a> ComSep<usize> for &'a usize {
    open spec fn cs_parts(&self) -> Seq<Seq<char>> {
        seq![decimal(**self as nat)]
    }

    fn to_cs_string(self) -> (r: String) {
        decimal_text(*self)
    }
}

impl ComSep<usize> for Vec<usize> {
    open spec fn cs_parts(&self) -> Seq<Seq<char>> {
        decimals(self@)
    }

    fn to_cs_string(self) -> (r: String) {
        let mut parts: Vec<String> = Vec::new();
        let mut i: usize = 0;
        while i < self.len()
            invariant
                i <= self@.len(),
                parts@.len() == i,
                forall|j: int| 0 <= j < i ==> #[trigger] parts@[j]@ == decimal(self@[j] as nat),
            decreases self@.len() - i,
        {
            parts.push(decimal_text(self[i]));
            i = i + 1;
        }
        let r = join_with_commas(&parts);
        assert(string_views(parts@) == decimals(self@));
        r
    }
}

impl<const N: usize> ComSep<usize> for [usize; N] {
    open spec fn cs_parts(&self) -> Seq<Seq<char>> {
        decimals(self@)
    }

    fn to_cs_string(self) -> (r: String) {
        let mut parts: Vec<String> = Vec::new();
        let mut i: usize = 0;
        while i < N
            invariant
                N == self@.len(),
                i <= N,
                parts@.len() == i,
                forall|j: int| 0 <= j < i ==> #[trigger] parts@[j]@ == decimal(self@[j] as nat),
            decreases N - i,
        {
            parts.push(decimal_text(self[i]));
            i = i + 1;
        }
        let r = join_with_commas(&parts);
        assert(string_views(parts@) == decimals(self@));
        r
    }
}

impl<'a> ComSep<&'a str> for &'a str {
    open spec fn cs_parts(&self) -> Seq<Seq<char>> {
        seq![self@]
    }

    fn to_cs_string(self) -> (r: String) {
        String::from_str(self)
    }
}

impl<'a> ComSep<&'a str> for Vec<&'a str> {
    open spec fn cs_parts(&self) -> Seq<Seq<char>> {
        texts(self@)
    }

    fn to_cs_string(self) -> (r: String) {
        let mut parts: Vec<String> = Vec::new();
        let mut i: usize = 0;
        while i < self.len()
            invariant
                i <= self@.len(),
                parts@.len() == i,
                forall|j: int| 0 <= j < i ==> #[trigger] parts@[j]@ == self@[j]@,
            decreases self@.len() - i,
        {
            parts.push(String::from_str(self[i]));
            i = i + 1;
        }
        let r = join_with_commas(&parts);
        assert(string_views(parts@) == texts(self@));
        r
    }
}

impl<'a, const N: usize> ComSep<&'a str> for [&'a str; N] {
    open spec fn cs_parts(&self) -> Seq<Seq<char>> {
        texts(self@)
    }

    fn to_cs_string(self) -> (r: String) {
        let mut parts: Vec<String> = Vec::new();
        let mut i: usize = 0;
        while i < N
            invariant
                N == self@.len(),
                i <= N,
                parts@.len() == i,
                forall|j: int| 0 <= j < i ==> #[trigger] parts@[j]@ == self@[j]@,
            decreases N - i,
        {
            parts.push(String::from_str(self[i]));
            i = i + 1;
        }
        let r = join_with_commas(&parts);
        assert(string_views(parts@) == texts(self@));
        r
    }
}

/// Views of a sequence of owned texts.
pub open spec fn string_views(ss: Seq<String>) -> Seq<Seq<char>> {
    ss.map_values(|s: String| s@)
}

/// Joins the parts with single commas.
pub fn join_with_commas(parts: &Vec<String>) -> (r: String)
    ensures
        r@ == comma_join(string_views(parts@)),
{
    let mut r = String::new();
    let mut i: usize = 0;
    while i < parts.len()
        invariant
            i <= parts@.len(),
            r@ == comma_join(string_views(parts@.subrange(0, i as int))),
        decreases parts@.len() - i,
    {
        let ghost before = string_views(parts@.subrange(0, i as int));
        let ghost after = string_views(parts@.subrange(0, i + 1));
        assert(after.drop_last() == before);
        assert(after.last() == parts@[i as int]@);
        if i > 0 {
            proof {
                reveal_strlit(",");
                assert(","@ =~= seq![',']);
            }
            r.append(",");
            r.append(parts[i].as_str());
            assert(r@ == comma_join(before) + seq![','] + after.last());
        } else {
            r.append(parts[i].as_str());
            assert(after.len() == 1);
            assert(r@ == after[0]);
        }
        i = i + 1;
    }
    assert(parts@.subrange(0, i as int) == parts@);
    r
}

/// Encoding no values gives the empty text.
pub proof fn empty_encodes_empty()
    ensures
        comma_join(Seq::<Seq<char>>::empty()) == Seq::<char>::empty(),
{
}

/// Encoding one value gives that value's own text, with no comma.
pub proof fn single_encodes_itself(x: Seq<char>)
    ensures
        comma_join(seq![x]) == x,
{
}

proof fn lemma_split_append_plain(p: Seq<char>, a: Seq<char>)
    requires
        !a.contains(','),
    ensures
        comma_split(p + a) == comma_split(p).update(
            comma_split(p).len() - 1,
            comma_split(p).last() + a,
        ),
        comma_split(p).len() >= 1,
    decreases a.len(),
{
    lemma_split_nonempty(p);
    if a.len() == 0 {
        assert(p + a == p);
        assert(comma_split(p).last() + a == comma_split(p).last());
        assert(comma_split(p).update(comma_split(p).len() - 1, comma_split(p).last())
            == comma_split(p));
    } else {
        let a0 = a.drop_last();
        assert(!a0.contains(',')) by {
            assert forall|i: int| 0 <= i < a0.len() implies a0[i] != ',' by {
                assert(a0[i] == a[i]);
            }
        }
        lemma_split_append_plain(p, a0);
        assert(a.last() != ',') by {
            assert(a[a.len() - 1] == a.last());
        }
        let s = p + a;
        assert(s.drop_last() == p + a0);
        assert(s.last() == a.last());
        let r = comma_split(p + a0);
        assert(comma_split(s) == r.update(r.len() - 1, r.last().push(a.last())));
        assert(a0.push(a.last()) == a);
        assert(comma_split(p).last() + a0 + seq![a.last()] == comma_split(p).last() + a);
    }
}

proof fn lemma_split_nonempty(s: Seq<char>)
    ensures
        comma_split(s).len() >= 1,
    decreases s.len(),
{
    if s.len() > 0 {
        lemma_split_nonempty(s.drop_last());
    }
}

proof fn lemma_split_after_comma(x: Seq<char>, a: Seq<char>)
    requires
        !a.contains(','),
    ensures
        comma_split(x + seq![','] + a) == comma_split(x).push(a),
{
    let xc = x + seq![','];
    assert(xc.drop_last() == x);
    assert(comma_split(xc) == comma_split(x).push(Seq::empty()));
    lemma_split_append_plain(xc, a);
    assert(Seq::<char>::empty() + a == a);
    assert(comma_split(x).push(Seq::empty()).update(comma_split(x).len() as int, a)
        == comma_split(x).push(a));
}

/// Splitting an encoding at its commas gives back the values' texts in
/// order, when there is at least one value and none holds a comma.
pub proof fn split_inverts_join(parts: Seq<Seq<char>>)
    requires
        parts.len() >= 1,
        forall|i: int| 0 <= i < parts.len() ==> !(#[trigger] parts[i]).contains(','),
    ensures
        comma_split(comma_join(parts)) == parts,
    decreases parts.len(),
{
    if parts.len() == 1 {
        lemma_split_append_plain(Seq::empty(), parts[0]);
        assert(Seq::<char>::empty() + parts[0] == parts[0]);
        assert(comma_split(Seq::<char>::empty()) == seq![Seq::<char>::empty()]);
        assert(seq![Seq::<char>::empty()].update(0, Seq::<char>::empty() + parts[0])
            == parts);
    } else {
        let init = parts.drop_last();
        assert forall|i: int| 0 <= i < init.len() implies !(#[trigger] init[i]).contains(',') by {
            assert(init[i] == parts[i]);
        }
        split_inverts_join(init);
        assert(!parts[parts.len() - 1].contains(','));
        lemma_split_after_comma(comma_join(init), parts.last());
        assert(init.push(parts.last()) == parts);
    }
}

/// Splitting the encoding of a sequence of integers at its commas gives
/// back their decimal texts in order.
pub proof fn split_inverts_integer_encoding(ns: Seq<usize>)
    requires
        ns.len() >= 1,
    ensures
        comma_split(comma_join(decimals(ns))) == decimals(ns),
{
    assert forall|i: int| 0 <= i < decimals(ns).len() implies !(#[trigger] decimals(
        ns,
    )[i]).contains(',') by {
        lemma_decimal_has_no_comma(ns[i] as nat);
    }
    split_inverts_join(decimals(ns));
}

} // verus!
