use vstd::prelude::*;

use crate::text::same_text;

verus! {

/// Views of a list of key/value pairs.
pub open spec fn pair_views(ps: Seq<(String, String)>) -> Seq<(Seq<char>, Seq<char>)> {
    ps.map_values(|p: (String, String)| (p.0@, p.1@))
}

/// The value that a server reads for `key`: that of the last pair with the
/// key, if any pair has it.
pub open spec fn effective_value(ps: Seq<(Seq<char>, Seq<char>)>, key: Seq<char>) -> Option<
    Seq<char>,
>
    decreases ps.len(),
{
    if ps.len() == 0 {
        None
    } else if ps.last().0 == key {
        Some(ps.last().1)
    } else {
        effective_value(ps.drop_last(), key)
    }
}

/// Query arguments in the order in which they were set.
///
/// Setting a key again appends a second pair; nothing is removed, so the
/// request carries both and the later one is what the server acts on.
pub struct QueryArgs {
    pairs: Vec<(String, String)>,
}

impl View for QueryArgs {
    type V = Seq<(Seq<char>, Seq<char>)>;

    closed spec fn view(&self) -> Self::V {
        pair_views(self.pairs@)
    }
}

impl QueryArgs {
    /// No arguments.
    pub fn new() -> (r: QueryArgs)
        ensures
            r@ == Seq::<(Seq<char>, Seq<char>)>::empty(),
    {
        let r = QueryArgs { pairs: Vec::new() };
        assert(r@ =~= Seq::<(Seq<char>, Seq<char>)>::empty());
        r
    }

    /// These arguments followed by `key=value`.
    pub fn with(self, key: &str, value: String) -> (r: QueryArgs)
        ensures
            r@ == self@.push((key@, value@)),
    {
        let mut pairs = self.pairs;
        pairs.push((String::from_str(key), value));
        let r = QueryArgs { pairs };
        assert(r@ =~= self@.push((key@, value@)));
        r
    }

    /// The pairs, in order.
    pub fn as_pairs(&self) -> (r: &Vec<(String, String)>)
        ensures
            pair_views(r@) == self@,
    {
        &self.pairs
    }

    /// The value that a server reads for `key`.
    pub fn effective(&self, key: &str) -> (r: Option<&String>)
        ensures
            match r {
                Some(v) => effective_value(self@, key@) == Some(v@),
                None => effective_value(self@, key@).is_none(),
            },
    {
        let mut i: usize = self.pairs.len();
        assert(self.pairs@.subrange(0, i as int) == self.pairs@);
        while i > 0
            invariant
                i <= self.pairs@.len(),
                effective_value(self@, key@) == effective_value(
                    pair_views(self.pairs@.subrange(0, i as int)),
                    key@,
                ),
            decreases i,
        {
            let ghost ps = pair_views(self.pairs@.subrange(0, i as int));
            assert(ps.drop_last() == pair_views(self.pairs@.subrange(0, i - 1)));
            assert(ps.last() == (self.pairs@[i - 1].0@, self.pairs@[i - 1].1@));
            if same_text(self.pairs[i - 1].0.as_str(), key) {
                return Some(&self.pairs[i - 1].1);
            }
            i = i - 1;
        }
        None
    }
}

/// Setting a key twice keeps both pairs, and the later value is the one
/// that takes effect.
pub proof fn later_setting_wins(
    ps: Seq<(Seq<char>, Seq<char>)>,
    key: Seq<char>,
    first: Seq<char>,
    second: Seq<char>,
)
    ensures
        effective_value(ps.push((key, first)).push((key, second)), key) == Some(second),
        ps.push((key, first)).push((key, second)).len() == ps.len() + 2,
{
}

} // verus!
