//! Path parameters: a mapping from names to string values, kept as a list of
//! pairs in which no name occurs twice.

use vstd::prelude::*;
use std::collections::BTreeMap;
use crate::res::lines_view;
use crate::text::text_eq;

verus! {

/// The mapping that a list of name-value pairs stands for: a later pair
/// replaces an earlier one of the same name.
pub open spec fn params_map(pairs: Seq<(Seq<char>, Seq<char>)>) -> Map<Seq<char>, Seq<char>>
    decreases pairs.len(),
{
    if pairs.len() == 0 {
        Map::empty()
    } else {
        params_map(pairs.drop_last()).insert(pairs.last().0, pairs.last().1)
    }
}

/// The value that a mapping gives a name, if any.
pub open spec fn lookup(map: Map<Seq<char>, Seq<char>>, name: Seq<char>) -> Option<Seq<char>> {
    if map.contains_key(name) {
        Some(map[name])
    } else {
        None
    }
}

/// Whether no name occurs twice in a list of pairs: the list is empty, or its
/// front has no name twice and does not hold the name of its last pair.
pub open spec fn no_name_twice(pairs: Seq<(Seq<char>, Seq<char>)>) -> bool
    decreases pairs.len(),
{
    pairs.len() == 0 || (no_name_twice(pairs.drop_last()) && !params_map(
        pairs.drop_last(),
    ).contains_key(pairs.last().0))
}

/// The pairs that are left when every pair named `name` is taken out.
pub open spec fn without_name(pairs: Seq<(Seq<char>, Seq<char>)>, name: Seq<char>) -> Seq<
    (Seq<char>, Seq<char>),
>
    decreases pairs.len(),
{
    if pairs.len() == 0 {
        Seq::empty()
    } else {
        let rest = without_name(pairs.drop_last(), name);
        if pairs.last().0 == name {
            rest
        } else {
            rest.push(pairs.last())
        }
    }
}

/// The names of a list of pairs are the names of its mapping.
pub proof fn lemma_names_are_keys(pairs: Seq<(Seq<char>, Seq<char>)>, i: int)
    requires
        0 <= i < pairs.len(),
    ensures
        params_map(pairs).contains_key(pairs[i].0),
    decreases pairs.len(),
{
    if i < pairs.len() - 1 {
        lemma_names_are_keys(pairs.drop_last(), i);
    }
}

/// In a list with no name twice, pairs at different places have different
/// names.
pub proof fn lemma_no_name_twice_means_distinct(pairs: Seq<(Seq<char>, Seq<char>)>, i: int, j: int)
    requires
        no_name_twice(pairs),
        0 <= i < j < pairs.len(),
    ensures
        pairs[i].0 != pairs[j].0,
    decreases pairs.len(),
{
    if j < pairs.len() - 1 {
        lemma_no_name_twice_means_distinct(pairs.drop_last(), i, j);
    } else {
        lemma_names_are_keys(pairs.drop_last(), i);
    }
}

/// Taking a name out of a list takes it out of the mapping, and nothing else.
pub proof fn lemma_without_name_map(pairs: Seq<(Seq<char>, Seq<char>)>, name: Seq<char>)
    ensures
        params_map(without_name(pairs, name)) == params_map(pairs).remove(name),
    decreases pairs.len(),
{
    if pairs.len() == 0 {
        assert(params_map(without_name(pairs, name)) =~= params_map(pairs).remove(name));
    } else {
        let front = pairs.drop_last();
        lemma_without_name_map(front, name);
        if pairs.last().0 != name {
            assert(without_name(pairs, name).drop_last() =~= without_name(front, name));
        }
        assert(params_map(without_name(pairs, name)) =~= params_map(pairs).remove(name));
    }
}

/// Taking a name out of a list with no name twice leaves no name twice.
pub proof fn lemma_without_name_keeps_names_apart(
    pairs: Seq<(Seq<char>, Seq<char>)>,
    name: Seq<char>,
)
    requires
        no_name_twice(pairs),
    ensures
        no_name_twice(without_name(pairs, name)),
    decreases pairs.len(),
{
    if pairs.len() > 0 {
        let front = pairs.drop_last();
        lemma_without_name_keeps_names_apart(front, name);
        if pairs.last().0 != name {
            lemma_without_name_map(front, name);
            assert(without_name(pairs, name).drop_last() =~= without_name(front, name));
        }
    }
}

/// Looking a name up in a list with no name twice: the value of the pair of
/// that name, where there is one.
pub proof fn lemma_lookup_finds_the_pair(pairs: Seq<(Seq<char>, Seq<char>)>, i: int)
    requires
        no_name_twice(pairs),
        0 <= i < pairs.len(),
    ensures
        lookup(params_map(pairs), pairs[i].0) == Some(pairs[i].1),
    decreases pairs.len(),
{
    if i < pairs.len() - 1 {
        lemma_lookup_finds_the_pair(pairs.drop_last(), i);
        lemma_names_are_keys(pairs.drop_last(), i);
    }
}

/// A name that no pair has is no key of the mapping.
pub proof fn lemma_absent_name_is_no_key(pairs: Seq<(Seq<char>, Seq<char>)>, name: Seq<char>)
    requires
        forall|i: int| 0 <= i < pairs.len() ==> pairs[i].0 != name,
    ensures
        !params_map(pairs).contains_key(name),
    decreases pairs.len(),
{
    if pairs.len() > 0 {
        lemma_absent_name_is_no_key(pairs.drop_last(), name);
    }
}

/// Sets a name to a value in a list of pairs: an earlier pair of that name
/// goes, and the new pair comes last.
pub fn put_pair(pairs: &Vec<(String, String)>, name: &str, value: &str) -> (out: Vec<
    (String, String),
>)
    ensures
        lines_view(out@) == without_name(lines_view(pairs@), name@).push((name@, value@)),
        params_map(lines_view(out@)) == params_map(lines_view(pairs@)).insert(name@, value@),
        no_name_twice(lines_view(pairs@)) ==> no_name_twice(lines_view(out@)),
{
    let mut out: Vec<(String, String)> = Vec::new();
    let mut i: usize = 0;
    while i < pairs.len()
        invariant
            i <= pairs@.len(),
            lines_view(out@) == without_name(lines_view(pairs@).subrange(0, i as int), name@),
        decreases pairs@.len() - i,
    {
        let ghost before = lines_view(pairs@).subrange(0, i as int);
        let ghost after = lines_view(pairs@).subrange(0, i + 1);
        assert(after.drop_last() =~= before);
        assert(after.last() == (pairs@[i as int].0@, pairs@[i as int].1@));
        if !text_eq(pairs[i].0.as_str(), name) {
            let ghost old_out = out@;
            out.push((pairs[i].0.clone(), pairs[i].1.clone()));
            assert(lines_view(out@) =~= lines_view(old_out).push(after.last()));
        }
        i = i + 1;
    }
    assert(lines_view(pairs@).subrange(0, i as int) =~= lines_view(pairs@));
    let ghost kept = lines_view(out@);
    out.push((name.to_owned(), value.to_owned()));
    proof {
        let all = lines_view(pairs@);
        assert(lines_view(out@) =~= kept.push((name@, value@)));
        assert(lines_view(out@).drop_last() =~= kept);
        lemma_without_name_map(all, name@);
        assert(params_map(all).remove(name@).insert(name@, value@) =~= params_map(all).insert(
            name@,
            value@,
        ));
        if no_name_twice(all) {
            lemma_without_name_keeps_names_apart(all, name@);
        }
    }
    out
}

/// The JSON text that `serde_json::to_string` writes for a mapping from
/// strings to strings: one object, its keys in ascending order.
pub uninterp spec fn params_json(params: Map<Seq<char>, Seq<char>>) -> Seq<char>;

/// `serde_json::to_string` on a map from strings to strings, made of pairs
/// of which no two have one name: the JSON text of that mapping. It gives an
/// error only for a value whose own serializing fails or for a map whose keys
/// are no strings; a map from strings to strings is neither.
#[verifier::external_body]
pub(crate) fn params_to_json(pairs: &Vec<(String, String)>) -> (res: Result<String, String>)
    requires
        no_name_twice(lines_view(pairs@)),
    ensures
        res is Ok,
        res matches Ok(text) ==> text@ == params_json(params_map(lines_view(pairs@))),
{
    let map: BTreeMap<&str, &str> = pairs.iter().map(|pair| (pair.0.as_str(), pair.1.as_str())).collect();
    serde_json::to_string(&map).map_err(|e| e.to_string())
}

/// The path parameters of a request. Their values are always strings.
pub struct PathParams {
    pairs: Vec<(String, String)>,
}

impl View for PathParams {
    type V = Map<Seq<char>, Seq<char>>;

    closed spec fn view(&self) -> Map<Seq<char>, Seq<char>> {
        params_map(lines_view(self.pairs@))
    }
}

impl PathParams {
    #[verifier::type_invariant]
    spec fn names_apart(self) -> bool {
        no_name_twice(lines_view(self.pairs@))
    }

    /// No parameters.
    pub fn new() -> (params: Self)
        ensures
            params@ == Map::<Seq<char>, Seq<char>>::empty(),
    {
        let pairs: Vec<(String, String)> = Vec::new();
        assert(lines_view(pairs@) =~= Seq::empty());
        Self { pairs }
    }

    /// The parameters that a list of pairs stands for: a later pair replaces
    /// an earlier one of the same name.
    pub fn from_pairs(pairs: Vec<(String, String)>) -> (params: Self)
        ensures
            params@ == params_map(lines_view(pairs@)),
    {
        let mut kept: Vec<(String, String)> = Vec::new();
        let mut i: usize = 0;
        assert(lines_view(kept@) =~= Seq::empty());
        assert(lines_view(pairs@).subrange(0, 0) =~= Seq::empty());
        while i < pairs.len()
            invariant
                i <= pairs@.len(),
                no_name_twice(lines_view(kept@)),
                params_map(lines_view(kept@)) == params_map(
                    lines_view(pairs@).subrange(0, i as int),
                ),
            decreases pairs@.len() - i,
        {
            let ghost before = lines_view(pairs@).subrange(0, i as int);
            let ghost after = lines_view(pairs@).subrange(0, i + 1);
            assert(after.drop_last() =~= before);
            assert(after.last() == (pairs@[i as int].0@, pairs@[i as int].1@));
            kept = put_pair(&kept, pairs[i].0.as_str(), pairs[i].1.as_str());
            i = i + 1;
        }
        assert(lines_view(pairs@).subrange(0, i as int) =~= lines_view(pairs@));
        Self { pairs: kept }
    }

    /// These parameters with a name set to a value.
    pub fn with(self, name: &str, value: &str) -> (params: Self)
        ensures
            params@ == self@.insert(name@, value@),
    {
        proof {
            use_type_invariant(&self);
        }
        Self { pairs: put_pair(&self.pairs, name, value) }
    }

    /// The value of a parameter.
    pub fn get(&self, name: &str) -> (value: Option<&str>)
        ensures
            match value {
                Some(v) => lookup(self@, name@) == Some(v@),
                None => lookup(self@, name@) is None,
            },
    {
        proof {
            use_type_invariant(self);
        }
        let ghost pairs = lines_view(self.pairs@);
        let mut i: usize = 0;
        while i < self.pairs.len()
            invariant
                i <= self.pairs@.len(),
                pairs == lines_view(self.pairs@),
                no_name_twice(pairs),
                forall|j: int| 0 <= j < i ==> pairs[j].0 != name@,
            decreases self.pairs@.len() - i,
        {
            if text_eq(self.pairs[i].0.as_str(), name) {
                proof {
                    lemma_lookup_finds_the_pair(pairs, i as int);
                }
                return Some(self.pairs[i].1.as_str());
            }
            i = i + 1;
        }
        proof {
            lemma_absent_name_is_no_key(pairs, name@);
        }
        None
    }

    /// The parameters as pairs, each name once.
    pub fn pairs(&self) -> (pairs: &Vec<(String, String)>)
        ensures
            params_map(lines_view(pairs@)) == self@,
            no_name_twice(lines_view(pairs@)),
    {
        proof {
            use_type_invariant(self);
        }
        &self.pairs
    }

    /// The number of parameters.
    pub fn len(&self) -> (n: usize)
        ensures
            n == self@.dom().len(),
    {
        proof {
            use_type_invariant(self);
            lemma_no_name_twice_counts(lines_view(self.pairs@));
        }
        self.pairs.len()
    }

    /// Whether there are no parameters.
    pub fn is_empty(&self) -> (b: bool)
        ensures
            b == (self@.dom().len() == 0),
    {
        self.len() == 0
    }

    /// The parameters as the text of one JSON object of strings.
    pub fn to_json(&self) -> (res: Result<String, String>)
        ensures
            res matches Ok(text) && text@ == params_json(self@),
    {
        proof {
            use_type_invariant(self);
        }
        params_to_json(&self.pairs)
    }
}

/// A list with no name twice has as many pairs as its mapping has names.
pub proof fn lemma_no_name_twice_counts(pairs: Seq<(Seq<char>, Seq<char>)>)
    requires
        no_name_twice(pairs),
    ensures
        params_map(pairs).dom().finite(),
        params_map(pairs).dom().len() == pairs.len(),
    decreases pairs.len(),
{
    if pairs.len() > 0 {
        lemma_no_name_twice_counts(pairs.drop_last());
    }
}

} // verus!
