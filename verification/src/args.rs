//! Named arguments of a tool or prompt invocation, and their inline
//! `key=value` notation.

use vstd::prelude::*;
use vstd::string::*;
use crate::error::{format_failure, result_view, Error, ErrorView};
use crate::json::json_text;
use crate::text::{first_index_of, lemma_first_index_of, same_text, split_once};

verus! {

/// The value of one argument.
#[derive(Debug, PartialEq, Eq)]
pub enum ArgValue {
    /// A string.
    Text(String),
    /// Any other JSON value.
    Json(serde_json::Value),
}

/// Mathematical content of an [`ArgValue`]: the characters of a string, or
/// the compact JSON text of any other value.
pub enum ArgValueView {
    Text(Seq<char>),
    Json(Seq<char>),
}

impl View for ArgValue {
    type V = ArgValueView;

    open spec fn view(&self) -> ArgValueView {
        match self {
            ArgValue::Text(s) => ArgValueView::Text(s@),
            ArgValue::Json(v) => ArgValueView::Json(json_text(*v)),
        }
    }
}

impl Clone for ArgValue {
    fn clone(&self) -> (r: ArgValue)
        ensures
            r@ == self@,
    {
        match self {
            ArgValue::Text(s) => ArgValue::Text(s.clone()),
            ArgValue::Json(v) => ArgValue::Json(v.clone()),
        }
    }
}

/// What is written under a name: the name and the value.
pub type Pair = (Seq<char>, ArgValueView);

/// Names and values of a list of entries, in the same order.
pub open spec fn pairs_of(entries: Seq<(String, ArgValue)>) -> Seq<Pair> {
    entries.map_values(|e: (String, ArgValue)| (e.0@, e.1@))
}

/// The mapping that a list of pairs stands for when each pair is written
/// in turn, so that of two pairs with one name the later stays.
pub open spec fn pairs_map(pairs: Seq<Pair>) -> Map<Seq<char>, ArgValueView>
    decreases pairs.len(),
{
    if pairs.len() == 0 {
        Map::empty()
    } else {
        pairs_map(pairs.drop_last()).insert(pairs.last().0, pairs.last().1)
    }
}

/// Whether no two of the pairs have the same name.
pub open spec fn distinct_names(pairs: Seq<Pair>) -> bool {
    forall|i: int, j: int| 0 <= i < j < pairs.len() ==> (#[trigger] pairs[i]).0 != (
    #[trigger] pairs[j]).0
}

/// The names of a list of pairs are the domain of its mapping.
pub proof fn lemma_pairs_map_dom(pairs: Seq<Pair>, name: Seq<char>)
    ensures
        pairs_map(pairs).dom().contains(name) <==> exists|i: int|
            0 <= i < pairs.len() && (#[trigger] pairs[i]).0 == name,
    decreases pairs.len(),
{
    if pairs.len() > 0 {
        let rest = pairs.drop_last();
        lemma_pairs_map_dom(rest, name);
        if pairs_map(pairs).dom().contains(name) && pairs.last().0 != name {
            let i = choose|i: int| 0 <= i < rest.len() && (#[trigger] rest[i]).0 == name;
            assert(pairs[i].0 == name);
        }
        if exists|i: int| 0 <= i < pairs.len() && (#[trigger] pairs[i]).0 == name {
            let i = choose|i: int| 0 <= i < pairs.len() && (#[trigger] pairs[i]).0 == name;
            if i < pairs.len() - 1 {
                assert(rest[i].0 == name);
            }
        }
    }
}

/// Among pairs with distinct names, each pair's value is what the
/// mapping holds under its name.
pub proof fn lemma_pairs_map_value(pairs: Seq<Pair>, i: int)
    requires
        distinct_names(pairs),
        0 <= i < pairs.len(),
    ensures
        pairs_map(pairs).dom().contains(pairs[i].0),
        pairs_map(pairs)[pairs[i].0] == pairs[i].1,
    decreases pairs.len(),
{
    if i < pairs.len() - 1 {
        lemma_pairs_map_value(pairs.drop_last(), i);
    }
}

/// Replacing the value of a pair, among pairs with distinct names, writes
/// that value under the pair's name.
pub proof fn lemma_pairs_map_update(pairs: Seq<Pair>, i: int, pair: Pair)
    requires
        distinct_names(pairs),
        0 <= i < pairs.len(),
        pair.0 == pairs[i].0,
    ensures
        distinct_names(pairs.update(i, pair)),
        pairs_map(pairs.update(i, pair)) == pairs_map(pairs).insert(pair.0, pair.1),
    decreases pairs.len(),
{
    let updated = pairs.update(i, pair);
    let rest = pairs.drop_last();
    if i == pairs.len() - 1 {
        assert(updated.drop_last() == rest);
    } else {
        lemma_pairs_map_update(rest, i, pair);
        assert(updated.drop_last() == rest.update(i, pair));
        assert(pairs_map(updated) == pairs_map(rest).insert(pair.0, pair.1).insert(
            pairs.last().0,
            pairs.last().1,
        ));
    }
}

/// Pairs with distinct names stand for a mapping with as many names as
/// there are pairs.
pub proof fn lemma_pairs_map_len(pairs: Seq<Pair>)
    requires
        distinct_names(pairs),
    ensures
        pairs_map(pairs).dom().finite(),
        pairs_map(pairs).dom().len() == pairs.len(),
    decreases pairs.len(),
{
    if pairs.len() > 0 {
        let rest = pairs.drop_last();
        lemma_pairs_map_len(rest);
        lemma_pairs_map_dom(rest, pairs.last().0);
        if pairs_map(rest).dom().contains(pairs.last().0) {
            let i = choose|i: int| 0 <= i < rest.len() && (#[trigger] rest[i]).0 == pairs.last().0;
            assert(pairs[i].0 != pairs[pairs.len() - 1].0);
        }
    }
}

/// A mapping from parameter names to values. The order in which the
/// entries were written is of no account.
#[derive(Debug)]
pub struct ArgumentSet {
    entries: Vec<(String, ArgValue)>,
}

impl View for ArgumentSet {
    type V = Map<Seq<char>, ArgValueView>;

    closed spec fn view(&self) -> Map<Seq<char>, ArgValueView> {
        pairs_map(pairs_of(self.entries@))
    }
}

impl Clone for ArgumentSet {
    fn clone(&self) -> (r: ArgumentSet)
        ensures
            r@ == self@,
    {
        let mut r = ArgumentSet::new();
        let mut i: usize = 0;
        while i < self.entries.len()
            invariant
                0 <= i <= self.entries@.len(),
                r@ == pairs_map(pairs_of(self.entries@).take(i as int)),
            decreases self.entries.len() - i,
        {
            proof {
                assert(pairs_of(self.entries@).take(i + 1).drop_last() == pairs_of(
                    self.entries@,
                ).take(i as int));
            }
            r.insert(self.entries[i].0.clone(), self.entries[i].1.clone());
            i = i + 1;
        }
        proof {
            assert(pairs_of(self.entries@).take(i as int) == pairs_of(self.entries@));
        }
        r
    }
}

impl ArgumentSet {
    #[verifier::type_invariant]
    spec fn well_formed(self) -> bool {
        distinct_names(pairs_of(self.entries@))
    }

    /// The set without entries.
    pub fn new() -> (s: ArgumentSet)
        ensures
            s@ == Map::<Seq<char>, ArgValueView>::empty(),
    {
        ArgumentSet { entries: Vec::new() }
    }

    /// Position of the entry named `name`, if there is one.
    fn position(&self, name: &str) -> (r: Option<usize>)
        ensures
            match r {
                Some(i) => i < self.entries@.len() && pairs_of(self.entries@)[i as int].0 == name@,
                None => forall|i: int|
                    0 <= i < self.entries@.len() ==> (#[trigger] pairs_of(self.entries@)[i]).0
                        != name@,
            },
    {
        let mut i: usize = 0;
        while i < self.entries.len()
            invariant
                0 <= i <= self.entries@.len(),
                forall|k: int| 0 <= k < i ==> (#[trigger] pairs_of(self.entries@)[k]).0 != name@,
            decreases self.entries.len() - i,
        {
            if same_text(self.entries[i].0.as_str(), name) {
                return Some(i);
            }
            i = i + 1;
        }
        None
    }

    /// Writes `value` under `name`. A value that stood there before is
    /// replaced: the last write wins.
    pub fn insert(&mut self, name: String, value: ArgValue)
        ensures
            final(self)@ == old(self)@.insert(name@, value@),
    {
        let found = self.position(name.as_str());
        let mut taken = ArgumentSet { entries: Vec::new() };
        core::mem::swap(self, &mut taken);
        proof {
            use_type_invariant(&taken);
        }
        let ArgumentSet { entries: mut entries } = taken;
        let ghost before = pairs_of(entries@);
        match found {
            Some(i) => {
                proof {
                    lemma_pairs_map_update(before, i as int, (name@, value@));
                }
                entries.set(i, (name, value));
                assert(pairs_of(entries@) == before.update(i as int, (name@, value@)));
            },
            None => {
                entries.push((name, value));
                proof {
                    let pushed = before.push((name@, value@));
                    assert(pairs_of(entries@) == pushed);
                    assert(pushed.drop_last() == before);
                }
            },
        }
        *self = ArgumentSet { entries };
    }

    /// The value written under `name`, if there is one.
    pub fn get(&self, name: &str) -> (r: Option<&ArgValue>)
        ensures
            match r {
                Some(v) => self@.dom().contains(name@) && self@[name@] == v@,
                None => !self@.dom().contains(name@),
            },
    {
        proof {
            use_type_invariant(self);
            lemma_pairs_map_dom(pairs_of(self.entries@), name@);
        }
        match self.position(name) {
            Some(i) => {
                proof {
                    lemma_pairs_map_value(pairs_of(self.entries@), i as int);
                }
                Some(&self.entries[i].1)
            },
            None => None,
        }
    }

    /// Whether a value is written under `name`.
    pub fn contains_key(&self, name: &str) -> (r: bool)
        ensures
            r == self@.dom().contains(name@),
    {
        self.get(name).is_some()
    }

    /// The entries, each name once, in no particular order.
    pub fn entries(&self) -> (r: &Vec<(String, ArgValue)>)
        ensures
            distinct_names(pairs_of(r@)),
            pairs_map(pairs_of(r@)) == self@,
    {
        proof {
            use_type_invariant(self);
        }
        &self.entries
    }

    /// Number of names that have a value.
    pub fn len(&self) -> (n: usize)
        ensures
            self@.dom().finite(),
            n == self@.dom().len(),
    {
        proof {
            use_type_invariant(self);
            lemma_pairs_map_len(pairs_of(self.entries@));
        }
        self.entries.len()
    }

    /// Whether no name has a value.
    pub fn is_empty(&self) -> (r: bool)
        ensures
            r == (self@ == Map::<Seq<char>, ArgValueView>::empty()),
    {
        proof {
            use_type_invariant(self);
            if self.entries@.len() > 0 {
                lemma_pairs_map_dom(pairs_of(self.entries@), pairs_of(self.entries@)[0].0);
            }
        }
        self.entries.len() == 0
    }

    /// The set that results from writing each of `entries` in turn.
    pub fn from_entries(entries: Vec<(String, ArgValue)>) -> (r: ArgumentSet)
        ensures
            r@ == pairs_map(pairs_of(entries@)),
    {
        let mut r = ArgumentSet::new();
        let ghost all = pairs_of(entries@);
        for entry in it: entries
            invariant
                it.seq() == entries@,
                all == pairs_of(entries@),
                r@ == pairs_map(all.take(it.index() as int)),
        {
            proof {
                let k = it.index() as int;
                assert(all.take(k + 1).drop_last() == all.take(k));
            }
            r.insert(entry.0, entry.1);
        }
        proof {
            assert(all.take(entries@.len() as int) == all);
        }
        r
    }
}

/// The characters of each string of a list.
pub open spec fn texts(strings: Seq<String>) -> Seq<Seq<char>> {
    strings.map_values(|s: String| s@)
}

/// Name of an inline entry: what stands before its first `=`.
pub open spec fn entry_name(entry: Seq<char>) -> Seq<char> {
    entry.take(first_index_of(entry, '=', 0))
}

/// Value of an inline entry: what stands after its first `=`.
pub open spec fn entry_text(entry: Seq<char>) -> Seq<char> {
    entry.skip(first_index_of(entry, '=', 0) + 1)
}

/// What is said of an inline entry that holds no `=`.
pub open spec fn malformed_entry_message(entry: Seq<char>) -> Seq<char> {
    "Invalid argument format: '"@ + entry + "'. Expected key=value"@
}

/// What a list of inline entries resolves to: the mapping that results
/// from writing each `name=value` in turn, or the first entry that holds
/// no `=`.
pub open spec fn inline_arguments(entries: Seq<Seq<char>>) -> Result<
    Map<Seq<char>, ArgValueView>,
    Seq<char>,
>
    decreases entries.len(),
{
    if entries.len() == 0 {
        Ok(Map::empty())
    } else {
        match inline_arguments(entries.drop_last()) {
            Err(bad) => Err(bad),
            Ok(m) => if entries.last().contains('=') {
                Ok(
                    m.insert(
                        entry_name(entries.last()),
                        ArgValueView::Text(entry_text(entries.last())),
                    ),
                )
            } else {
                Err(entries.last())
            },
        }
    }
}

/// What resolving a list of inline entries returns: the mapping, or a
/// format error that names the first entry without `=`.
pub open spec fn inline_result(entries: Seq<Seq<char>>) -> Result<
    Map<Seq<char>, ArgValueView>,
    ErrorView,
> {
    match inline_arguments(entries) {
        Ok(m) => Ok(m),
        Err(bad) => Err(format_failure(malformed_entry_message(bad))),
    }
}

/// Once a prefix of the entries has failed, the whole list fails in the
/// same way.
pub proof fn lemma_inline_failure_stays(entries: Seq<Seq<char>>, n: int)
    requires
        0 <= n <= entries.len(),
        inline_arguments(entries.take(n)) is Err,
    ensures
        inline_arguments(entries) == inline_arguments(entries.take(n)),
    decreases entries.len() - n,
{
    if n < entries.len() {
        assert(entries.take(n + 1).drop_last() == entries.take(n));
        lemma_inline_failure_stays(entries, n + 1);
    } else {
        assert(entries.take(n) == entries);
    }
}

/// Parser of the inline `key=value` notation.
pub struct ArgumentParser;

impl ArgumentParser {
    /// Resolves a list of `key=value` entries into an argument set.
    ///
    /// Each entry is split at its first `=`; the value is taken as a string,
    /// as it stands. Of two entries with one key the later wins. The first
    /// entry without `=` fails the whole list with a format error, and no
    /// set is returned.
    pub fn parse_key_value_args(args: Vec<String>) -> (r: Result<ArgumentSet, Error>)
        ensures
            result_view(r) == inline_result(texts(args@)),
    {
        let mut set = ArgumentSet::new();
        let mut i: usize = 0;
        while i < args.len()
            invariant
                0 <= i <= args@.len(),
                inline_arguments(texts(args@).take(i as int)) == Ok::<
                    Map<Seq<char>, ArgValueView>,
                    Seq<char>,
                >(set@),
            decreases args.len() - i,
        {
            let entry = args[i].as_str();
            proof {
                assert(texts(args@).take(i + 1).drop_last() == texts(args@).take(i as int));
                lemma_first_index_of(entry@, '=', 0);
            }
            match split_once(entry, '=') {
                Some((name, value)) => {
                    set.insert(name, ArgValue::Text(value));
                },
                None => {
                    proof {
                        lemma_inline_failure_stays(texts(args@), i + 1);
                    }
                    let mut msg = "Invalid argument format: '".to_owned();
                    msg.append(entry);
                    msg.append("'. Expected key=value");
                    return Err(Error::Format(msg));
                },
            }
            i = i + 1;
        }
        proof {
            assert(texts(args@).take(i as int) == texts(args@));
        }
        Ok(set)
    }
}

} // verus!
