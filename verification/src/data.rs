//! What the program keeps beside the list: the charts on disk and the flag
//! that asks for the list to be read again.
use vstd::prelude::*;
use crate::item::text_of;

verus! {

/// A chart on disk, with the modifier bits that it is played with.
#[derive(Debug, PartialEq, Eq)]
pub struct SavedChart {
    pub local_path: String,
    pub mods: i32,
}

/// The model of a [`SavedChart`].
pub struct SavedModel {
    pub local_path: Seq<char>,
    pub mods: i32,
}

impl View for SavedChart {
    type V = SavedModel;

    open spec fn view(&self) -> SavedModel {
        SavedModel { local_path: self.local_path@, mods: self.mods }
    }
}

/// The models of a list of charts on disk.
pub open spec fn saved_models(charts: Seq<SavedChart>) -> Seq<SavedModel> {
    charts.map_values(|c: SavedChart| c@)
}

/// The charts on disk, in the order in which they are kept, and whether the
/// list has to be read again.
#[derive(Debug, PartialEq, Eq)]
pub struct AppData {
    pub charts: Vec<SavedChart>,
    pub need_update: bool,
}

/// The model of an [`AppData`].
#[verifier::ext_equal]
pub struct DataModel {
    pub charts: Seq<SavedModel>,
    pub need_update: bool,
}

impl DataModel {
    /// The data after they were asked whether the list has to be read again.
    pub open spec fn asked(self) -> DataModel {
        DataModel { need_update: false, ..self }
    }
}

impl View for AppData {
    type V = DataModel;

    open spec fn view(&self) -> DataModel {
        DataModel { charts: saved_models(self.charts@), need_update: self.need_update }
    }
}

/// The paths of a list of charts on disk.
pub open spec fn paths_of(charts: Seq<SavedModel>) -> Seq<Seq<char>> {
    charts.map_values(|c: SavedModel| c.local_path)
}

/// The first chart that is kept at `path`.
pub open spec fn position(charts: Seq<SavedModel>, path: Seq<char>) -> Option<int> {
    paths_of(charts).index_of_first(path)
}

/// `charts` without the first one that is kept at `path`.
pub open spec fn without(charts: Seq<SavedModel>, path: Seq<char>) -> Seq<SavedModel> {
    match position(charts, path) {
        Some(i) => charts.remove(i),
        None => charts,
    }
}

/// `charts` without one chart for each of `paths`, from the first to the last.
pub open spec fn without_all(charts: Seq<SavedModel>, paths: Seq<Seq<char>>) -> Seq<SavedModel>
    decreases paths.len(),
{
    if paths.len() == 0 {
        charts
    } else {
        without(without_all(charts, paths.drop_last()), paths.last())
    }
}

/// The modifier bits of the first chart that is kept at `path`; none where
/// there is no such chart or no path.
pub open spec fn mods_at(charts: Seq<SavedModel>, path: Option<Seq<char>>) -> i32 {
    match path {
        Some(p) => match position(charts, p) {
            Some(i) => charts[i].mods,
            None => 0,
        },
        None => 0,
    }
}

impl AppData {
    /// The place of the first chart that is kept at `path`.
    pub fn find_chart_by_path(&self, path: &String) -> (found: Option<usize>)
        ensures
            match position(self@.charts, path@) {
                Some(i) => found == Some(i as usize) && 0 <= i < self.charts.len(),
                None => found is None,
            },
    {
        proof {
            paths_of(self@.charts).index_of_first_ensures(path@);
        }
        for i in 0..self.charts.len()
            invariant
                forall|k: int| 0 <= k < i ==> paths_of(self@.charts)[k] != path@,
                match position(self@.charts, path@) {
                    Some(p) => {
                        &&& 0 <= p < self.charts.len()
                        &&& paths_of(self@.charts)[p] == path@
                        &&& forall|j: int| 0 <= j < p ==> paths_of(self@.charts)[j] != path@
                    },
                    None => !paths_of(self@.charts).contains(path@),
                },
        {
            assert(paths_of(self@.charts)[i as int] == self.charts@[i as int].local_path@);
            if self.charts[i].local_path == *path {
                return Some(i);
            }
        }
        None
    }

    /// Forgets the first chart that is kept at `path`, if there is one.
    pub fn forget(&mut self, path: &String)
        ensures
            final(self)@ == (DataModel {
                charts: without(old(self)@.charts, path@),
                ..old(self)@
            }),
    {
        if let Some(i) = self.find_chart_by_path(path) {
            self.charts.remove(i);
        }
    }

    /// The modifier bits of the first chart that is kept at `path`.
    pub fn mods_at(&self, path: &Option<String>) -> (mods: i32)
        ensures
            mods == mods_at(self@.charts, text_of(*path)),
    {
        match path {
            Some(p) => match self.find_chart_by_path(p) {
                Some(i) => self.charts[i].mods,
                None => 0,
            },
            None => 0,
        }
    }
}

proof fn filter_keeps_all<A>(s: Seq<A>, keep: spec_fn(A) -> bool)
    requires
        forall|i: int| 0 <= i < s.len() ==> keep(#[trigger] s[i]),
    ensures
        s.filter(keep) == s,
    decreases s.len(),
{
    reveal(Seq::filter);
    if s.len() > 0 {
        filter_keeps_all(s.drop_last(), keep);
    }
}

proof fn filter_twice<A>(
    s: Seq<A>,
    first: spec_fn(A) -> bool,
    second: spec_fn(A) -> bool,
    both: spec_fn(A) -> bool,
)
    requires
        forall|a: A| #[trigger] both(a) == (first(a) && second(a)),
    ensures
        s.filter(first).filter(second) == s.filter(both),
    decreases s.len(),
{
    reveal(Seq::filter);
    if s.len() > 0 {
        filter_twice(s.drop_last(), first, second, both);
        let rest = s.drop_last().filter(first);
        assert(rest.push(s.last()).drop_last() =~= rest);
    }
}

proof fn filter_one<A>(a: A, keep: spec_fn(A) -> bool)
    ensures
        seq![a].filter(keep) == (if keep(a) {
            seq![a]
        } else {
            Seq::empty()
        }),
{
    reveal_with_fuel(Seq::filter, 2);
}

proof fn filter_around<A>(s: Seq<A>, i: int, keep: spec_fn(A) -> bool)
    requires
        0 <= i < s.len(),
    ensures
        s.remove(i).filter(keep) == s.take(i).filter(keep) + s.skip(i + 1).filter(keep),
        s.filter(keep) == s.take(i).filter(keep) + seq![s[i]].filter(keep) + s.skip(i + 1).filter(
            keep,
        ),
{
    Seq::filter_distributes_over_add(s.take(i), s.skip(i + 1), keep);
    assert(s =~= s.take(i) + seq![s[i]] + s.skip(i + 1));
    Seq::filter_distributes_over_add(s.take(i), seq![s[i]], keep);
    Seq::filter_distributes_over_add(s.take(i) + seq![s[i]], s.skip(i + 1), keep);
}

/// Forgetting charts leaves every chart at another path as it was, in the same
/// order, however often a path occurs.
pub proof fn others_are_kept(charts: Seq<SavedModel>, paths: Seq<Seq<char>>, other: Seq<char>)
    requires
        !paths.contains(other),
    ensures
        without_all(charts, paths).filter(|c: SavedModel| c.local_path == other) == charts.filter(
            |c: SavedModel| c.local_path == other,
        ),
    decreases paths.len(),
{
    if paths.len() > 0 {
        let keep = |c: SavedModel| c.local_path == other;
        let rest = without_all(charts, paths.drop_last());
        others_are_kept(charts, paths.drop_last(), other);
        paths_of(rest).index_of_first_ensures(paths.last());
        if let Some(i) = position(rest, paths.last()) {
            filter_around(rest, i, keep);
            filter_one(rest[i], keep);
        }
    }
}

proof fn without_is_filter(charts: Seq<SavedModel>, path: Seq<char>)
    requires
        paths_of(charts).no_duplicates(),
    ensures
        without(charts, path) == charts.filter(|c: SavedModel| c.local_path != path),
{
    let keep = |c: SavedModel| c.local_path != path;
    let paths = paths_of(charts);
    paths.index_of_first_ensures(path);
    match position(charts, path) {
        Some(i) => {
            filter_around(charts, i, keep);
            filter_one(charts[i], keep);
            assert forall|k: int| 0 <= k < charts.len() && k != i implies keep(charts[k]) by {
                assert(paths[k] == charts[k].local_path);
            }
            filter_keeps_all(charts.take(i), keep);
            filter_keeps_all(charts.skip(i + 1), keep);
        },
        None => {
            assert forall|k: int| 0 <= k < charts.len() implies keep(#[trigger] charts[k]) by {
                assert(paths[k] == charts[k].local_path);
            }
            filter_keeps_all(charts, keep);
        },
    }
}

proof fn without_stays_distinct(charts: Seq<SavedModel>, path: Seq<char>)
    requires
        paths_of(charts).no_duplicates(),
    ensures
        paths_of(without(charts, path)).no_duplicates(),
{
    let paths = paths_of(charts);
    paths.index_of_first_ensures(path);
    if let Some(i) = position(charts, path) {
        let left = paths_of(charts.remove(i));
        assert(left =~= paths.remove(i));
    }
}

/// Where no two charts on disk share a path, forgetting charts leaves exactly
/// those whose path is not listed, in the same order, and their paths still
/// differ.
pub proof fn listed_are_forgotten(charts: Seq<SavedModel>, paths: Seq<Seq<char>>)
    requires
        paths_of(charts).no_duplicates(),
    ensures
        without_all(charts, paths) == charts.filter(
            |c: SavedModel| !paths.contains(c.local_path),
        ),
        paths_of(without_all(charts, paths)).no_duplicates(),
    decreases paths.len(),
{
    let keep = |c: SavedModel| !paths.contains(c.local_path);
    if paths.len() == 0 {
        filter_keeps_all(charts, keep);
    } else {
        let fewer = paths.drop_last();
        let last = paths.last();
        let rest = without_all(charts, fewer);
        listed_are_forgotten(charts, fewer);
        without_is_filter(rest, last);
        without_stays_distinct(rest, last);
        let first = |c: SavedModel| !fewer.contains(c.local_path);
        let second = |c: SavedModel| c.local_path != last;
        assert forall|c: SavedModel| #[trigger] keep(c) == (first(c) && second(c)) by {
            let path = c.local_path;
            if paths.contains(path) {
                let k = choose|k: int| 0 <= k < paths.len() && paths[k] == path;
                if k < fewer.len() {
                    assert(fewer[k] == path);
                }
            }
        }
        filter_twice(charts, first, second, keep);
    }
}

/// Forgetting charts adds none: each path takes away one chart at most.
pub proof fn forgets_one_for_each_path(charts: Seq<SavedModel>, paths: Seq<Seq<char>>)
    ensures
        charts.len() - paths.len() <= without_all(charts, paths).len() <= charts.len(),
    decreases paths.len(),
{
    if paths.len() > 0 {
        let rest = without_all(charts, paths.drop_last());
        forgets_one_for_each_path(charts, paths.drop_last());
        paths_of(rest).index_of_first_ensures(paths.last());
    }
}

} // verus!
