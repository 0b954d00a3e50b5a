//! What holds of the view as a whole, over several of its operations.
use vstd::prelude::*;
use crate::data::{without_all, DataModel};
use crate::delete::DeleteReport;
use crate::item::{symbol_for, ItemModel};
use crate::render::{CardModel, Lines};
use crate::touch::{next_scan, phase_at, PhaseModel, RequestModel, RoomAction, Scan, ScrollHit};
use crate::view::{
    deletable_at, deletable_paths, pick_selected, selected_indices, TransitModel, ViewModel,
};

verus! {

/// What the buttons and the multiplayer panel answer while a touch is handled,
/// at each entry.
pub struct Answers {
    pub select: spec_fn(int) -> bool,
    pub tap: spec_fn(int) -> bool,
    pub in_room: spec_fn(int) -> bool,
}

impl Answers {
    /// The search for the touched entry ends at the entry `id`.
    pub open spec fn stops<T, R, S>(
        self,
        view: ViewModel<T, R, S>,
        selecting: bool,
        id: int,
    ) -> bool {
        ||| selecting && (self.select)(id)
        ||| (self.tap)(id) && view.chart_at(id) is Some && !(self.in_room)(id)
    }

    /// An entry without a chart was tapped, from the entry `from` up to `to`.
    pub open spec fn taps_special<T, R, S>(
        self,
        view: ViewModel<T, R, S>,
        from: int,
        to: int,
    ) -> bool {
        exists|id: int| from <= id < to && #[trigger] (self.tap)(id) && view.chart_at(id) is None
    }
}

impl<T, R, S> ViewModel<T, R, S> {
    /// The view and the phase that the answers lead to, up to the end of the
    /// touch or to the chart that is opened.
    pub open spec fn searched(self, phase: PhaseModel, answers: Answers, data: DataModel) -> (
        Self,
        PhaseModel,
    )
        decreases phase.rank(self.total()),
    {
        if !self.fits(phase) || self.total() > usize::MAX {
            (self, phase)
        } else {
            match phase {
                PhaseModel::Select(scan) => {
                    let (view, next) = self.after_select(scan, (answers.select)(scan.id as int));
                    view.searched(next, answers, data)
                },
                PhaseModel::Tap(scan) => {
                    let (view, next) = self.after_tap(scan, (answers.tap)(scan.id as int));
                    view.searched(next, answers, data)
                },
                PhaseModel::Room(scan) => if (answers.in_room)(scan.id as int) {
                    self.searched(self.after_room(scan, true, data).1, answers, data)
                } else {
                    (self, phase)
                },
                _ => (self, phase),
            }
        }
    }

    /// The view with a tap on the special entry noted if there was one.
    pub open spec fn noting(self, special: bool) -> Self {
        ViewModel { clicked_special: self.clicked_special || special, ..self }
    }
}

proof fn search_from<T, R, S>(
    view: ViewModel<T, R, S>,
    answers: Answers,
    data: DataModel,
    scan: Scan,
    end: int,
)
    requires
        view.total() <= usize::MAX,
        scan.id <= end <= view.total(),
        forall|id: int| scan.id <= id < end ==> !#[trigger] answers.stops(view, scan.selecting, id),
        end < view.total() ==> answers.stops(view, scan.selecting, end),
    ensures
        view.searched(phase_at(view.total(), scan), answers, data) == ({
            let noted = view.noting(answers.taps_special(view, scan.id as int, end));
            if end == view.total() {
                (noted, PhaseModel::Done(false))
            } else if scan.selecting && (answers.select)(end) {
                (noted.toggled_at(end), PhaseModel::Done(true))
            } else {
                (noted, PhaseModel::Room(Scan { id: end as usize, ..scan }))
            }
        }),
    decreases end - scan.id,
{
    reveal_with_fuel(ViewModel::searched, 4);
    let id = scan.id as int;
    if id < end {
        assert(!answers.stops(view, scan.selecting, id));
        let special = (answers.tap)(id) && view.chart_at(id) is None;
        let next = view.noting(special);
        assert forall|k: int| next_scan(scan).id <= k < end implies !#[trigger] answers.stops(
            next,
            scan.selecting,
            k,
        ) by {
            assert(!answers.stops(view, scan.selecting, k));
        }
        search_from(next, answers, data, next_scan(scan), end);
        assert(answers.taps_special(view, id, end) == (special || answers.taps_special(
            next,
            id + 1,
            end,
        )));
    }
}

/// A touch asks the entries in order. It ends at the first whose button was
/// hit in selection mode, which is toggled and nothing else with it, or at the
/// first whose chart was tapped while there is no room, which is opened; taps
/// on special entries before it are noted. Where no entry ends it, the touch is
/// left unused. Where there is a room all along, no chart is opened.
pub proof fn touch_finds_first<T, R, S>(
    view: ViewModel<T, R, S>,
    answers: Answers,
    data: DataModel,
    selecting: bool,
    end: int,
)
    requires
        view.total() <= usize::MAX,
        0 <= end <= view.total(),
        forall|id: int| 0 <= id < end ==> !#[trigger] answers.stops(view, selecting, id),
        end < view.total() ==> answers.stops(view, selecting, end),
    ensures
        view.searched(view.touched(ScrollHit::Inside, selecting), answers, data) == ({
            let noted = view.noting(answers.taps_special(view, 0, end));
            if end == view.total() {
                (noted, PhaseModel::Done(false))
            } else if selecting && (answers.select)(end) {
                (noted.toggled_at(end), PhaseModel::Done(true))
            } else {
                (noted, PhaseModel::Room(Scan { id: end as usize, selecting }))
            }
        }),
        (forall|id: int| #[trigger] (answers.in_room)(id)) ==> view.searched(
            view.touched(ScrollHit::Inside, selecting),
            answers,
            data,
        ).1 is Done,
{
    search_from(view, answers, data, Scan { id: 0, selecting }, end);
}

/// A touch, whatever is answered, leaves the entries as they are but for the
/// selection of one at most, and starts no transition by itself.
pub proof fn touch_keeps_entries<T, R, S>(
    view: ViewModel<T, R, S>,
    phase: PhaseModel,
    answers: Answers,
    data: DataModel,
)
    ensures
        ({
            let after = view.searched(phase, answers, data).0;
            &&& after == view.noting(after.clicked_special) || exists|id: int|
                after == (#[trigger] view.toggled_at(id)).noting(after.clicked_special)
            &&& after.total() == view.total()
            &&& after.transit == view.transit
            &&& after.pending_delete_paths == view.pending_delete_paths
        }),
    decreases phase.rank(view.total()),
{
    reveal_with_fuel(ViewModel::searched, 2);
    if view.fits(phase) && view.total() <= usize::MAX {
        match phase {
            PhaseModel::Select(scan) => {
                let (v, next) = view.after_select(scan, (answers.select)(scan.id as int));
                touch_keeps_entries(v, next, answers, data);
            },
            PhaseModel::Tap(scan) => {
                let (v, next) = view.after_tap(scan, (answers.tap)(scan.id as int));
                touch_keeps_entries(v, next, answers, data);
                let after = v.searched(next, answers, data).0;
                if v != view && after != v.noting(after.clicked_special) {
                    let id = choose|id: int|
                        after == (#[trigger] v.toggled_at(id)).noting(after.clicked_special);
                    assert(after == view.toggled_at(id).noting(after.clicked_special));
                }
            },
            PhaseModel::Room(scan) => {
                if (answers.in_room)(scan.id as int) {
                    touch_keeps_entries(view, view.after_room(scan, true, data).1, answers, data);
                }
            },
            _ => {},
        }
    }
}

/// A touch always ends: the rank of a phase says how many answers are needed at
/// most, it is zero exactly at the end, and every answer lowers it.
pub proof fn touch_ends<T, R, S>(
    view: ViewModel<T, R, S>,
    data: DataModel,
    phase: PhaseModel,
    answer: bool,
)
    requires
        view.total() <= usize::MAX,
        view.fits(phase),
    ensures
        ({
            let total = view.total();
            let rank = phase.rank(total);
            &&& rank >= 0
            &&& rank == 0 <==> phase is Done
            &&& match phase {
                PhaseModel::Select(scan) => view.after_select(scan, answer).1.rank(total) < rank,
                PhaseModel::Tap(scan) => view.after_tap(scan, answer).1.rank(total) < rank,
                PhaseModel::Room(scan) => view.after_room(scan, answer, data).1.rank(total) < rank,
                PhaseModel::Disk(scan, path) => view.after_disk(scan, path, answer, data).rank(
                    total,
                ) < rank,
                _ => true,
            }
        }),
{
}

proof fn picked_prefix(items: Seq<ItemModel>, n: int)
    requires
        0 <= n <= items.len(),
        items.len() <= u32::MAX + 1,
    ensures
        ({
            let picked = Seq::new(items.len(), |i: int| i).take(n).filter_map(
                pick_selected(items),
            );
            &&& forall|j: int| #![trigger picked[j]]
                0 <= j < picked.len() ==> picked[j] < n && items[picked[j] as int].selected()
            &&& forall|j: int, k: int| 0 <= j < k < picked.len() ==> picked[j] < picked[k]
            &&& forall|i: int| #![trigger items[i]]
                0 <= i < n && items[i].selected() ==> picked.contains(i as u32)
        }),
    decreases n,
{
    let places = Seq::new(items.len(), |i: int| i);
    let pick = pick_selected(items);
    if n > 0 {
        picked_prefix(items, n - 1);
        places.lemma_filter_map_take_succ(pick, n - 1);
        let before = places.take(n - 1).filter_map(pick);
        let picked = places.take(n).filter_map(pick);
        assert forall|i: int| #![trigger items[i]]
            0 <= i < n && items[i].selected() implies picked.contains(i as u32) by {
            if i < n - 1 {
                let j = choose|j: int| 0 <= j < before.len() && before[j] == i as u32;
                assert(picked[j] == i as u32);
            } else {
                assert(picked[before.len() as int] == i as u32);
            }
        }
    }
}

/// The selected places are those of the selected entries, each once, from the
/// first to the last.
pub proof fn selection_is_exact(items: Seq<ItemModel>)
    requires
        items.len() <= u32::MAX + 1,
    ensures
        ({
            let picked = selected_indices(Some(items));
            &&& forall|i: int| #![trigger items[i]]
                0 <= i < items.len() ==> (picked.contains(i as u32) <==> items[i].selected())
            &&& forall|j: int| #![trigger picked[j]]
                0 <= j < picked.len() ==> picked[j] < items.len()
            &&& forall|j: int, k: int| 0 <= j < k < picked.len() ==> picked[j] < picked[k]
        }),
{
    picked_prefix(items, items.len() as int);
    let places = Seq::new(items.len(), |i: int| i);
    assert(places.take(items.len() as int) =~= places);
}

/// Toggling an entry changes the selection by that entry alone.
pub proof fn toggling_changes_one<T, R, S>(view: ViewModel<T, R, S>, id: int, other: int)
    requires
        view.charts is Some,
        view.total() <= u32::MAX + 1,
        0 <= id < view.total(),
        0 <= other < view.total(),
    ensures
        selected_indices(view.toggled_at(id).charts).contains(other as u32) == (if other == id {
            !selected_indices(view.charts).contains(id as u32)
        } else {
            selected_indices(view.charts).contains(other as u32)
        }),
{
    let items = view.charts->0;
    let after = view.toggled_at(id).charts->0;
    selection_is_exact(items);
    selection_is_exact(after);
    assert(after[other] == (if other == id { items[id].toggled() } else { items[other] }));
}

/// Toggling an entry twice gives back the same selection, in the same order.
pub proof fn toggling_twice_keeps_selection<T, R, S>(view: ViewModel<T, R, S>, id: int)
    requires
        0 <= id < view.total(),
    ensures
        selected_indices(view.toggled_at(id).toggled_at(id).charts) == selected_indices(
            view.charts,
        ),
{
    let items = view.charts->0;
    let twice = view.toggled_at(id).toggled_at(id).charts->0;
    same_pick(Seq::new(items.len(), |i: int| i), pick_selected(items), pick_selected(twice));
}

proof fn same_pick<A, B>(s: Seq<A>, f: spec_fn(A) -> Option<B>, g: spec_fn(A) -> Option<B>)
    requires
        forall|i: int| 0 <= i < s.len() ==> f(#[trigger] s[i]) == g(s[i]),
    ensures
        s.filter_map(f) == s.filter_map(g),
    decreases s.len(),
{
    if s.len() > 0 {
        same_pick(s.drop_last(), f, g);
    }
}

proof fn filter_map_splits<A, B>(a: Seq<A>, b: Seq<A>, f: spec_fn(A) -> Option<B>)
    ensures
        (a + b).filter_map(f) == a.filter_map(f) + b.filter_map(f),
    decreases b.len(),
{
    if b.len() > 0 {
        filter_map_splits(a, b.drop_last(), f);
        assert((a + b).drop_last() =~= a + b.drop_last());
    }
}

proof fn filter_map_ignores_order<A, B>(a: Seq<A>, b: Seq<A>, f: spec_fn(A) -> Option<B>)
    requires
        a.to_multiset() == b.to_multiset(),
    ensures
        a.filter_map(f).to_multiset() == b.filter_map(f).to_multiset(),
    decreases a.len(),
{
    broadcast use vstd::seq_lib::group_to_multiset_ensures;

    vstd::seq_lib::to_multiset_len(a);
    vstd::seq_lib::to_multiset_len(b);
    if a.len() > 0 {
        let x = a.last();
        assert(b.to_multiset().count(x) > 0);
        let j = choose|j: int| 0 <= j < b.len() && b[j] == x;
        let rest = b.remove(j);
        assert(a.drop_last() =~= a.remove(a.len() - 1));
        filter_map_ignores_order(a.drop_last(), rest, f);
        let front = b.take(j);
        let back = b.skip(j + 1);
        assert(b =~= front + (seq![x] + back));
        filter_map_splits(front, back, f);
        filter_map_splits(front, seq![x] + back, f);
        filter_map_splits(seq![x], back, f);
        Seq::lemma_filter_map_singleton(x, f);
        if let Some(y) = f(x) {
            let kept = front.filter_map(f);
            let more = back.filter_map(f);
            assert(a.filter_map(f) =~= a.drop_last().filter_map(f).push(y));
            assert(b.filter_map(f) =~= (kept + more).insert(kept.len() as int, y));
        }
    }
}

/// The directories of two lists of entries, put one behind the other, are
/// those of the first and then those of the second, and so the counts of the
/// two deletions add up.
pub proof fn batches_add_up<T, R, S>(view: ViewModel<T, R, S>, a: Seq<u32>, b: Seq<u32>)
    ensures
        deletable_paths(view.charts, a + b) == deletable_paths(view.charts, a) + deletable_paths(
            view.charts,
            b,
        ),
        view.batch(a + b).0 == view.batch(a).0 + view.batch(b).0,
{
    if let Some(items) = view.charts {
        filter_map_splits(a, b, |index: u32| deletable_at(items, index));
    }
}

/// The directories that are deleted for a list of entries, and their count, do
/// not depend on the order of the list; only the order of the directories does.
pub proof fn batch_ignores_order<T, R, S>(view: ViewModel<T, R, S>, a: Seq<u32>, b: Seq<u32>)
    requires
        a.to_multiset() == b.to_multiset(),
    ensures
        deletable_paths(view.charts, a).to_multiset() == deletable_paths(
            view.charts,
            b,
        ).to_multiset(),
        view.batch(a).0 == view.batch(b).0,
{
    if let Some(items) = view.charts {
        filter_map_ignores_order(a, b, |index: u32| deletable_at(items, index));
        vstd::seq_lib::to_multiset_len(deletable_paths(view.charts, a));
        vstd::seq_lib::to_multiset_len(deletable_paths(view.charts, b));
    }
}

proof fn filter_map_finds<A, B>(s: Seq<A>, f: spec_fn(A) -> Option<B>, i: int)
    requires
        0 <= i < s.len(),
        f(s[i]) is Some,
    ensures
        s.filter_map(f).contains(f(s[i])->0),
    decreases s.len(),
{
    let out = s.filter_map(f);
    if i == s.len() - 1 {
        assert(out.last() == f(s[i])->0);
    } else {
        let rest = s.drop_last();
        filter_map_finds(rest, f, i);
        let before = rest.filter_map(f);
        let j = choose|j: int| 0 <= j < before.len() && before[j] == f(s[i])->0;
        assert(out[j] == before[j]);
    }
}

/// The entry `id` is selected and has a chart whose directory is `path`.
pub open spec fn selected_chart_is_at<T, R, S>(
    view: ViewModel<T, R, S>,
    id: int,
    path: Seq<char>,
) -> bool {
    &&& 0 <= id < view.total()
    &&& view.charts->0[id].selected()
    &&& view.chart_at(id) matches Some(chart)
    &&& chart.deletable() == path
}

/// A directory is asked to be deleted for the selected entries exactly where it
/// is the one of a selected chart.
pub proof fn deletes_the_selected<T, R, S>(view: ViewModel<T, R, S>, path: Seq<char>)
    requires
        view.total() <= u32::MAX + 1,
    ensures
        deletable_paths(view.charts, selected_indices(view.charts)).contains(path) <==> exists|id: int|
            #[trigger] selected_chart_is_at(view, id, path),
{
    if let Some(items) = view.charts {
        let picked = selected_indices(view.charts);
        let find = |index: u32| deletable_at(items, index);
        let paths = picked.filter_map(find);
        selection_is_exact(items);
        if paths.contains(path) {
            picked.lemma_filter_map_contains(find, path);
            let index = choose|index: u32|
                #[trigger] picked.contains(index) && find(index) == Some(path);
            assert(selected_chart_is_at(view, index as int, path));
        }
        if exists|id: int| #[trigger] selected_chart_is_at(view, id, path) {
            let id = choose|id: int| #[trigger] selected_chart_is_at(view, id, path);
            let j = choose|j: int| 0 <= j < picked.len() && picked[j] == id as u32;
            filter_map_finds(picked, find, j);
        }
    }
}

/// The task is handed the directories that become pending, all of them and in
/// the same order, and it is told how many there are.
pub proof fn task_is_handed_what_is_pending<T, R, S>(view: ViewModel<T, R, S>, indices: Seq<u32>)
    ensures
        ({
            let (count, job) = view.batch(indices);
            &&& count == (match job {
                Some(paths) => paths.len(),
                None => 0,
            })
            &&& job is Some ==> view.deleting(indices).pending_delete_paths == job
            &&& job is None ==> view.deleting(indices) == view
        }),
{
}

/// A chart is opened from the directory that its deletion would remove: its
/// local path without a look at the disk, else its download if that is on disk.
pub proof fn opens_what_is_deletable<T, R, S>(
    view: ViewModel<T, R, S>,
    scan: Scan,
    data: DataModel,
    exists_on_disk: bool,
)
    requires
        view.chart_at(scan.id as int) matches Some(chart) && chart.openable(),
    ensures
        ({
            let path = view.chart_at(scan.id as int)->0.deletable();
            let request = view.request(scan.id as int, Some(path), data);
            match view.after_room(scan, false, data).1 {
                PhaseModel::Open(s, r) => s == scan && r == request,
                PhaseModel::Disk(s, p) => {
                    &&& s == scan
                    &&& p == path
                    &&& view.after_disk(scan, p, exists_on_disk, data) == PhaseModel::Open(
                        scan,
                        if exists_on_disk {
                            request
                        } else {
                            RequestModel { local_path: None, ..request }
                        },
                    )
                },
                _ => false,
            }
        }),
{
}

/// A wish for the list to be read again is granted once.
pub proof fn update_is_asked_once(data: DataModel)
    ensures
        !data.asked().need_update,
        data.asked().asked() == data.asked(),
        data.asked().charts == data.charts,
{
}

/// What happens to the view between two touches: an update, with what is handed
/// to it, or the scene being asked for.
pub enum Step<T, E> {
    Update { t: T, over: bool, polled: Option<Result<usize, E>> },
    Take,
}

impl<T, E> Step<T, E> {
    /// The time of the transition is up at this step.
    pub open spec fn ends_transition(self) -> bool {
        self matches Step::Update { over, .. } && over
    }
}

/// The time of the transition is up at one of the steps.
pub open spec fn arrives<T, E>(steps: Seq<Step<T, E>>) -> bool {
    exists|i: int| 0 <= i < steps.len() && #[trigger] steps[i].ends_transition()
}

/// The scene is asked for at one of the steps, behind one at which the time of
/// the transition is up.
pub open spec fn asked_after_arrival<T, E>(steps: Seq<Step<T, E>>) -> bool {
    exists|j: int|
        0 <= j < steps.len() && #[trigger] steps[j] is Take && arrives(steps.take(j))
}

impl<T, R, S> ViewModel<T, R, S> {
    /// The view after one step.
    pub open spec fn stepped<E>(self, step: Step<T, E>) -> Self {
        match step {
            Step::Update { t, over, polled } => self.settled(polled).advanced(t, over),
            Step::Take => self.scene_taken(),
        }
    }

    /// The view after all of the steps.
    pub open spec fn stepped_all<E>(self, steps: Seq<Step<T, E>>) -> Self
        decreases steps.len(),
    {
        if steps.len() == 0 {
            self
        } else {
            self.stepped_all(steps.drop_last()).stepped(steps.last())
        }
    }

    /// The scenes that are handed out during the steps.
    pub open spec fn handed<E>(self, steps: Seq<Step<T, E>>) -> Seq<S>
        decreases steps.len(),
    {
        if steps.len() == 0 {
            Seq::empty()
        } else {
            let before = self.handed(steps.drop_last());
            match (steps.last(), self.stepped_all(steps.drop_last()).scene()) {
                (Step::Take, Some(scene)) => before.push(scene),
                _ => before,
            }
        }
    }
}

proof fn arrival_of_last<T, E>(steps: Seq<Step<T, E>>)
    requires
        steps.len() > 0,
    ensures
        arrives(steps) == (arrives(steps.drop_last()) || steps.last().ends_transition()),
        asked_after_arrival(steps) == (asked_after_arrival(steps.drop_last()) || (
        steps.last() is Take && arrives(steps.drop_last()))),
{
    let front = steps.drop_last();
    let n = front.len() as int;
    assert(front.take(n) =~= front);
    if arrives(steps) {
        let i = choose|i: int| 0 <= i <= n && #[trigger] steps[i].ends_transition();
        if i < n {
            assert(front[i].ends_transition());
        }
    }
    if asked_after_arrival(steps) {
        let j = choose|j: int|
            0 <= j <= n && #[trigger] steps[j] is Take && arrives(steps.take(j));
        if j < n {
            assert(front[j] is Take && arrives(front.take(j)));
        }
    }
}

/// Whatever updates and askings follow each other, an opened chart hands out
/// its scene exactly once, at the first asking behind an update at which the
/// time of the transition is up, and not at all where there is no such asking;
/// until it is left, the transition stays.
pub proof fn scene_is_taken_once<T, R, S, E>(
    view: ViewModel<T, R, S>,
    scan: Scan,
    start: T,
    scene: S,
    steps: Seq<Step<T, E>>,
)
    ensures
        ({
            let opened = view.opened(scan, start, scene);
            &&& opened.handed(steps) == (if asked_after_arrival(steps) {
                seq![scene]
            } else {
                Seq::empty()
            })
            &&& opened.stepped_all(steps).transit == Some(
                TransitModel {
                    done: arrives(steps),
                    next_scene: if asked_after_arrival(steps) {
                        None
                    } else {
                        Some(scene)
                    },
                    ..opened.transit->0
                },
            )
        }),
    decreases steps.len(),
{
    if steps.len() > 0 {
        scene_is_taken_once(view, scan, start, scene, steps.drop_last());
        arrival_of_last(steps);
    }
}

/// Once the chart was left, no scene is handed out, whatever updates and
/// askings follow each other.
pub proof fn no_scene_on_the_way_back<T, R, S, E>(
    view: ViewModel<T, R, S>,
    leaving: T,
    delete: bool,
    steps: Seq<Step<T, E>>,
)
    ensures
        view.returning(leaving, delete).handed(steps) == Seq::<S>::empty(),
        view.returning(leaving, delete).stepped_all(steps).scene() is None,
{
    way_back_stays(view, leaving, delete, steps);
}

proof fn way_back_stays<T, R, S, E>(
    view: ViewModel<T, R, S>,
    leaving: T,
    delete: bool,
    steps: Seq<Step<T, E>>,
)
    ensures
        view.returning(leaving, delete).handed(steps) == Seq::<S>::empty(),
        view.returning(leaving, delete).stepped_all(steps).transit matches Some(transit)
            ==> transit.back && !transit.done,
    decreases steps.len(),
{
    if steps.len() > 0 {
        way_back_stays(view, leaving, delete, steps.drop_last());
    }
}

impl<T, R, S> ViewModel<T, R, S> {
    /// The view after the cards of the first entries were placed, one after the
    /// other, that of the entry `id` at `rects[id]`.
    pub open spec fn placed_all(self, rects: Seq<R>) -> Self
        decreases rects.len(),
    {
        if rects.len() == 0 {
            self
        } else {
            self.placed_all(rects.drop_last()).placed((rects.len() - 1) as u32, rects.last())
        }
    }
}

/// A pass over the grid that places the card of each entry gives the transition
/// the place of its own card, if that is among them, and changes nothing else.
pub proof fn grid_places_transit<T, R, S>(view: ViewModel<T, R, S>, rects: Seq<R>)
    requires
        rects.len() <= u32::MAX + 1,
    ensures
        view.placed_all(rects) == (match view.transit {
            Some(transit) => if transit.id < rects.len() {
                ViewModel {
                    transit: Some(
                        TransitModel { rect: Some(rects[transit.id as int]), ..transit },
                    ),
                    ..view
                }
            } else {
                view
            },
            None => view,
        }),
    decreases rects.len(),
{
    if rects.len() > 0 {
        grid_places_transit(view, rects.drop_last());
    }
}

/// A chart that is left without being deleted brings the view back to where it
/// was before it was opened, without a transition and with its entry fading in
/// since the end of the way back.
pub proof fn leaving_fades_in<T, R, S>(
    view: ViewModel<T, R, S>,
    scan: Scan,
    start: T,
    arrival: T,
    leaving: T,
    end: T,
    scene: S,
)
    ensures
        view.opened(scan, start, scene).advanced(arrival, true).scene_taken().returning(
            leaving,
            false,
        ).advanced(end, true) == (ViewModel {
            transit: None,
            back_fade_in: Some((scan.id as u32, end)),
            ..view
        }),
{
}

/// A chart that is left to be deleted, with the deletion confirmed, has its
/// directory removed: that directory alone becomes pending, the confirmation
/// is used up, and once the task has succeeded the chart is forgotten and the
/// list is to be read again.
pub proof fn leaving_deletes<T, R, S, E>(
    view: ViewModel<T, R, S>,
    data: DataModel,
    scan: Scan,
    start: T,
    arrival: T,
    leaving: T,
    end: T,
    scene: S,
    count: usize,
)
    requires
        view.ensure_delete,
        view.total() <= u32::MAX + 1,
        view.chart_at(scan.id as int) is Some,
        count > 0,
    ensures
        ({
            let path = view.chart_at(scan.id as int)->0.deletable();
            let back = view.opened(scan, start, scene).advanced(arrival, true).returning(
                leaving,
                true,
            );
            let deleting = back.advanced(end, true);
            let polled = Some(Ok::<usize, E>(count));
            &&& back.deletes(true) == Some(scan.id as u32)
            &&& back.batch(seq![scan.id as u32]) == (1nat, Some(seq![path]))
            &&& deleting == (ViewModel {
                transit: None,
                ensure_delete: false,
                delete_task: true,
                pending_delete_paths: Some(seq![path]),
                ..view
            })
            &&& deleting.settled(polled) == (ViewModel {
                transit: None,
                ensure_delete: false,
                delete_task: true,
                pending_delete_paths: None,
                ..view
            })
            &&& deleting.settled_data(data, polled) == (DataModel {
                charts: without_all(data.charts, seq![path]),
                need_update: true,
            })
        }),
{
    if let Some(items) = view.charts {
        let id = scan.id as u32;
        let find = |index: u32| deletable_at(items, index);
        Seq::lemma_filter_map_singleton(id, find);
    }
}

/// Without the confirmation nothing is deleted: leaving the chart only ends the
/// transition.
pub proof fn unconfirmed_deletes_nothing<T, R, S>(view: ViewModel<T, R, S>, leaving: T, end: T)
    requires
        !view.ensure_delete,
    ensures
        view.returning(leaving, true).deletes(true) is None,
        view.returning(leaving, true).advanced(end, true) == (ViewModel { transit: None, ..view }),
{
}

/// The result of a deletion is taken up once: asking the task again, whatever
/// it answers, forgets no chart and wakes no update.
pub proof fn deletion_settles_once<T, R, S, E>(
    view: ViewModel<T, R, S>,
    data: DataModel,
    first: Result<usize, E>,
    again: Option<Result<usize, E>>,
)
    requires
        view.delete_task,
    ensures
        view.settled(Some(first)).settled(again) == view.settled(Some(first)),
        view.settled(Some(first)).settled_data(data, again) == data,
{
}

/// A deletion that failed forgets no chart.
pub proof fn failed_deletion_forgets_nothing<T, R, S, E>(
    view: ViewModel<T, R, S>,
    data: DataModel,
    error: E,
)
    ensures
        view.settled_data(data, Some(Err::<usize, E>(error))) == data,
{
}

/// Every operation keeps the view well formed.
pub proof fn operations_keep_wf<T, R, S, E>(
    view: ViewModel<T, R, S>,
    indices: Seq<u32>,
    polled: Option<Result<usize, E>>,
    scan: Scan,
    lines: Lines,
    rect: R,
    t: T,
    scene: S,
    id: u32,
    flag: bool,
)
    requires
        view.wf(),
    ensures
        ViewModel::<T, R, S>::initial().wf(),
        view.deleting(indices).wf(),
        view.settled(polled).wf(),
        view.advanced(t, flag).wf(),
        view.returning(t, flag).wf(),
        view.scene_taken().wf(),
        view.opened(scan, t, scene).wf(),
        view.toggled_at(id as int).wf(),
        view.rendered(lines, flag).wf(),
        view.placed(id, rect).wf(),
{
}

/// A later end line, as a taller viewport has it, draws no less: the range that
/// is drawn starts at the same entry and ends no earlier.
pub proof fn taller_draws_no_less<T, R, S>(
    view: ViewModel<T, R, S>,
    first: nat,
    last: nat,
    later: nat,
    id: int,
)
    requires
        last <= later,
    ensures
        ({
            let short = Lines { first, last };
            let tall = Lines { first, last: later };
            &&& view.range_start(short) == view.range_start(tall)
            &&& view.range_end(short) <= view.range_end(tall)
            &&& view.drawn(short, id) ==> view.drawn(tall, id)
        }),
{
    let n = view.row_num as int;
    assert((last + 1) * n <= (later + 1) * n) by (nonlinear_arith)
        requires
            last <= later,
            n >= 0,
    ;
}

/// An entry is drawn exactly where its line is one of the given ones.
pub proof fn draws_visible_lines<T, R, S>(view: ViewModel<T, R, S>, lines: Lines, id: int)
    requires
        view.row_num > 0,
        id >= 0,
    ensures
        view.drawn(lines, id) <==> lines.first <= id / view.row_num as int <= lines.last,
{
    let n = view.row_num as int;
    let first = lines.first as int;
    let last = lines.last as int;
    let line = id / n;
    assert(n * line <= id < n * (line + 1)) by (nonlinear_arith)
        requires
            n > 0,
            id >= 0,
            line == id / n,
    ;
    assert(first * n <= id <==> first <= line) by (nonlinear_arith)
        requires
            n > 0,
            n * line <= id < n * (line + 1),
    ;
    assert(id < (last + 1) * n <==> line <= last) by (nonlinear_arith)
        requires
            n > 0,
            n * line <= id < n * (line + 1),
    ;
}

/// Only the entry that the way back ended at fades in, and it does so until its
/// time is up.
pub proof fn only_one_entry_fades<T, R, S>(
    view: ViewModel<T, R, S>,
    items: Seq<ItemModel>,
    lines: Lines,
    id: u32,
    since: T,
    other: int,
)
    requires
        view.back_fade_in == Some((id, since)),
        other != id,
    ensures
        view.card(items, lines, true, id as int) matches CardModel::Chart { fade, .. } ==> fade
            is None,
        view.card(items, lines, false, id as int) matches CardModel::Chart { fade, .. } ==> fade
            == Some(since),
        view.card(items, lines, false, other) matches CardModel::Chart { fade, .. } ==> fade is None,
{
}

/// In a room a chart is chosen by its id and by nothing else: where it has one,
/// that is told to the panel, on disk or not, and it is refused exactly where it
/// has none.
pub proof fn room_goes_by_id<T, R, S>(view: ViewModel<T, R, S>, scan: Scan, data: DataModel)
    requires
        view.chart_at(scan.id as int) is Some,
    ensures
        ({
            let chart = view.chart_at(scan.id as int)->0;
            let told = view.after_room(scan, true, data).0;
            &&& chart.info.id matches Some(id) ==> told == RoomAction::SelectChart(id)
            &&& told == RoomAction::RefuseLocal <==> chart.info.id is None
        }),
{
}

/// A touch that the scrolling area took, or that missed it, asks no entry: it
/// ends at once, in selection mode or not, used up just where the area took it.
pub proof fn scrolling_asks_no_entry<T, R, S>(
    view: ViewModel<T, R, S>,
    hit: ScrollHit,
    selecting: bool,
)
    requires
        hit != ScrollHit::Inside,
    ensures
        view.touched(hit, selecting) == PhaseModel::Done(hit == ScrollHit::Handled),
{
}

/// While the time of a transition is not up and the deletion task has nothing to
/// report, an update leaves the view as it is and starts no deletion.
pub proof fn waiting_changes_nothing<T, R, S, E>(view: ViewModel<T, R, S>, t: T)
    ensures
        view.settled(None::<Result<usize, E>>).advanced(t, false) == view,
        view.advanced(t, false) == view,
        view.deletes(false) is None,
{
}

/// The card of a drawn chart carries the entry's own mark and the chart's own
/// name, whatever else the view shows, and whether or not the entry is selected
/// or fades in.
pub proof fn card_shows_its_entry<T, R, S>(
    view: ViewModel<T, R, S>,
    items: Seq<ItemModel>,
    lines: Lines,
    over: bool,
    id: int,
)
    requires
        view.drawn(lines, id),
        items[id].chart is Some,
    ensures
        view.card(items, lines, over, id) matches CardModel::Chart { name, symbol, .. } && name
            == items[id].chart->0.info.name && symbol == items[id].symbol,
{
}

/// The mark of a listed chart is a plus exactly while it asks to be made stable,
/// an asterisk exactly while it is neither that nor reviewed, and else none.
pub proof fn marks_tell_apart(stable_request: bool, reviewed: bool)
    ensures
        symbol_for(stable_request, reviewed) == Some('+') <==> stable_request,
        symbol_for(stable_request, reviewed) == Some('*') <==> !stable_request && !reviewed,
        symbol_for(stable_request, reviewed) is None <==> !stable_request && reviewed,
{
}

/// The data are saved exactly after a task with pending paths has ended and
/// deleted any chart, however many of the paths that were.
pub proof fn deletions_are_saved<T, R, S, E>(
    view: ViewModel<T, R, S>,
    polled: Option<Result<usize, E>>,
    report: DeleteReport<E>,
)
    requires
        view.reports(polled, report),
    ensures
        report.save <==> view.delete_task && view.pending_delete_paths is Some && (
        polled matches Some(Ok(count)) && count > 0),
{
}

} // verus!
