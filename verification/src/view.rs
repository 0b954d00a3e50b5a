//! The list itself: its entries, the transition to and from an opened chart,
//! and the deletion that is under way.
use vstd::prelude::*;
use crate::data::{without_all, AppData, DataModel};
use crate::delete::{copy_paths, texts, texts_of, DeleteBatch, DeleteReport};
use crate::item::{ChartDisplayItem, ChartItem, ChartModel, ItemModel};
use crate::text::deleted_message;

verus! {

/// The transition to the chart that was opened, or, with `back`, from it back
/// to the list. `T` is a reading of the clock, `R` a rectangle on the screen
/// and `S` a scene; they are carried here and never looked into.
///
/// `done` says that the opened chart fills the screen, so that `next_scene` may
/// be taken; `delete` that the chart is to be deleted at the end of the way
/// back.
#[derive(Debug)]
pub struct TransitState<T, R, S> {
    pub id: u32,
    pub rect: Option<R>,
    pub chart: ChartItem,
    pub start_time: T,
    pub next_scene: Option<S>,
    pub back: bool,
    pub done: bool,
    pub delete: bool,
}

/// The model of a [`TransitState`].
pub struct TransitModel<T, R, S> {
    pub id: u32,
    pub rect: Option<R>,
    pub chart: ChartModel,
    pub start_time: T,
    pub next_scene: Option<S>,
    pub back: bool,
    pub done: bool,
    pub delete: bool,
}

impl<T, R, S> View for TransitState<T, R, S> {
    type V = TransitModel<T, R, S>;

    open spec fn view(&self) -> TransitModel<T, R, S> {
        TransitModel {
            id: self.id,
            rect: self.rect,
            chart: self.chart@,
            start_time: self.start_time,
            next_scene: self.next_scene,
            back: self.back,
            done: self.done,
            delete: self.delete,
        }
    }
}

impl<T, R, S> TransitModel<T, R, S> {
    /// The way back is never done, only the way back ends in a deletion, and
    /// the scene is there until it was taken.
    pub open spec fn wf(self) -> bool {
        &&& !(self.back && self.done)
        &&& self.delete ==> self.back
        &&& self.next_scene is None ==> self.back || self.done
    }
}

/// A grid of charts. `charts` is missing while the list is loading;
/// `delete_task` says that a task was started that removes the directories in
/// `pending_delete_paths`; `back_fade_in` names the entry that fades in since
/// the given time.
#[derive(Debug)]
pub struct ChartsView<T, R, S> {
    pub back_fade_in: Option<(u32, T)>,
    pub transit: Option<TransitState<T, R, S>>,
    pub charts: Option<Vec<ChartDisplayItem>>,
    pub row_num: u32,
    pub can_refresh: bool,
    pub clicked_special: bool,
    pub ensure_delete: bool,
    pub delete_task: bool,
    pub pending_delete_paths: Option<Vec<String>>,
}

/// The model of a [`ChartsView`].
#[verifier::ext_equal]
pub struct ViewModel<T, R, S> {
    pub back_fade_in: Option<(u32, T)>,
    pub transit: Option<TransitModel<T, R, S>>,
    pub charts: Option<Seq<ItemModel>>,
    pub row_num: u32,
    pub can_refresh: bool,
    pub clicked_special: bool,
    pub ensure_delete: bool,
    pub delete_task: bool,
    pub pending_delete_paths: Option<Seq<Seq<char>>>,
}

/// The models of a list of entries.
pub open spec fn item_models(items: Seq<ChartDisplayItem>) -> Seq<ItemModel> {
    items.map_values(|item: ChartDisplayItem| item@)
}

/// The models of a list of entries that may be missing.
pub open spec fn items_of(items: Option<Vec<ChartDisplayItem>>) -> Option<Seq<ItemModel>> {
    match items {
        Some(list) => Some(item_models(list@)),
        None => None,
    }
}

/// The model of a transition that may be missing.
pub open spec fn transit_of<T, R, S>(transit: Option<TransitState<T, R, S>>) -> Option<
    TransitModel<T, R, S>,
> {
    match transit {
        Some(state) => Some(state@),
        None => None,
    }
}

impl<T, R, S> View for ChartsView<T, R, S> {
    type V = ViewModel<T, R, S>;

    open spec fn view(&self) -> ViewModel<T, R, S> {
        ViewModel {
            back_fade_in: self.back_fade_in,
            transit: transit_of(self.transit),
            charts: items_of(self.charts),
            row_num: self.row_num,
            can_refresh: self.can_refresh,
            clicked_special: self.clicked_special,
            ensure_delete: self.ensure_delete,
            delete_task: self.delete_task,
            pending_delete_paths: texts_of(self.pending_delete_paths),
        }
    }
}

/// The directory that is deleted for the entry `index`; none where there is no
/// such entry or it has no chart.
pub open spec fn deletable_at(items: Seq<ItemModel>, index: u32) -> Option<Seq<char>> {
    if index < items.len() {
        match items[index as int].chart {
            Some(chart) => Some(chart.deletable()),
            None => None,
        }
    } else {
        None
    }
}

/// The directories that are deleted for the entries `indices`, in that order.
pub open spec fn deletable_paths(charts: Option<Seq<ItemModel>>, indices: Seq<u32>) -> Seq<
    Seq<char>,
> {
    match charts {
        Some(items) => indices.filter_map(|index: u32| deletable_at(items, index)),
        None => Seq::empty(),
    }
}

/// Picks the places of the selected entries of `items`.
pub open spec fn pick_selected(items: Seq<ItemModel>) -> spec_fn(int) -> Option<u32> {
    |i: int|
        if items[i].selected() {
            Some(i as u32)
        } else {
            None
        }
}

/// The places of the selected entries, in ascending order.
pub open spec fn selected_indices(charts: Option<Seq<ItemModel>>) -> Seq<u32> {
    match charts {
        Some(items) => Seq::new(items.len(), |i: int| i).filter_map(pick_selected(items)),
        None => Seq::empty(),
    }
}

impl<T, R, S> ViewModel<T, R, S> {
    /// The view before anything has happened to it.
    pub open spec fn initial() -> Self {
        ViewModel {
            back_fade_in: None,
            transit: None,
            charts: None,
            row_num: 4,
            can_refresh: true,
            clicked_special: false,
            ensure_delete: false,
            delete_task: false,
            pending_delete_paths: None,
        }
    }

    /// The transition is well formed, and paths are pending only while a task
    /// is there to remove them, and then at least one.
    pub open spec fn wf(self) -> bool {
        &&& self.transit matches Some(transit) ==> transit.wf()
        &&& self.pending_delete_paths matches Some(paths) ==> self.delete_task && paths.len() > 0
    }

    /// The view after the deletion of the entries `indices` was asked for.
    pub open spec fn deleting(self, indices: Seq<u32>) -> Self {
        let paths = deletable_paths(self.charts, indices);
        if paths.len() == 0 {
            self
        } else {
            ViewModel { delete_task: true, pending_delete_paths: Some(paths), ..self }
        }
    }

    /// What the deletion of the entries `indices` hands to the task.
    pub open spec fn batch(self, indices: Seq<u32>) -> (nat, Option<Seq<Seq<char>>>) {
        let paths = deletable_paths(self.charts, indices);
        (
            paths.len(),
            if paths.len() == 0 {
                None
            } else {
                Some(paths)
            },
        )
    }

    /// The view after the task was asked for its result.
    pub open spec fn settled<E>(self, polled: Option<Result<usize, E>>) -> Self {
        if self.delete_task && polled is Some {
            ViewModel { pending_delete_paths: None, ..self }
        } else {
            self
        }
    }

    /// The data after the task was asked for its result: where it succeeded,
    /// the pending charts are forgotten, and the list has to be read again if
    /// any directory is gone.
    pub open spec fn settled_data<E>(
        self,
        data: DataModel,
        polled: Option<Result<usize, E>>,
    ) -> DataModel {
        match (self.delete_task, polled, self.pending_delete_paths) {
            (true, Some(Ok(count)), Some(paths)) => DataModel {
                charts: without_all(data.charts, paths),
                need_update: data.need_update || count > 0,
            },
            _ => data,
        }
    }

    /// What is reported after the task was asked for its result.
    pub open spec fn reports<E>(
        self,
        polled: Option<Result<usize, E>>,
        report: DeleteReport<E>,
    ) -> bool {
        match (self.delete_task, polled) {
            (true, Some(Ok(count))) => if self.pending_delete_paths is Some && count > 0 {
                report.tells_deleted(count as nat)
            } else {
                report.silent()
            },
            (true, Some(Err(e))) => report.tells_failed(e),
            _ => report.silent(),
        }
    }

    /// The transition at the time `t`, `over` saying whether its time is up:
    /// the way to the chart is done then, and the way back ends in the
    /// deletion, if that is confirmed, or with the entry fading in.
    pub open spec fn advanced(self, t: T, over: bool) -> Self {
        match self.transit {
            Some(transit) => if !over {
                self
            } else if !transit.back {
                ViewModel { transit: Some(TransitModel { done: true, ..transit }), ..self }
            } else if !transit.delete {
                ViewModel { transit: None, back_fade_in: Some((transit.id, t)), ..self }
            } else if self.ensure_delete {
                ViewModel { transit: None, ensure_delete: false, ..self.deleting(seq![transit.id]) }
            } else {
                ViewModel { transit: None, ..self }
            },
            None => self,
        }
    }

    /// The view after the opened chart was left at the time `t`.
    pub open spec fn returning(self, t: T, delete: bool) -> Self {
        match self.transit {
            Some(transit) => ViewModel {
                transit: Some(
                    TransitModel { start_time: t, back: true, done: false, delete, ..transit },
                ),
                ..self
            },
            None => self,
        }
    }

    /// The scene that may be taken.
    pub open spec fn scene(self) -> Option<S> {
        match self.transit {
            Some(transit) => if transit.done {
                transit.next_scene
            } else {
                None
            },
            None => None,
        }
    }

    /// The view after the scene was taken.
    pub open spec fn scene_taken(self) -> Self {
        match self.transit {
            Some(transit) => if transit.done {
                ViewModel { transit: Some(TransitModel { next_scene: None, ..transit }), ..self }
            } else {
                self
            },
            None => self,
        }
    }

    /// The entry that is deleted when the transition advances.
    pub open spec fn deletes(self, over: bool) -> Option<u32> {
        match self.transit {
            Some(transit) => if over && transit.back && transit.delete && self.ensure_delete {
                Some(transit.id)
            } else {
                None
            },
            None => None,
        }
    }
}

/// `batch` is about the paths `about`.
pub open spec fn batch_is(batch: DeleteBatch, about: (nat, Option<Seq<Seq<char>>>)) -> bool {
    &&& batch.count == about.0
    &&& texts_of(batch.job) == about.1
}

/// What an update asks for: whether the list is to be read again because it
/// was pulled, what to tell about the last deletion, and the deletion to start.
#[derive(Debug, PartialEq, Eq)]
pub struct UpdateOutcome<E> {
    pub refreshed: bool,
    pub report: DeleteReport<E>,
    pub batch: DeleteBatch,
}

impl<T: Copy, R: Copy, S> ChartsView<T, R, S> {
    /// An empty view that is loading.
    pub fn new() -> (view: Self)
        ensures
            view@ == ViewModel::<T, R, S>::initial(),
            view@.wf(),
    {
        ChartsView {
            back_fade_in: None,
            transit: None,
            charts: None,
            row_num: 4,
            can_refresh: true,
            clicked_special: false,
            ensure_delete: false,
            delete_task: false,
            pending_delete_paths: None,
        }
    }

    /// Drops the entries: the list is loading.
    pub fn clear(&mut self)
        ensures
            final(self)@ == (ViewModel { charts: None, ..old(self)@ }),
            old(self)@.wf() ==> final(self)@.wf(),
    {
        self.charts = None;
    }

    /// Shows `charts`.
    pub fn set(&mut self, charts: Vec<ChartDisplayItem>)
        ensures
            final(self)@ == (ViewModel { charts: Some(item_models(charts@)), ..old(self)@ }),
            old(self)@.wf() ==> final(self)@.wf(),
    {
        self.charts = Some(charts);
    }

    /// Whether a transition is under way or an opened chart is on the screen.
    pub fn transiting(&self) -> (yes: bool)
        ensures
            yes == self@.transit is Some,
    {
        self.transit.is_some()
    }

    /// The opened chart was left at the time `t`: starts the way back, which
    /// ends in its deletion where `delete` is set.
    pub fn on_result(&mut self, t: T, delete: bool)
        ensures
            final(self)@ == old(self)@.returning(t, delete),
            old(self)@.wf() ==> final(self)@.wf(),
    {
        if let Some(transit) = &mut self.transit {
            transit.start_time = t;
            transit.back = true;
            transit.done = false;
            transit.delete = delete;
        }
    }

    /// Whether the list has to be read again; asking withdraws the wish.
    pub fn need_update(&self, data: &mut AppData) -> (needed: bool)
        ensures
            needed == old(data)@.need_update,
            final(data)@ == old(data)@.asked(),
    {
        let needed = data.need_update;
        data.need_update = false;
        needed
    }

    /// Asks for the directories of the entries `indices` to be deleted. They
    /// replace what was pending; where there are none, nothing changes.
    pub fn delete_charts_batch(&mut self, indices: Vec<u32>) -> (batch: DeleteBatch)
        ensures
            final(self)@ == old(self)@.deleting(indices@),
            batch_is(batch, old(self)@.batch(indices@)),
            old(self)@.wf() ==> final(self)@.wf(),
    {
        let mut paths: Vec<String> = Vec::new();
        if let Some(charts) = &self.charts {
            let ghost items = item_models(charts@);
            for k in 0..indices.len()
                invariant
                    items == item_models(charts@),
                    texts(paths@) == deletable_paths(Some(items), indices@.take(k as int)),
            {
                let index: usize = indices[k] as usize;
                assert(indices@.take(k + 1).drop_last() =~= indices@.take(k as int));
                if index < charts.len() {
                    if let Some(chart) = &charts[index].chart {
                        let path = chart.deletable();
                        paths.push(path);
                    }
                }
            }
            assert(indices@.take(indices.len() as int) =~= indices@);
        }
        if paths.len() == 0 {
            return DeleteBatch { count: 0, job: None };
        }
        let count: usize = paths.len();
        let job = copy_paths(&paths);
        self.pending_delete_paths = Some(paths);
        self.delete_task = true;
        DeleteBatch { count, job: Some(job) }
    }

    /// The places of the selected entries.
    pub fn get_selected_indices(&self) -> (indices: Vec<u32>)
        ensures
            indices@ == selected_indices(self@.charts),
    {
        let mut indices: Vec<u32> = Vec::new();
        if let Some(charts) = &self.charts {
            let ghost items = item_models(charts@);
            let ghost places = Seq::new(items.len(), |i: int| i);
            for k in 0..charts.len()
                invariant
                    items == item_models(charts@),
                    places == Seq::new(items.len(), |i: int| i),
                    indices@ == places.take(k as int).filter_map(pick_selected(items)),
            {
                assert(places.take(k + 1).drop_last() =~= places.take(k as int));
                if charts[k].selected() {
                    indices.push(k as u32);
                }
            }
            assert(places.take(charts.len() as int) =~= places);
        }
        indices
    }

    /// Takes up the result of the deletion task, `polled` being what the task
    /// gave back, if it has ended since it was last asked.
    pub fn process_delete_task<E>(
        &mut self,
        data: &mut AppData,
        polled: Option<Result<usize, E>>,
    ) -> (report: DeleteReport<E>)
        ensures
            final(self)@ == old(self)@.settled(polled),
            final(data)@ == old(self)@.settled_data(old(data)@, polled),
            old(self)@.reports(polled, report),
            old(self)@.wf() ==> final(self)@.wf(),
    {
        let mut report = DeleteReport { save: false, message: None, error: None };
        if self.delete_task {
            match polled {
                Some(Ok(count)) => {
                    if let Some(paths) = self.pending_delete_paths.take() {
                        for k in 0..paths.len()
                            invariant
                                data@ == (DataModel {
                                    charts: without_all(
                                        old(data)@.charts,
                                        texts(paths@).take(k as int),
                                    ),
                                    ..old(data)@
                                }),
                        {
                            data.forget(&paths[k]);
                            assert(texts(paths@).take(k + 1).drop_last() =~= texts(paths@).take(
                                k as int,
                            ));
                        }
                        assert(texts(paths@).take(paths.len() as int) =~= texts(paths@));
                        if count > 0 {
                            data.need_update = true;
                            report.save = true;
                            report.message = Some(deleted_message(count));
                        }
                    }
                },
                Some(Err(e)) => {
                    report.error = Some(e);
                    self.pending_delete_paths = None;
                },
                None => {},
            }
        }
        report
    }

    /// Confirms the deletion at the end of the way back, or withdraws that.
    pub fn check_delete(&mut self, v: bool)
        ensures
            final(self)@ == (ViewModel { ensure_delete: v, ..old(self)@ }),
            old(self)@.wf() ==> final(self)@.wf(),
    {
        self.ensure_delete = v;
    }

    /// Moves the view on to the time `t`. `transit_over` says that more than
    /// the time of a transition has passed since the one under way started,
    /// `pulled` that the list was pulled down to be refreshed, and `polled` is
    /// the result of the deletion task, if it has ended.
    pub fn update<E>(
        &mut self,
        t: T,
        transit_over: bool,
        pulled: bool,
        data: &mut AppData,
        polled: Option<Result<usize, E>>,
    ) -> (outcome: UpdateOutcome<E>)
        ensures
            final(self)@ == old(self)@.settled(polled).advanced(t, transit_over),
            final(data)@ == old(self)@.settled_data(old(data)@, polled),
            outcome.refreshed == (old(self)@.can_refresh && pulled),
            old(self)@.reports(polled, outcome.report),
            batch_is(
                outcome.batch,
                match old(self)@.deletes(transit_over) {
                    Some(id) => old(self)@.batch(seq![id]),
                    None => (0, None),
                },
            ),
            old(self)@.wf() ==> final(self)@.wf(),
    {
        let report = self.process_delete_task(data, polled);
        let refreshed = self.can_refresh && pulled;
        let mut do_delete: Option<u32> = None;
        let mut do_back: Option<u32> = None;
        let mut clear_transit = false;
        if let Some(transit) = &mut self.transit {
            if transit_over {
                if transit.back {
                    if transit.delete {
                        do_delete = Some(transit.id);
                    } else {
                        do_back = Some(transit.id);
                    }
                    clear_transit = true;
                } else {
                    transit.done = true;
                }
            }
        }
        let mut batch = DeleteBatch { count: 0, job: None };
        if let Some(id) = do_delete {
            if self.ensure_delete {
                let mut indices: Vec<u32> = Vec::new();
                indices.push(id);
                batch = self.delete_charts_batch(indices);
                self.check_delete(false);
            }
        }
        if let Some(id) = do_back {
            self.back_fade_in = Some((id, t));
        }
        if clear_transit {
            self.transit = None;
        }
        UpdateOutcome { refreshed, report, batch }
    }

    /// Takes the scene of the opened chart once the way to it is done.
    pub fn next_scene(&mut self) -> (scene: Option<S>)
        ensures
            scene == old(self)@.scene(),
            final(self)@ == old(self)@.scene_taken(),
            old(self)@.wf() ==> final(self)@.wf(),
    {
        if let Some(transit) = &mut self.transit {
            if transit.done {
                return transit.next_scene.take();
            }
        }
        None
    }
}

} // verus!
