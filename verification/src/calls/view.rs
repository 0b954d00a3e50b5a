//! The calls on the list itself.
use vstd::prelude::*;
use crate::calls::items::{directory_is_named, names_directory};
use crate::calls::same::{
    models_show_charts, models_show_pending, models_show_saved, same_chart, same_charts,
    same_deletion, same_opened, same_pending, same_saved, same_settings, same_transit, same_view,
};
use crate::calls::texts::{deleted_messages_tell_count, tells_count};
use crate::data::{saved_models, without_all, AppData};
use crate::delete::{texts, DeleteBatch, DeleteReport};
use crate::item::{ChartDisplayItem, ChartItem};
use crate::laws::selection_is_exact;
use crate::view::{deletable_at, deletable_paths, item_models, items_of, ChartsView, UpdateOutcome};

verus! {

/// The chart of the entry `index`, where there is one.
pub open spec fn chart_in(charts: Option<Vec<ChartDisplayItem>>, index: int) -> Option<ChartItem> {
    match charts {
        Some(list) => if 0 <= index < list@.len() {
            list@[index].chart
        } else {
            None
        },
        None => None,
    }
}

/// How many of `indices` are those of an entry with a chart.
pub open spec fn charts_among(charts: Option<Vec<ChartDisplayItem>>, indices: Seq<u32>) -> nat
    decreases indices.len(),
{
    if indices.len() == 0 {
        0
    } else {
        charts_among(charts, indices.drop_last()) + if chart_in(
            charts,
            indices.last() as int,
        ) is Some {
            1nat
        } else {
            0nat
        }
    }
}

/// What is told when the task `task`, which had to remove `pending`, was asked
/// for its result: a count of deleted charts is told and saved, however it
/// compares with the number of directories, and an error is told.
pub open spec fn told_of<E>(
    task: bool,
    pending: Option<Vec<String>>,
    polled: Option<Result<usize, E>>,
    report: DeleteReport<E>,
) -> bool {
    let deleted = task && pending is Some && (polled matches Some(Ok(count)) && count > 0);
    &&& report.save <==> deleted
    &&& report.message is Some <==> deleted
    &&& deleted ==> tells_count(report.message->0@, polled->0->Ok_0 as int)
    &&& report.error is Some <==> task && (polled matches Some(Err(_)))
    &&& task && (polled matches Some(Err(_))) ==> report.error == Some(polled->0->Err_0)
}

/// The data when the task was asked for its result: a chart is forgotten for
/// each directory where it succeeded, and the list is read again if any
/// directory is gone; else they stay as they are.
pub open spec fn kept_of<E>(
    task: bool,
    pending: Option<Vec<String>>,
    polled: Option<Result<usize, E>>,
    before: AppData,
    after: AppData,
) -> bool {
    if task && pending is Some && (polled matches Some(Ok(_))) {
        &&& saved_models(after.charts@) == without_all(
            saved_models(before.charts@),
            texts(pending->0@),
        )
        &&& after.need_update <==> before.need_update || polled->0->Ok_0 > 0
    } else {
        same_saved(after.charts@, before.charts@) && after.need_update == before.need_update
    }
}

/// What is left to remove when the task was asked for its result.
pub open spec fn left_of<E>(
    task: bool,
    pending: Option<Vec<String>>,
    polled: Option<Result<usize, E>>,
    after: Option<Vec<String>>,
) -> bool {
    if task && polled is Some {
        after is None
    } else {
        same_pending(after, pending)
    }
}

/// No deletion is started.
pub open spec fn starts_nothing(batch: DeleteBatch) -> bool {
    batch.count == 0 && batch.job is None
}

proof fn paths_are_counted(charts: Option<Vec<ChartDisplayItem>>, indices: Seq<u32>)
    ensures
        deletable_paths(items_of(charts), indices).len() == charts_among(charts, indices),
    decreases indices.len(),
{
    if indices.len() > 0 {
        paths_are_counted(charts, indices.drop_last());
        if let Some(list) = charts {
            let items = item_models(list@);
            let pick = |index: u32| deletable_at(items, index);
            assert(indices.filter_map(pick) == (match pick(indices.last()) {
                Some(path) => indices.drop_last().filter_map(pick).push(path),
                None => indices.drop_last().filter_map(pick),
            }));
        }
    }
}

proof fn paths_are_named(charts: Option<Vec<ChartDisplayItem>>, indices: Seq<u32>, k: int)
    requires
        0 <= k < indices.len(),
    ensures
        chart_in(charts, indices[k] as int) matches Some(chart) ==> {
            let at = charts_among(charts, indices.take(k)) as int;
            &&& at < deletable_paths(items_of(charts), indices).len()
            &&& names_directory(chart, deletable_paths(items_of(charts), indices)[at])
        },
    decreases indices.len(),
{
    paths_are_counted(charts, indices.drop_last());
    if let Some(list) = charts {
        let items = item_models(list@);
        let pick = |index: u32| deletable_at(items, index);
        assert(indices.filter_map(pick) == (match pick(indices.last()) {
            Some(path) => indices.drop_last().filter_map(pick).push(path),
            None => indices.drop_last().filter_map(pick),
        }));
        if let Some(chart) = chart_in(charts, indices[k] as int) {
            if k < indices.len() - 1 {
                paths_are_named(charts, indices.drop_last(), k);
                assert(indices.drop_last().take(k) =~= indices.take(k));
            } else {
                directory_is_named(chart);
            }
        }
    }
}

pub(crate) proof fn views_show<T, R, S>(a: ChartsView<T, R, S>, b: ChartsView<T, R, S>)
    ensures
        a@.transit == b@.transit ==> same_transit(a.transit, b.transit),
        a@.charts == b@.charts ==> same_charts(a.charts, b.charts),
        a@.pending_delete_paths == b@.pending_delete_paths ==> same_pending(
            a.pending_delete_paths,
            b.pending_delete_paths,
        ),
{
    if a@.charts == b@.charts {
        models_show_charts(a.charts, b.charts);
    }
    if a@.pending_delete_paths == b@.pending_delete_paths {
        models_show_pending(a.pending_delete_paths, b.pending_delete_paths);
    }
}

/// A new view is loading, in four columns, and nothing is under way in it.
pub proof fn new_call<T: Copy, R: Copy, S>(view: ChartsView<T, R, S>)
    requires
        call_ensures(ChartsView::<T, R, S>::new, (), view),
    ensures
        view.back_fade_in is None,
        view.transit is None,
        view.charts is None,
        view.row_num == 4,
        view.can_refresh,
        !view.clicked_special,
        !view.ensure_delete,
        !view.delete_task,
        view.pending_delete_paths is None,
{
}

/// Clearing drops the entries and nothing else.
pub proof fn clear_call<T: Copy, R: Copy, S>(view: &mut ChartsView<T, R, S>)
    requires
        call_ensures(ChartsView::<T, R, S>::clear, (view,), ()),
    ensures
        final(view).charts is None,
        final(view).back_fade_in == old(view).back_fade_in,
        same_transit(final(view).transit, old(view).transit),
        same_settings(*final(view), *old(view)),
        final(view).clicked_special == old(view).clicked_special,
        final(view).ensure_delete == old(view).ensure_delete,
        same_deletion(*final(view), *old(view)),
{
    views_show(*final(view), *old(view));
}

/// Setting the entries shows them as they are and changes nothing else.
pub proof fn set_call<T: Copy, R: Copy, S>(
    view: &mut ChartsView<T, R, S>,
    charts: Vec<ChartDisplayItem>,
)
    requires
        call_ensures(ChartsView::<T, R, S>::set, (view, charts), ()),
    ensures
        same_charts(final(view).charts, Some(charts)),
        final(view).back_fade_in == old(view).back_fade_in,
        same_transit(final(view).transit, old(view).transit),
        same_settings(*final(view), *old(view)),
        final(view).clicked_special == old(view).clicked_special,
        final(view).ensure_delete == old(view).ensure_delete,
        same_deletion(*final(view), *old(view)),
{
    views_show(*final(view), *old(view));
    models_show_charts(final(view).charts, Some(charts));
}

/// A view is transiting exactly while it has a transition.
pub proof fn transiting_call<T: Copy, R: Copy, S>(view: &ChartsView<T, R, S>, yes: bool)
    requires
        call_ensures(ChartsView::<T, R, S>::transiting, (view,), yes),
    ensures
        yes <==> view.transit is Some,
{
}

/// Leaving the opened chart starts the way back: the transition is about the
/// same entry, chart and place, starts anew at the time of leaving, is not done,
/// and ends in a deletion just where that was asked for. Nothing else changes,
/// and without an opened chart nothing at all.
pub proof fn on_result_call<T: Copy, R: Copy, S>(
    view: &mut ChartsView<T, R, S>,
    t: T,
    delete: bool,
)
    requires
        call_ensures(ChartsView::<T, R, S>::on_result, (view, t, delete), ()),
    ensures
        old(view).transit is None ==> same_view(*final(view), *old(view)),
        old(view).transit matches Some(before) ==> (final(view).transit matches Some(after) && {
            &&& same_opened(after, before)
            &&& after.rect == before.rect
            &&& after.start_time == t
            &&& after.back
            &&& !after.done
            &&& after.delete == delete
        }),
        final(view).back_fade_in == old(view).back_fade_in,
        same_charts(final(view).charts, old(view).charts),
        same_settings(*final(view), *old(view)),
        final(view).clicked_special == old(view).clicked_special,
        final(view).ensure_delete == old(view).ensure_delete,
        same_deletion(*final(view), *old(view)),
{
    views_show(*final(view), *old(view));
}

/// Asking whether the list has to be read again tells what was wished for and
/// withdraws the wish; the charts on disk stay.
pub proof fn need_update_call<T: Copy, R: Copy, S>(
    view: &ChartsView<T, R, S>,
    data: &mut AppData,
    needed: bool,
)
    requires
        call_ensures(ChartsView::<T, R, S>::need_update, (view, data), needed),
    ensures
        needed == old(data).need_update,
        !final(data).need_update,
        same_saved(final(data).charts@, old(data).charts@),
{
    models_show_saved(final(data).charts@, old(data).charts@);
}

/// A deletion is about each of the given entries that has a chart, in the order
/// in which they are given and as often as they are, and about no other. Its
/// directories replace what was pending; where there are none, nothing changes.
pub proof fn delete_charts_batch_call<T: Copy, R: Copy, S>(
    view: &mut ChartsView<T, R, S>,
    indices: Vec<u32>,
    batch: DeleteBatch,
)
    requires
        call_ensures(ChartsView::<T, R, S>::delete_charts_batch, (view, indices), batch),
    ensures
        batch.count == charts_among(old(view).charts, indices@),
        batch.count == 0 ==> batch.job is None && same_view(*final(view), *old(view)),
        batch.count > 0 ==> (batch.job matches Some(paths) && {
            &&& paths@.len() == batch.count
            &&& forall|k: int|
                0 <= k < indices@.len() ==> (chart_in(
                    old(view).charts,
                    #[trigger] indices@[k] as int,
                ) matches Some(chart) ==> names_directory(
                    chart,
                    paths@[charts_among(old(view).charts, indices@.take(k)) as int]@,
                ))
        }),
        batch.count > 0 ==> same_pending(final(view).pending_delete_paths, batch.job),
        batch.count > 0 ==> final(view).delete_task,
        final(view).back_fade_in == old(view).back_fade_in,
        same_transit(final(view).transit, old(view).transit),
        same_charts(final(view).charts, old(view).charts),
        same_settings(*final(view), *old(view)),
        final(view).clicked_special == old(view).clicked_special,
        final(view).ensure_delete == old(view).ensure_delete,
{
    let charts = old(view).charts;
    views_show(*final(view), *old(view));
    paths_are_counted(charts, indices@);
    if let Some(paths) = batch.job {
        models_show_pending(final(view).pending_delete_paths, batch.job);
        assert forall|k: int| 0 <= k < indices@.len() implies (chart_in(
            charts,
            #[trigger] indices@[k] as int,
        ) matches Some(chart) ==> names_directory(
            chart,
            paths@[charts_among(charts, indices@.take(k)) as int]@,
        )) by {
            paths_are_named(charts, indices@, k);
        }
    }
}

/// The selected entries are told in ascending order, each of them and no other,
/// as long as every place fits the numbers that they are told in.
pub proof fn get_selected_indices_call<T: Copy, R: Copy, S>(
    view: &ChartsView<T, R, S>,
    indices: Vec<u32>,
)
    requires
        call_ensures(ChartsView::<T, R, S>::get_selected_indices, (view,), indices),
    ensures
        view.charts is None ==> indices@.len() == 0,
        view.charts matches Some(list) ==> list@.len() <= u32::MAX + 1 ==> {
            &&& forall|i: u32|
                #[trigger] indices@.contains(i) <==> i < list@.len()
                    && list@[i as int].is_selected == Some(true)
            &&& forall|a: int, b: int|
                0 <= a < b < indices@.len() ==> #[trigger] indices@[a] < #[trigger] indices@[b]
        },
{
    if let Some(list) = view.charts {
        if list@.len() <= u32::MAX + 1 {
            let items = item_models(list@);
            selection_is_exact(items);
            assert forall|i: u32| #[trigger] indices@.contains(i) implies i < list@.len()
                && list@[i as int].is_selected == Some(true) by {
                assert(items[i as int] == list@[i as int]@);
            }
            assert forall|i: u32|
                i < list@.len() && list@[i as int].is_selected == Some(true) implies
                #[trigger] indices@.contains(i) by {
                assert(items[i as int] == list@[i as int]@);
            }
        }
    }
}

/// Confirming a deletion, or withdrawing that, changes nothing else.
pub proof fn check_delete_call<T: Copy, R: Copy, S>(view: &mut ChartsView<T, R, S>, v: bool)
    requires
        call_ensures(ChartsView::<T, R, S>::check_delete, (view, v), ()),
    ensures
        final(view).ensure_delete == v,
        final(view).back_fade_in == old(view).back_fade_in,
        same_transit(final(view).transit, old(view).transit),
        same_charts(final(view).charts, old(view).charts),
        same_settings(*final(view), *old(view)),
        final(view).clicked_special == old(view).clicked_special,
        same_deletion(*final(view), *old(view)),
{
    views_show(*final(view), *old(view));
}

/// Taking up the result of a deletion tells of it, settles the data and leaves
/// nothing to remove once the task has ended. Nothing else changes, and nothing
/// at all while no task is there or it goes on.
pub proof fn process_delete_task_call<T: Copy, R: Copy, S, E>(
    view: &mut ChartsView<T, R, S>,
    data: &mut AppData,
    polled: Option<Result<usize, E>>,
    report: DeleteReport<E>,
)
    requires
        call_ensures(
            ChartsView::<T, R, S>::process_delete_task,
            (view, data, polled),
            report,
        ),
    ensures
        told_of(old(view).delete_task, old(view).pending_delete_paths, polled, report),
        kept_of(
            old(view).delete_task,
            old(view).pending_delete_paths,
            polled,
            *old(data),
            *final(data),
        ),
        left_of(
            old(view).delete_task,
            old(view).pending_delete_paths,
            polled,
            final(view).pending_delete_paths,
        ),
        final(view).delete_task == old(view).delete_task,
        final(view).back_fade_in == old(view).back_fade_in,
        same_transit(final(view).transit, old(view).transit),
        same_charts(final(view).charts, old(view).charts),
        same_settings(*final(view), *old(view)),
        final(view).clicked_special == old(view).clicked_special,
        final(view).ensure_delete == old(view).ensure_delete,
{
    views_show(*final(view), *old(view));
    settling_shows(*old(view), polled, report, *old(data), *final(data));
}

proof fn settling_shows<T, R, S, E>(
    view: ChartsView<T, R, S>,
    polled: Option<Result<usize, E>>,
    report: DeleteReport<E>,
    before: AppData,
    after: AppData,
)
    requires
        view@.reports(polled, report),
        after@ == view@.settled_data(before@, polled),
    ensures
        told_of(view.delete_task, view.pending_delete_paths, polled, report),
        kept_of(view.delete_task, view.pending_delete_paths, polled, before, after),
{
    if let Some(Ok(count)) = polled {
        deleted_messages_tell_count(count as nat);
    }
    if !(view.delete_task && view.pending_delete_paths is Some && (polled matches Some(Ok(_)))) {
        models_show_saved(after.charts@, before.charts@);
    }
}

/// Before the time of the transition is up, and without one, an update only
/// takes up the result of the deletion task: the transition stays just as it is,
/// confirmed or not, and no deletion is started.
pub proof fn update_before_call<T: Copy, R: Copy, S, E>(
    view: &mut ChartsView<T, R, S>,
    t: T,
    over: bool,
    pulled: bool,
    data: &mut AppData,
    polled: Option<Result<usize, E>>,
    outcome: UpdateOutcome<E>,
)
    requires
        call_ensures(
            ChartsView::<T, R, S>::update,
            (view, t, over, pulled, data, polled),
            outcome,
        ),
        !over || old(view).transit is None,
    ensures
        starts_nothing(outcome.batch),
        polled is None ==> same_view(*final(view), *old(view)),
        same_transit(final(view).transit, old(view).transit),
        final(view).back_fade_in == old(view).back_fade_in,
        final(view).ensure_delete == old(view).ensure_delete,
        final(view).delete_task == old(view).delete_task,
        left_of(
            old(view).delete_task,
            old(view).pending_delete_paths,
            polled,
            final(view).pending_delete_paths,
        ),
{
    views_show(*final(view), *old(view));
}

/// When its time is up, the way to a chart is done: the rest of the transition
/// stays as it is, and no deletion is started.
pub proof fn update_there_call<T: Copy, R: Copy, S, E>(
    view: &mut ChartsView<T, R, S>,
    t: T,
    pulled: bool,
    data: &mut AppData,
    polled: Option<Result<usize, E>>,
    outcome: UpdateOutcome<E>,
)
    requires
        call_ensures(
            ChartsView::<T, R, S>::update,
            (view, t, true, pulled, data, polled),
            outcome,
        ),
        old(view).transit matches Some(transit) && !transit.back,
    ensures
        starts_nothing(outcome.batch),
        final(view).transit matches Some(after) && {
            let before = old(view).transit->0;
            &&& same_opened(after, before)
            &&& after.rect == before.rect
            &&& after.start_time == before.start_time
            &&& !after.back
            &&& after.done
            &&& after.delete == before.delete
        },
        final(view).back_fade_in == old(view).back_fade_in,
        final(view).ensure_delete == old(view).ensure_delete,
        final(view).delete_task == old(view).delete_task,
        left_of(
            old(view).delete_task,
            old(view).pending_delete_paths,
            polled,
            final(view).pending_delete_paths,
        ),
{
    views_show(*final(view), *old(view));
}

/// When its time is up, the way back is over. The entry fades in from then on
/// just where its chart is not to be deleted. Its chart is deleted just where
/// that was asked for and is confirmed, which uses the confirmation up; the
/// directory of the chart replaces what was pending.
pub proof fn update_back_call<T: Copy, R: Copy, S, E>(
    view: &mut ChartsView<T, R, S>,
    t: T,
    pulled: bool,
    data: &mut AppData,
    polled: Option<Result<usize, E>>,
    outcome: UpdateOutcome<E>,
)
    requires
        call_ensures(
            ChartsView::<T, R, S>::update,
            (view, t, true, pulled, data, polled),
            outcome,
        ),
        old(view).transit matches Some(transit) && transit.back,
    ensures
        ({
            let transit = old(view).transit->0;
            let confirmed = transit.delete && old(view).ensure_delete;
            let chart = chart_in(old(view).charts, transit.id as int);
            &&& final(view).transit is None
            &&& !transit.delete ==> final(view).back_fade_in == Some((transit.id, t))
            &&& transit.delete ==> final(view).back_fade_in == old(view).back_fade_in
            &&& confirmed ==> !final(view).ensure_delete
            &&& !confirmed ==> final(view).ensure_delete == old(view).ensure_delete
            &&& if confirmed && chart is Some {
                &&& outcome.batch.count == 1
                &&& (outcome.batch.job matches Some(paths) && paths@.len() == 1
                    && names_directory(chart->0, paths@[0]@))
                &&& same_pending(final(view).pending_delete_paths, outcome.batch.job)
                &&& final(view).delete_task
            } else {
                &&& starts_nothing(outcome.batch)
                &&& final(view).delete_task == old(view).delete_task
                &&& left_of(
                    old(view).delete_task,
                    old(view).pending_delete_paths,
                    polled,
                    final(view).pending_delete_paths,
                )
            }
        }),
{
    let transit = old(view).transit->0;
    let one = seq![transit.id];
    views_show(*final(view), *old(view));
    reveal_with_fuel(charts_among, 2);
    paths_are_counted(old(view).charts, one);
    paths_are_named(old(view).charts, one, 0);
}

/// Whatever the transition does, an update takes up the result of the deletion
/// task, asks for the list to be read again just where it was pulled and can be
/// refreshed, and leaves the entries and settings alone.
pub proof fn update_call<T: Copy, R: Copy, S, E>(
    view: &mut ChartsView<T, R, S>,
    t: T,
    over: bool,
    pulled: bool,
    data: &mut AppData,
    polled: Option<Result<usize, E>>,
    outcome: UpdateOutcome<E>,
)
    requires
        call_ensures(
            ChartsView::<T, R, S>::update,
            (view, t, over, pulled, data, polled),
            outcome,
        ),
    ensures
        outcome.refreshed <==> old(view).can_refresh && pulled,
        told_of(old(view).delete_task, old(view).pending_delete_paths, polled, outcome.report),
        kept_of(
            old(view).delete_task,
            old(view).pending_delete_paths,
            polled,
            *old(data),
            *final(data),
        ),
        same_charts(final(view).charts, old(view).charts),
        same_settings(*final(view), *old(view)),
        final(view).clicked_special == old(view).clicked_special,
{
    views_show(*final(view), *old(view));
    settling_shows(*old(view), polled, outcome.report, *old(data), *final(data));
}

/// A scene is handed out just where the way to the chart is done and it was not
/// taken before; it is gone then, and nothing else changes.
pub proof fn next_scene_call<T: Copy, R: Copy, S>(
    view: &mut ChartsView<T, R, S>,
    scene: Option<S>,
)
    requires
        call_ensures(ChartsView::<T, R, S>::next_scene, (view,), scene),
    ensures
        !(old(view).transit matches Some(transit) && transit.done) ==> scene is None && same_view(
            *final(view),
            *old(view),
        ),
        old(view).transit matches Some(before) ==> before.done ==> scene == before.next_scene && (
        final(view).transit matches Some(after) && {
            &&& after.next_scene is None
            &&& after.id == before.id
            &&& after.rect == before.rect
            &&& same_chart(after.chart, before.chart)
            &&& after.start_time == before.start_time
            &&& after.back == before.back
            &&& after.done
            &&& after.delete == before.delete
        }),
        final(view).back_fade_in == old(view).back_fade_in,
        same_charts(final(view).charts, old(view).charts),
        same_settings(*final(view), *old(view)),
        final(view).clicked_special == old(view).clicked_special,
        final(view).ensure_delete == old(view).ensure_delete,
        same_deletion(*final(view), *old(view)),
{
    views_show(*final(view), *old(view));
}

} // verus!
