//! The calls on entries, on the data and on the job of a deletion.
use vstd::prelude::*;
use crate::calls::same::{
    models_show_paths, models_show_saved, same_chart, same_entry, same_paths, same_saved,
};
use crate::calls::texts::{downloads_are_named, is_download};
use crate::data::{
    mods_at, paths_of, position, saved_models, without_all, AppData, SavedChart, SavedModel,
};
use crate::delete::{copy_paths, DeleteJob};
use crate::item::{Chart, ChartDisplayItem, ChartItem, ChartType};

verus! {

/// `path` is the directory that is deleted for the chart: its own where it has
/// one, else that of the download of its id, or of the id 0.
pub open spec fn names_directory(chart: ChartItem, path: Seq<char>) -> bool {
    match (chart.local_path, chart.info.id) {
        (Some(own), _) => path == own@,
        (None, Some(id)) => is_download(path, id as int),
        (None, None) => is_download(path, 0),
    }
}

/// Nothing is kept at `path` in front of the place `i`.
pub open spec fn none_before(charts: Seq<SavedChart>, path: Seq<char>, i: int) -> bool {
    forall|j: int| 0 <= j < i ==> (#[trigger] charts[j]).local_path@ != path
}

/// `mods` are those of the first chart that is kept at `path`, and 0 where none
/// is kept there.
pub open spec fn mods_of_first(charts: Seq<SavedChart>, path: Seq<char>, mods: i32) -> bool {
    &&& none_before(charts, path, charts.len() as int) ==> mods == 0
    &&& forall|i: int|
        0 <= i < charts.len() && #[trigger] none_before(charts, path, i)
            && charts[i].local_path@ == path ==> mods == charts[i].mods
}

/// A new entry holds what it was given and was never selected.
pub proof fn new_item_call(chart: Option<ChartItem>, symbol: Option<char>, item: ChartDisplayItem)
    requires
        call_ensures(ChartDisplayItem::new, (chart, symbol), item),
    ensures
        item.chart is Some <==> chart is Some,
        chart matches Some(c) ==> same_chart(item.chart->0, c),
        item.symbol == symbol,
        item.is_selected is None,
{
}

/// The entry for a chart of the server shows that chart, which has no directory
/// yet, and carries its mark: a plus while it asks to be made stable, reviewed
/// or not, else an asterisk exactly while it is not reviewed.
pub proof fn from_remote_call(chart: &Chart, item: ChartDisplayItem)
    requires
        call_ensures(ChartDisplayItem::from_remote, (chart,), item),
    ensures
        item.chart matches Some(c) && {
            &&& c.info.id == chart.info.id
            &&& c.info.name@ == chart.info.name@
            &&& c.info.level@ == chart.info.level@
            &&& c.info.difficulty == chart.info.difficulty
            &&& c.local_path is None
            &&& c.chart_type == ChartType::Downloaded
        },
        item.is_selected is None,
        item.symbol == Some('+') <==> chart.stable_request,
        item.symbol == Some('*') <==> !chart.stable_request && !chart.reviewed,
        item.symbol is None <==> !chart.stable_request && chart.reviewed,
{
}

/// An entry counts as selected where it was switched on, and nowhere else.
pub proof fn selected_call(item: &ChartDisplayItem, yes: bool)
    requires
        call_ensures(ChartDisplayItem::selected, (item,), yes),
    ensures
        yes <==> item.is_selected == Some(true),
{
}

/// Toggling switches a selected entry off and any other on, and touches nothing
/// else about it.
pub proof fn toggle_call(item: &mut ChartDisplayItem)
    requires
        call_ensures(ChartDisplayItem::toggle, (item,), ()),
    ensures
        final(item).is_selected == Some(false) <==> old(item).is_selected == Some(true),
        final(item).is_selected is Some,
        same_entry(*final(item), *old(item)),
{
}

/// A chart has a download exactly where it has an id, and the id names it.
pub proof fn download_call(chart: &ChartItem, path: Option<String>)
    requires
        call_ensures(ChartItem::download, (chart,), path),
    ensures
        path is Some <==> chart.info.id is Some,
        chart.info.id matches Some(id) ==> is_download(path->0@, id as int),
{
    if let Some(id) = chart.info.id {
        downloads_are_named(id);
    }
}

/// What is deleted for a chart is its directory.
pub proof fn deletable_call(chart: &ChartItem, path: String)
    requires
        call_ensures(ChartItem::deletable, (chart,), path),
    ensures
        names_directory(*chart, path@),
{
    directory_is_named(*chart);
}

pub(crate) proof fn directory_is_named(chart: ChartItem)
    ensures
        names_directory(chart, chart@.deletable()),
{
    match chart.info.id {
        Some(id) => downloads_are_named(id),
        None => downloads_are_named(0),
    }
}

proof fn position_is_first(charts: Seq<SavedChart>, path: Seq<char>)
    ensures
        match position(saved_models(charts), path) {
            Some(i) => {
                &&& 0 <= i < charts.len()
                &&& charts[i].local_path@ == path
                &&& none_before(charts, path, i)
            },
            None => none_before(charts, path, charts.len() as int),
        },
{
    let paths = paths_of(saved_models(charts));
    paths.index_of_first_ensures(path);
    assert forall|j: int| 0 <= j < charts.len() implies (#[trigger] charts[j]).local_path@
        == paths[j] by {}
}

pub(crate) proof fn mods_are_of_first(charts: Seq<SavedChart>, path: Seq<char>)
    ensures
        mods_of_first(charts, path, mods_at(saved_models(charts), Some(path))),
{
    position_is_first(charts, path);
}

/// The search finds the first chart that is kept at the path, and fails only
/// where none is.
pub proof fn find_chart_by_path_call(data: &AppData, path: &String, found: Option<usize>)
    requires
        call_ensures(AppData::find_chart_by_path, (data, path), found),
    ensures
        found is None <==> none_before(data.charts@, path@, data.charts@.len() as int),
        found matches Some(i) ==> {
            &&& i < data.charts@.len()
            &&& data.charts@[i as int].local_path@ == path@
            &&& none_before(data.charts@, path@, i as int)
        },
{
    position_is_first(data.charts@, path@);
}

/// Forgetting a path takes away the first chart that is kept at it; those in
/// front stay and those behind move up by one. Where none is kept there nothing
/// changes.
pub proof fn forget_call(data: &mut AppData, path: &String, i: int)
    requires
        call_ensures(AppData::forget, (data, path), ()),
    ensures
        final(data).need_update == old(data).need_update,
        none_before(old(data).charts@, path@, old(data).charts@.len() as int) ==> same_saved(
            final(data).charts@,
            old(data).charts@,
        ),
        0 <= i < old(data).charts@.len() && old(data).charts@[i].local_path@ == path@
            && none_before(old(data).charts@, path@, i) ==> same_saved(
            final(data).charts@,
            old(data).charts@.take(i) + old(data).charts@.skip(i + 1),
        ),
{
    let before = old(data).charts@;
    let after = final(data).charts@;
    position_is_first(before, path@);
    if none_before(before, path@, before.len() as int) {
        models_show_saved(after, before);
    }
    if 0 <= i < before.len() && before[i].local_path@ == path@ && none_before(before, path@, i) {
        assert(saved_models(after) =~= saved_models(before.take(i) + before.skip(i + 1)));
        models_show_saved(after, before.take(i) + before.skip(i + 1));
    }
}

/// The modifier bits are those of the first chart at the path, and 0 without a
/// path or such a chart.
pub proof fn mods_at_call(data: &AppData, path: &Option<String>, mods: i32)
    requires
        call_ensures(AppData::mods_at, (data, path), mods),
    ensures
        *path is None ==> mods == 0,
        *path matches Some(p) ==> mods_of_first(data.charts@, p@, mods),
{
    if let Some(p) = *path {
        mods_are_of_first(data.charts@, p@);
    }
}

/// Forgetting one list of paths and then another is forgetting both, one behind
/// the other.
pub proof fn forgetting_goes_on(
    charts: Seq<SavedModel>,
    first: Seq<Seq<char>>,
    second: Seq<Seq<char>>,
)
    ensures
        without_all(without_all(charts, first), second) == without_all(charts, first + second),
    decreases second.len(),
{
    if second.len() > 0 {
        forgetting_goes_on(charts, first, second.drop_last());
        assert((first + second).drop_last() =~= first + second.drop_last());
    }
}

/// Forgetting no path changes nothing, and forgetting one takes away the first
/// chart at it: where the path of the chart `i` is met there for the first time,
/// that chart goes, those in front stay and those behind move up.
pub proof fn forgetting_takes_first(charts: Seq<SavedModel>, path: Seq<char>, i: int)
    ensures
        without_all(charts, Seq::empty()) == charts,
        (forall|j: int| 0 <= j < charts.len() ==> (#[trigger] charts[j]).local_path != path)
            ==> without_all(charts, seq![path]) == charts,
        0 <= i < charts.len() && charts[i].local_path == path && (forall|j: int|
            0 <= j < i ==> (#[trigger] charts[j]).local_path != path) ==> without_all(
            charts,
            seq![path],
        ) == charts.take(i) + charts.skip(i + 1),
{
    let paths = paths_of(charts);
    reveal_with_fuel(without_all, 2);
    paths.index_of_first_ensures(path);
    assert forall|j: int| 0 <= j < charts.len() implies (#[trigger] charts[j]).local_path
        == paths[j] by {}
}

/// A copy of a list of paths holds the same paths in the same order.
pub proof fn copy_paths_call(paths: &Vec<String>, copy: Vec<String>)
    requires
        call_ensures(copy_paths, (paths,), copy),
    ensures
        same_paths(copy@, paths@),
{
}

/// A new job has tried nothing.
pub proof fn new_job_call(base: String, paths: Vec<String>, job: DeleteJob)
    requires
        call_ensures(DeleteJob::new, (base, paths), job),
    ensures
        job.base@ == base@,
        same_paths(job.paths@, paths@),
        job.next == 0,
        job.deleted == 0,
{
    models_show_paths(job.paths@, paths@);
}

/// The job names the path that comes next, below its directory, and stops only
/// where every path was tried.
pub proof fn target_call(job: &DeleteJob, full: Option<String>)
    requires
        call_ensures(DeleteJob::target, (job,), full),
    ensures
        full is Some <==> job.next < job.paths@.len(),
        full matches Some(f) ==> f@ == job.base@ + seq!['/'] + job.paths@[job.next as int]@,
{
    reveal_strlit("/");
}

/// An outcome is taken down as long as a path is left to try.
pub proof fn outcomes_are_taken(job: &mut DeleteJob, removed: bool)
    requires
        old(job).deleted <= old(job).next < old(job).paths@.len(),
    ensures
        call_requires(DeleteJob::record, (job, removed)),
{
}

/// Taking down an outcome goes on to the next path, whatever the outcome; it
/// counts a removal and tells of a failure, naming the directory.
pub proof fn record_call(job: &mut DeleteJob, removed: bool, failure: Option<String>)
    requires
        old(job).next < old(job).paths@.len(),
        call_ensures(DeleteJob::record, (job, removed), failure),
    ensures
        final(job).base@ == old(job).base@,
        same_paths(final(job).paths@, old(job).paths@),
        final(job).next == old(job).next + 1,
        removed ==> final(job).deleted == old(job).deleted + 1,
        !removed ==> final(job).deleted == old(job).deleted,
        failure is None <==> removed,
        failure matches Some(message) ==> message@ == "Failed to delete chart at path: "@ + (
        old(job).base@ + seq!['/'] + old(job).paths@[old(job).next as int]@),
{
    reveal_strlit("/");
    models_show_paths(final(job).paths@, old(job).paths@);
}

} // verus!
