//! The calls that follow a touch.
use vstd::prelude::*;
use crate::calls::items::{mods_are_of_first, mods_of_first};
use crate::calls::same::{
    same_chart, same_charts, same_deletion, same_entry, same_settings, same_text, same_transit,
    same_view,
};
use crate::calls::texts::{downloads_are_named, is_download};
use crate::calls::view::{chart_in, views_show};
use crate::data::{AppData, SavedChart};
use crate::item::{ChartDisplayItem, ChartItem};
use crate::text::download_text;
use crate::touch::{RoomAction, Scan, SceneRequest, ScrollHit, TouchPhase};
use crate::view::{item_models, ChartsView};

verus! {

/// How many entries there are.
pub open spec fn entries(charts: Option<Vec<ChartDisplayItem>>) -> int {
    match charts {
        Some(list) => list@.len() as int,
        None => 0,
    }
}

/// The search goes on at the entry `id`: in selection mode it is asked to be
/// selected first, else to be tapped. Behind the last entry the search ends and
/// the touch is not used up.
pub open spec fn goes_on_at(
    charts: Option<Vec<ChartDisplayItem>>,
    id: int,
    selecting: bool,
    phase: TouchPhase,
) -> bool {
    if id >= entries(charts) {
        phase == TouchPhase::Done(false)
    } else if selecting {
        phase matches TouchPhase::Select(scan) && scan.id == id && scan.selecting
    } else {
        phase matches TouchPhase::Tap(scan) && scan.id == id && !scan.selecting
    }
}

/// A chart is played with the modifier bits that are kept for its download, and
/// with none where it has no id or its download is not kept.
pub open spec fn played_with(chart: ChartItem, saved: Seq<SavedChart>, mods: i32) -> bool {
    match chart.info.id {
        Some(id) => mods_of_first(saved, download_text(id), mods),
        None => mods == 0,
    }
}

proof fn mods_fit<T, R, S>(
    view: ChartsView<T, R, S>,
    id: int,
    data: AppData,
    local: Option<Seq<char>>,
)
    requires
        chart_in(view.charts, id) is Some,
    ensures
        played_with(
            chart_in(view.charts, id)->0,
            data.charts@,
            view@.request(id, local, data@).mods,
        ),
{
    let chart = chart_in(view.charts, id)->0;
    if let Some(path) = chart.info.id {
        mods_are_of_first(data.charts@, download_text(path));
    }
}

/// Each answer is taken up wherever it was asked for: of a listed entry whether
/// it was hit, of a listed chart whether there is a room, where its download is
/// wanted whether that is on disk, and for its scene. Outside of a room a
/// directory has to be known for the chart, or an id.
pub proof fn answers_are_taken<T: Copy, R: Copy, S>(
    view: &mut ChartsView<T, R, S>,
    scan: Scan,
    hit: bool,
    path: String,
    request: SceneRequest,
    data: &AppData,
    t: T,
    scene: S,
)
    requires
        scan.id < entries(old(view).charts),
    ensures
        scan.selecting ==> call_requires(ChartsView::<T, R, S>::on_select, (view, scan, hit)),
        call_requires(ChartsView::<T, R, S>::on_tap, (view, scan, hit)),
        chart_in(old(view).charts, scan.id as int) matches Some(chart) ==> {
            &&& call_requires(ChartsView::<T, R, S>::on_room, (&*old(view), scan, true, data))
            &&& chart.local_path is Some || chart.info.id is Some ==> call_requires(
                ChartsView::<T, R, S>::on_room,
                (&*old(view), scan, false, data),
            )
            &&& chart.local_path is None && (chart.info.id matches Some(id) && path@
                == download_text(id)) ==> call_requires(
                ChartsView::<T, R, S>::on_disk,
                (&*old(view), scan, path, hit, data),
            )
            &&& request.chart == chart ==> call_requires(
                ChartsView::<T, R, S>::on_scene,
                (view, scan, request, t, scene),
            )
        },
{
}

/// A touch that the scrolling area took for itself is used up at once, and one
/// outside of the area is not used, both without an entry being asked, in
/// selection mode or not. Any other is offered to the first entry. The view
/// takes down whether deletions are confirmed, and nothing else changes.
pub proof fn touch_with_select_call<T: Copy, R: Copy, S>(
    view: &mut ChartsView<T, R, S>,
    hit: ScrollHit,
    selecting: bool,
    ensure_delete: bool,
    phase: TouchPhase,
)
    requires
        call_ensures(
            ChartsView::<T, R, S>::touch_with_select,
            (view, hit, selecting, ensure_delete),
            phase,
        ),
    ensures
        hit == ScrollHit::Handled ==> phase == TouchPhase::Done(true),
        hit == ScrollHit::Outside ==> phase == TouchPhase::Done(false),
        hit == ScrollHit::Inside ==> goes_on_at(old(view).charts, 0, selecting, phase),
        final(view).ensure_delete == ensure_delete,
        final(view).back_fade_in == old(view).back_fade_in,
        same_transit(final(view).transit, old(view).transit),
        same_charts(final(view).charts, old(view).charts),
        same_settings(*final(view), *old(view)),
        final(view).clicked_special == old(view).clicked_special,
        same_deletion(*final(view), *old(view)),
{
    views_show(*final(view), *old(view));
}

/// A touch outside of selection mode goes the same way, and confirms nothing.
pub proof fn touch_call<T: Copy, R: Copy, S>(
    view: &mut ChartsView<T, R, S>,
    hit: ScrollHit,
    phase: TouchPhase,
)
    requires
        call_ensures(ChartsView::<T, R, S>::touch, (view, hit), phase),
    ensures
        hit == ScrollHit::Handled ==> phase == TouchPhase::Done(true),
        hit == ScrollHit::Outside ==> phase == TouchPhase::Done(false),
        hit == ScrollHit::Inside ==> goes_on_at(old(view).charts, 0, false, phase),
        !final(view).ensure_delete,
        final(view).back_fade_in == old(view).back_fade_in,
        same_transit(final(view).transit, old(view).transit),
        same_charts(final(view).charts, old(view).charts),
        same_settings(*final(view), *old(view)),
        final(view).clicked_special == old(view).clicked_special,
        same_deletion(*final(view), *old(view)),
{
    views_show(*final(view), *old(view));
}

/// In selection mode a hit toggles the entry that was asked and no other, and
/// uses the touch up; a miss asks the same entry to be tapped and changes
/// nothing.
pub proof fn on_select_call<T: Copy, R: Copy, S>(
    view: &mut ChartsView<T, R, S>,
    scan: Scan,
    hit: bool,
    phase: TouchPhase,
)
    requires
        scan.id < entries(old(view).charts),
        call_ensures(ChartsView::<T, R, S>::on_select, (view, scan, hit), phase),
    ensures
        !hit ==> phase == TouchPhase::Tap(scan) && same_view(*final(view), *old(view)),
        hit ==> phase == TouchPhase::Done(true),
        hit ==> (final(view).charts matches Some(after) && {
            let before = old(view).charts->0;
            &&& after@.len() == before@.len()
            &&& forall|i: int|
                0 <= i < after@.len() ==> same_entry(#[trigger] after@[i], before@[i]) && (i
                    != scan.id ==> after@[i].is_selected == before@[i].is_selected)
            &&& after@[scan.id as int].is_selected == Some(
                before@[scan.id as int].is_selected != Some(true),
            )
        }),
        final(view).back_fade_in == old(view).back_fade_in,
        same_transit(final(view).transit, old(view).transit),
        same_settings(*final(view), *old(view)),
        final(view).clicked_special == old(view).clicked_special,
        final(view).ensure_delete == old(view).ensure_delete,
        same_deletion(*final(view), *old(view)),
{
    views_show(*final(view), *old(view));
    if hit {
        let before = old(view).charts->0;
        let after = final(view).charts->0;
        assert forall|i: int| 0 <= i < after@.len() implies same_entry(
            #[trigger] after@[i],
            before@[i],
        ) && (i != scan.id ==> after@[i].is_selected == before@[i].is_selected) by {
            assert(item_models(after@)[i] == after@[i]@);
        }
        let id = scan.id as int;
        assert(item_models(after@)[id] == after@[id]@);
    }
}

/// A missed button hands the touch on to the entry behind. A tapped chart is
/// opened, or chosen in a room; a tap on the special entry is taken down and
/// the touch goes on to the entry behind.
pub proof fn on_tap_call<T: Copy, R: Copy, S>(
    view: &mut ChartsView<T, R, S>,
    scan: Scan,
    hit: bool,
    phase: TouchPhase,
)
    requires
        scan.id < entries(old(view).charts),
        call_ensures(ChartsView::<T, R, S>::on_tap, (view, scan, hit), phase),
    ensures
        ({
            let chart = chart_in(old(view).charts, scan.id as int);
            &&& hit && chart is Some ==> phase == TouchPhase::Room(scan)
            &&& !hit || chart is None ==> goes_on_at(
                old(view).charts,
                scan.id + 1,
                scan.selecting,
                phase,
            )
            &&& final(view).clicked_special <==> old(view).clicked_special || (hit
                && chart is None)
        }),
        final(view).back_fade_in == old(view).back_fade_in,
        same_transit(final(view).transit, old(view).transit),
        same_charts(final(view).charts, old(view).charts),
        same_settings(*final(view), *old(view)),
        final(view).ensure_delete == old(view).ensure_delete,
        same_deletion(*final(view), *old(view)),
{
    views_show(*final(view), *old(view));
}

/// In a room, a chart with an id is chosen there, whether or not it has a
/// directory, and one without an id is refused; either way the touch goes on to
/// the entry behind.
pub proof fn on_room_inside_call<T: Copy, R: Copy, S>(
    view: &ChartsView<T, R, S>,
    scan: Scan,
    data: &AppData,
    outcome: (RoomAction, TouchPhase),
)
    requires
        chart_in(view.charts, scan.id as int) is Some,
        call_ensures(ChartsView::<T, R, S>::on_room, (view, scan, true, data), outcome),
    ensures
        ({
            let chart = chart_in(view.charts, scan.id as int)->0;
            &&& chart.info.id matches Some(id) ==> outcome.0 == RoomAction::SelectChart(id)
            &&& outcome.0 == RoomAction::RefuseLocal <==> chart.info.id is None
            &&& outcome.0 != RoomAction::Nothing
        }),
        goes_on_at(view.charts, scan.id + 1, scan.selecting, outcome.1),
{
}

/// Outside of a room nothing is told to the panel. A chart with a directory is
/// opened from it at once; for any other the disk is asked for its download.
pub proof fn on_room_outside_call<T: Copy, R: Copy, S>(
    view: &ChartsView<T, R, S>,
    scan: Scan,
    data: &AppData,
    outcome: (RoomAction, TouchPhase),
)
    requires
        chart_in(view.charts, scan.id as int) matches Some(chart) && (chart.local_path is Some
            || chart.info.id is Some),
        call_ensures(ChartsView::<T, R, S>::on_room, (view, scan, false, data), outcome),
    ensures
        outcome.0 == RoomAction::Nothing,
        ({
            let chart = chart_in(view.charts, scan.id as int)->0;
            &&& chart.local_path is Some ==> (outcome.1 matches TouchPhase::Open(at, request) && {
                &&& at == scan
                &&& same_chart(request.chart, chart)
                &&& same_text(request.local_path, chart.local_path)
                &&& played_with(chart, data.charts@, request.mods)
            })
            &&& chart.local_path is None ==> (outcome.1 matches TouchPhase::Disk(at, path) && {
                &&& at == scan
                &&& is_download(path@, chart.info.id->0 as int)
            })
        }),
{
    let chart = chart_in(view.charts, scan.id as int)->0;
    match chart.local_path {
        Some(path) => {
            mods_fit(*view, scan.id as int, *data, Some(path@));
        },
        None => {
            downloads_are_named(chart.info.id->0);
        },
    }
}

/// After the disk was asked, the chart is opened, from the download exactly
/// where that is there.
pub proof fn on_disk_call<T: Copy, R: Copy, S>(
    view: &ChartsView<T, R, S>,
    scan: Scan,
    path: String,
    exists: bool,
    data: &AppData,
    phase: TouchPhase,
)
    requires
        chart_in(view.charts, scan.id as int) is Some,
        call_ensures(ChartsView::<T, R, S>::on_disk, (view, scan, path, exists, data), phase),
    ensures
        phase matches TouchPhase::Open(at, request) && {
            let chart = chart_in(view.charts, scan.id as int)->0;
            &&& at == scan
            &&& same_chart(request.chart, chart)
            &&& exists ==> same_text(request.local_path, Some(path))
            &&& !exists ==> request.local_path is None
            &&& played_with(chart, data.charts@, request.mods)
        },
{
    let chart = chart_in(view.charts, scan.id as int)->0;
    mods_fit(*view, scan.id as int, *data, if exists { Some(path@) } else { None });
    if let TouchPhase::Open(at, request) = phase {
        assert(request@.local_path == (if exists { Some(path@) } else { None }));
    }
}

/// A scene that was made starts the way to the chart of its entry, from the time
/// it was made at and with no place yet; the touch is used up, and nothing else
/// changes.
pub proof fn on_scene_call<T: Copy, R: Copy, S>(
    view: &mut ChartsView<T, R, S>,
    scan: Scan,
    request: SceneRequest,
    t: T,
    scene: S,
    phase: TouchPhase,
)
    requires
        chart_in(old(view).charts, scan.id as int) is Some,
        call_ensures(ChartsView::<T, R, S>::on_scene, (view, scan, request, t, scene), phase),
    ensures
        phase == TouchPhase::Done(true),
        final(view).transit matches Some(transit) && {
            &&& transit.id == scan.id as u32
            &&& transit.rect is None
            &&& same_chart(transit.chart, chart_in(old(view).charts, scan.id as int)->0)
            &&& transit.start_time == t
            &&& transit.next_scene == Some(scene)
            &&& !transit.back
            &&& !transit.done
            &&& !transit.delete
        },
        final(view).back_fade_in == old(view).back_fade_in,
        same_charts(final(view).charts, old(view).charts),
        same_settings(*final(view), *old(view)),
        final(view).clicked_special == old(view).clicked_special,
        final(view).ensure_delete == old(view).ensure_delete,
        same_deletion(*final(view), *old(view)),
{
    views_show(*final(view), *old(view));
}

} // verus!
