//! When two values show a caller the same.
use vstd::prelude::*;
use crate::data::{saved_models, SavedChart};
use crate::delete::{texts, texts_of};
use crate::item::{ChartDisplayItem, ChartItem};
use crate::view::{item_models, items_of, ChartsView, TransitState};

verus! {

/// Both texts are missing, or both are there with the same characters.
pub open spec fn same_text(a: Option<String>, b: Option<String>) -> bool {
    match (a, b) {
        (Some(x), Some(y)) => x@ == y@,
        (None, None) => true,
        _ => false,
    }
}

pub open spec fn same_chart(a: ChartItem, b: ChartItem) -> bool {
    &&& a.info.id == b.info.id
    &&& a.info.name@ == b.info.name@
    &&& a.info.level@ == b.info.level@
    &&& a.info.difficulty == b.info.difficulty
    &&& same_text(a.local_path, b.local_path)
    &&& a.chart_type == b.chart_type
}

/// The entries are alike but perhaps for their selection.
pub open spec fn same_entry(a: ChartDisplayItem, b: ChartDisplayItem) -> bool {
    &&& a.symbol == b.symbol
    &&& match (a.chart, b.chart) {
        (Some(x), Some(y)) => same_chart(x, y),
        (None, None) => true,
        _ => false,
    }
}

/// The lists hold the same entries, in the same order and equally selected.
pub open spec fn same_list(a: Seq<ChartDisplayItem>, b: Seq<ChartDisplayItem>) -> bool {
    &&& a.len() == b.len()
    &&& forall|i: int|
        0 <= i < a.len() ==> same_entry(#[trigger] a[i], b[i]) && a[i].is_selected
            == b[i].is_selected
}

pub open spec fn same_charts(
    a: Option<Vec<ChartDisplayItem>>,
    b: Option<Vec<ChartDisplayItem>>,
) -> bool {
    match (a, b) {
        (Some(x), Some(y)) => same_list(x@, y@),
        (None, None) => true,
        _ => false,
    }
}

/// The transitions are about the same chart and scene; they may differ in the
/// time, in the place of the card and in how far they are.
pub open spec fn same_opened<T, R, S>(a: TransitState<T, R, S>, b: TransitState<T, R, S>) -> bool {
    &&& a.id == b.id
    &&& same_chart(a.chart, b.chart)
    &&& a.next_scene == b.next_scene
}

pub open spec fn same_transit<T, R, S>(
    a: Option<TransitState<T, R, S>>,
    b: Option<TransitState<T, R, S>>,
) -> bool {
    match (a, b) {
        (Some(x), Some(y)) => {
            &&& same_opened(x, y)
            &&& x.rect == y.rect
            &&& x.start_time == y.start_time
            &&& x.back == y.back
            &&& x.done == y.done
            &&& x.delete == y.delete
        },
        (None, None) => true,
        _ => false,
    }
}

/// The lists hold the same paths, in the same order.
pub open spec fn same_paths(a: Seq<String>, b: Seq<String>) -> bool {
    &&& a.len() == b.len()
    &&& forall|i: int| 0 <= i < a.len() ==> (#[trigger] a[i])@ == b[i]@
}

pub open spec fn same_pending(a: Option<Vec<String>>, b: Option<Vec<String>>) -> bool {
    match (a, b) {
        (Some(x), Some(y)) => same_paths(x@, y@),
        (None, None) => true,
        _ => false,
    }
}

/// The lists hold the same charts on disk, in the same order.
pub open spec fn same_saved(a: Seq<SavedChart>, b: Seq<SavedChart>) -> bool {
    &&& a.len() == b.len()
    &&& forall|i: int|
        0 <= i < a.len() ==> (#[trigger] a[i]).local_path@ == b[i].local_path@ && a[i].mods
            == b[i].mods
}

/// The settings that a caller makes are the same.
pub open spec fn same_settings<T, R, S>(a: ChartsView<T, R, S>, b: ChartsView<T, R, S>) -> bool {
    a.row_num == b.row_num && a.can_refresh == b.can_refresh
}

/// The deletion that is under way is the same.
pub open spec fn same_deletion<T, R, S>(a: ChartsView<T, R, S>, b: ChartsView<T, R, S>) -> bool {
    a.delete_task == b.delete_task && same_pending(a.pending_delete_paths, b.pending_delete_paths)
}

/// The views are the same all over.
pub open spec fn same_view<T, R, S>(a: ChartsView<T, R, S>, b: ChartsView<T, R, S>) -> bool {
    &&& a.back_fade_in == b.back_fade_in
    &&& same_transit(a.transit, b.transit)
    &&& same_charts(a.charts, b.charts)
    &&& same_settings(a, b)
    &&& a.clicked_special == b.clicked_special
    &&& a.ensure_delete == b.ensure_delete
    &&& same_deletion(a, b)
}

pub(crate) proof fn models_show_list(a: Seq<ChartDisplayItem>, b: Seq<ChartDisplayItem>)
    requires
        item_models(a) == item_models(b),
    ensures
        same_list(a, b),
{
    assert(item_models(b).len() == b.len());
    assert forall|i: int| 0 <= i < a.len() implies same_entry(#[trigger] a[i], b[i])
        && a[i].is_selected == b[i].is_selected by {
        assert(item_models(b)[i] == b[i]@);
    }
}

pub(crate) proof fn models_show_charts(
    a: Option<Vec<ChartDisplayItem>>,
    b: Option<Vec<ChartDisplayItem>>,
)
    requires
        items_of(a) == items_of(b),
    ensures
        same_charts(a, b),
{
    if let (Some(x), Some(y)) = (a, b) {
        models_show_list(x@, y@);
    }
}

pub(crate) proof fn models_show_paths(a: Seq<String>, b: Seq<String>)
    requires
        texts(a) == texts(b),
    ensures
        same_paths(a, b),
{
    assert(texts(b).len() == b.len());
    assert forall|i: int| 0 <= i < a.len() implies (#[trigger] a[i])@ == b[i]@ by {
        assert(texts(a)[i] == texts(b)[i]);
    }
}

pub(crate) proof fn models_show_pending(a: Option<Vec<String>>, b: Option<Vec<String>>)
    requires
        texts_of(a) == texts_of(b),
    ensures
        same_pending(a, b),
{
    if let (Some(x), Some(y)) = (a, b) {
        models_show_paths(x@, y@);
    }
}

pub(crate) proof fn models_show_saved(a: Seq<SavedChart>, b: Seq<SavedChart>)
    requires
        saved_models(a) == saved_models(b),
    ensures
        same_saved(a, b),
{
    assert(saved_models(b).len() == b.len());
    assert forall|i: int| 0 <= i < a.len() implies (#[trigger] a[i]).local_path@
        == b[i].local_path@ && a[i].mods == b[i].mods by {
        assert(saved_models(b)[i] == b[i]@);
    }
}

} // verus!
