//! The calls that say what is drawn.
use vstd::prelude::*;
use core::ops::Range;
use crate::calls::same::{
    same_charts, same_deletion, same_opened, same_settings, same_transit, same_view,
};
use crate::calls::texts::{labels_show_level, shows_level};
use crate::calls::view::{chart_in, views_show};
use crate::item::ChartDisplayItem;
use crate::render::{card_models, Card, Lines, Overlay, Screen};
use crate::view::{item_models, ChartsView};

verus! {

/// The entry `id` stands on one of the lines from `start` to `end`, `row_num`
/// entries to a line.
pub open spec fn on_lines(row_num: u32, start: u32, end: u32, id: int) -> bool {
    row_num > 0 && start <= id / (row_num as int) <= end
}

/// `card` is that of the entry `item`, which fades in since `fade`, if it does.
pub open spec fn card_of<T>(item: ChartDisplayItem, fade: Option<T>, card: Card<T>) -> bool {
    match item.chart {
        Some(chart) => {
            &&& card matches Card::Chart(shown)
            &&& shown.name@ == chart.info.name@
            &&& shown.symbol == item.symbol
            &&& shown.selected <==> item.is_selected == Some(true)
            &&& shows_level(shown.level@, chart.info.level@, chart.info.difficulty)
            &&& shown.fade == fade
        },
        None => card is Special,
    }
}

proof fn lines_hold(row_num: u32, start: u32, end: u32, id: int)
    requires
        0 <= id,
    ensures
        on_lines(row_num, start, end, id) <==> start * row_num <= id < (end + 1) * row_num,
{
    if row_num > 0 {
        let n = row_num as int;
        let line = id / n;
        vstd::arithmetic::div_mod::lemma_fundamental_div_mod(id, n);
        assert(start <= line <==> start * n <= id) by (nonlinear_arith)
            requires
                id == n * line + id % n,
                0 <= id % n < n,
                n > 0,
        ;
        assert(line <= end <==> id < (end + 1) * n) by (nonlinear_arith)
            requires
                id == n * line + id % n,
                0 <= id % n < n,
                n > 0,
        ;
    } else {
        assert((end + 1) * row_num == 0) by (nonlinear_arith)
            requires
                row_num == 0,
        ;
    }
}

/// The range holds the entries on the given lines and no others; it starts with
/// the first entry of the first line and stops in front of the first entry of
/// the line behind the last.
pub proof fn charts_display_range_call<T: Copy, R: Copy, S>(
    view: &ChartsView<T, R, S>,
    start: u32,
    end: u32,
    range: Range<u32>,
    id: u32,
)
    requires
        call_ensures(ChartsView::<T, R, S>::charts_display_range, (view, start, end), range),
    ensures
        range.start <= id < range.end <==> on_lines(view.row_num, start, end, id as int),
        view.row_num > 0 ==> range.start / view.row_num == start && range.start % view.row_num
            == 0,
        view.row_num > 0 ==> range.end / view.row_num == end + 1 && range.end % view.row_num == 0,
{
    lines_hold(view.row_num, start, end, id as int);
    if view.row_num > 0 {
        let n = view.row_num as int;
        vstd::arithmetic::div_mod::lemma_div_multiples_vanish(start as int, n);
        vstd::arithmetic::div_mod::lemma_div_multiples_vanish(end + 1, n);
        vstd::arithmetic::div_mod::lemma_mod_multiples_basic(start as int, n);
        vstd::arithmetic::div_mod::lemma_mod_multiples_basic(end + 1, n);
    }
}

/// Lines are drawn wherever the places of their entries fit the numbers that
/// they are told in.
pub proof fn lines_are_drawn<T: Copy, R: Copy, S>(
    view: &mut ChartsView<T, R, S>,
    start: u32,
    end: u32,
    over: bool,
)
    requires
        start * old(view).row_num <= u32::MAX,
        end < u32::MAX,
        (end + 1) * old(view).row_num <= u32::MAX,
    ensures
        call_requires(ChartsView::<T, R, S>::charts_display_range, (&*old(view), start, end)),
        call_requires(ChartsView::<T, R, S>::render, (view, start, end, over)),
{
}

/// A view without a list is loading, an empty list is said to be empty, and any
/// other is drawn as a grid, with the hint that it can be pulled just where it
/// can be refreshed.
pub proof fn render_screen_call<T: Copy, R: Copy, S>(
    view: &mut ChartsView<T, R, S>,
    start: u32,
    end: u32,
    over: bool,
    screen: Screen<T>,
)
    requires
        call_ensures(ChartsView::<T, R, S>::render, (view, start, end, over), screen),
    ensures
        screen is Loading <==> old(view).charts is None,
        screen is Empty <==> (old(view).charts matches Some(list) && list@.len() == 0),
        screen matches Screen::Grid { cards, refresh_hint } ==> {
            let list = old(view).charts->0;
            &&& refresh_hint == old(view).can_refresh
            &&& cards@.len() == list@.len() as u32
        },
{
    if let Some(list) = old(view).charts {
        if let Screen::Grid { cards, refresh_hint } = screen {
            assert(card_models(cards@).len() == cards@.len());
        }
    }
}

/// Each card of a grid is that of its entry: hidden off the lines, and on them
/// with the chart's own name and level, the entry's own mark and selection, and
/// fading exactly while that entry fades in and the time is not up.
pub proof fn render_card_call<T: Copy, R: Copy, S>(
    view: &mut ChartsView<T, R, S>,
    start: u32,
    end: u32,
    over: bool,
    screen: Screen<T>,
    id: int,
)
    requires
        call_ensures(ChartsView::<T, R, S>::render, (view, start, end, over), screen),
    ensures
        screen matches Screen::Grid { cards, refresh_hint } ==> 0 <= id < cards@.len() ==> {
            let list = old(view).charts->0;
            &&& id < list@.len()
            &&& !on_lines(old(view).row_num, start, end, id) ==> cards@[id] is Hidden
            &&& on_lines(old(view).row_num, start, end, id) ==> card_of(
                list@[id],
                match old(view).back_fade_in {
                    Some((fading, since)) => if fading == id && !over {
                        Some(since)
                    } else {
                        None
                    },
                    None => None,
                },
                cards@[id],
            )
        },
{
    if let Screen::Grid { cards, refresh_hint } = screen {
        let list = old(view).charts->0;
        let items = item_models(list@);
        let lines = Lines { first: start as nat, last: end as nat };
        assert(card_models(cards@).len() == cards@.len());
        if 0 <= id < cards@.len() {
            assert(card_models(cards@)[id] == cards@[id]@);
            lines_hold(old(view).row_num, start, end, id);
            if let Some(chart) = list@[id].chart {
                labels_show_level(chart.info.level@, chart.info.difficulty);
            }
        }
    }
}

/// Drawing ends a fade exactly where its time is up and its entry is drawn and
/// has a chart, and changes nothing else.
pub proof fn render_call<T: Copy, R: Copy, S>(
    view: &mut ChartsView<T, R, S>,
    start: u32,
    end: u32,
    over: bool,
    screen: Screen<T>,
)
    requires
        call_ensures(ChartsView::<T, R, S>::render, (view, start, end, over), screen),
    ensures
        old(view).back_fade_in is None ==> final(view).back_fade_in is None,
        old(view).back_fade_in matches Some((id, _)) ==> if over && on_lines(
            old(view).row_num,
            start,
            end,
            id as int,
        ) && (old(view).charts matches Some(list) && id < list@.len() as u32) && chart_in(
            old(view).charts,
            id as int,
        ) is Some {
            final(view).back_fade_in is None
        } else {
            final(view).back_fade_in == old(view).back_fade_in
        },
        same_transit(final(view).transit, old(view).transit),
        same_charts(final(view).charts, old(view).charts),
        same_settings(*final(view), *old(view)),
        final(view).clicked_special == old(view).clicked_special,
        final(view).ensure_delete == old(view).ensure_delete,
        same_deletion(*final(view), *old(view)),
{
    views_show(*final(view), *old(view));
    if let Some((id, _)) = old(view).back_fade_in {
        lines_hold(old(view).row_num, start, end, id as int);
    }
}

/// Placing a card takes down its place for the transition of that entry, the
/// last place counting, and changes nothing else and no other transition.
pub proof fn place_transit_call<T: Copy, R: Copy, S>(
    view: &mut ChartsView<T, R, S>,
    id: u32,
    rect: R,
)
    requires
        call_ensures(ChartsView::<T, R, S>::place_transit, (view, id, rect), ()),
    ensures
        !(old(view).transit matches Some(transit) && transit.id == id) ==> same_view(
            *final(view),
            *old(view),
        ),
        old(view).transit matches Some(before) ==> before.id == id ==> (
        final(view).transit matches Some(after) && {
            &&& after.rect == Some(rect)
            &&& same_opened(after, before)
            &&& after.start_time == before.start_time
            &&& after.back == before.back
            &&& after.done == before.done
            &&& after.delete == before.delete
        }),
        final(view).back_fade_in == old(view).back_fade_in,
        same_charts(final(view).charts, old(view).charts),
        same_settings(*final(view), *old(view)),
        final(view).clicked_special == old(view).clicked_special,
        final(view).ensure_delete == old(view).ensure_delete,
        same_deletion(*final(view), *old(view)),
{
    views_show(*final(view), *old(view));
}

/// The transition is drawn exactly where it has a place: there, with its own
/// time and direction.
pub proof fn render_top_call<T: Copy, R: Copy, S>(
    view: &ChartsView<T, R, S>,
    overlay: Option<Overlay<T, R>>,
)
    requires
        call_ensures(ChartsView::<T, R, S>::render_top, (view,), overlay),
    ensures
        overlay is Some <==> (view.transit matches Some(transit) && transit.rect is Some),
        overlay matches Some(shown) ==> {
            let transit = view.transit->0;
            &&& Some(shown.rect) == transit.rect
            &&& shown.start_time == transit.start_time
            &&& shown.back == transit.back
        },
{
}

} // verus!
