//! What is drawn: which entries are on the screen and what their cards show.
use vstd::prelude::*;
use core::ops::Range;
use crate::text::{labelled, level_label};
use crate::item::ItemModel;
use crate::view::{item_models, ChartsView, TransitModel, ViewModel};

verus! {

/// The card of a chart. `fade` is the time since which it fades in.
#[derive(Debug, PartialEq, Eq)]
pub struct ChartCard<T> {
    pub selected: bool,
    pub fade: Option<T>,
    pub level: String,
    pub name: String,
    pub symbol: Option<char>,
}

/// The card of an entry. A hidden one is not on the screen, and its button is
/// not to be touched.
#[derive(Debug, PartialEq, Eq)]
pub enum Card<T> {
    Hidden,
    Special,
    Chart(ChartCard<T>),
}

/// What the view shows: that it is loading, that the list is empty, or the
/// cards of the entries and, with `refresh_hint`, that the list can be pulled
/// to be refreshed.
#[derive(Debug, PartialEq, Eq)]
pub enum Screen<T> {
    Loading,
    Empty,
    Grid { cards: Vec<Card<T>>, refresh_hint: bool },
}

/// The model of a [`Card`].
pub enum CardModel<T> {
    Hidden,
    Special,
    Chart {
        selected: bool,
        fade: Option<T>,
        level: Seq<char>,
        name: Seq<char>,
        symbol: Option<char>,
    },
}

impl<T> View for Card<T> {
    type V = CardModel<T>;

    open spec fn view(&self) -> CardModel<T> {
        match self {
            Card::Hidden => CardModel::Hidden,
            Card::Special => CardModel::Special,
            Card::Chart(card) => CardModel::Chart {
                selected: card.selected,
                fade: card.fade,
                level: card.level@,
                name: card.name@,
                symbol: card.symbol,
            },
        }
    }
}

/// The models of a list of cards.
pub open spec fn card_models<T>(cards: Seq<Card<T>>) -> Seq<CardModel<T>> {
    cards.map_values(|card: Card<T>| card@)
}

/// The way to or from the opened chart: `rect` is the place of its card and
/// `back` says that it shrinks to that place.
#[derive(Debug, PartialEq, Eq)]
pub struct Overlay<T, R> {
    pub rect: R,
    pub start_time: T,
    pub back: bool,
}

/// The lines of the grid whose entries are drawn: from the one at the upper edge
/// of the viewport to the one that starts at its lower edge or below, so that a
/// spare line may be among them.
pub struct Lines {
    pub first: nat,
    pub last: nat,
}

impl<T, R, S> ViewModel<T, R, S> {
    /// The first entry of the lines.
    pub open spec fn range_start(self, lines: Lines) -> int {
        lines.first * self.row_num
    }

    /// The entry behind the last one of the lines.
    pub open spec fn range_end(self, lines: Lines) -> int {
        (lines.last + 1) * self.row_num
    }

    /// The entry `id` is on one of the lines.
    pub open spec fn drawn(self, lines: Lines, id: int) -> bool {
        self.range_start(lines) <= id < self.range_end(lines)
    }

    /// The fading entry is drawn and its time is up.
    pub open spec fn fade_ends(self, lines: Lines, over: bool) -> bool {
        match (self.back_fade_in, self.charts) {
            (Some((id, _)), Some(items)) => {
                &&& over
                &&& id < items.len() as u32
                &&& self.drawn(lines, id as int)
                &&& items[id as int].chart is Some
            },
            _ => false,
        }
    }

    /// The view after it was drawn.
    pub open spec fn rendered(self, lines: Lines, over: bool) -> Self {
        if self.fade_ends(lines, over) {
            ViewModel { back_fade_in: None, ..self }
        } else {
            self
        }
    }

    /// The time since which the entry `id` fades in.
    pub open spec fn fading(self, id: int, over: bool) -> Option<T> {
        match self.back_fade_in {
            Some((fading, start)) => if fading == id && !over {
                Some(start)
            } else {
                None
            },
            None => None,
        }
    }

    /// The card of the entry `id`.
    pub open spec fn card(self, items: Seq<ItemModel>, lines: Lines, over: bool, id: int) -> CardModel<
        T,
    > {
        if !self.drawn(lines, id) {
            CardModel::Hidden
        } else {
            match items[id].chart {
                Some(chart) => CardModel::Chart {
                    selected: items[id].selected(),
                    fade: self.fading(id, over),
                    level: labelled(chart.info.level, chart.info.difficulty),
                    name: chart.info.name,
                    symbol: items[id].symbol,
                },
                None => CardModel::Special,
            }
        }
    }

    /// The view after the card of the entry `id` was placed at `rect`.
    pub open spec fn placed(self, id: u32, rect: R) -> Self {
        match self.transit {
            Some(transit) => if transit.id == id {
                ViewModel {
                    transit: Some(TransitModel { rect: Some(rect), ..transit }),
                    ..self
                }
            } else {
                self
            },
            None => self,
        }
    }

    /// The transition, once the place of its card is known.
    pub open spec fn overlay(self) -> Option<Overlay<T, R>> {
        match self.transit {
            Some(transit) => match transit.rect {
                Some(rect) => Some(
                    Overlay { rect, start_time: transit.start_time, back: transit.back },
                ),
                None => None,
            },
            None => None,
        }
    }

    /// What the view shows.
    pub open spec fn shows(self, lines: Lines, over: bool, screen: Screen<T>) -> bool {
        match self.charts {
            None => screen is Loading,
            Some(items) => if items.len() == 0 {
                screen is Empty
            } else {
                &&& screen is Grid
                &&& screen->refresh_hint == self.can_refresh
                &&& card_models(screen->cards@) == Seq::new(
                    (items.len() as u32) as nat,
                    |id: int| self.card(items, lines, over, id),
                )
            },
        }
    }
}

impl<T: Copy, R: Copy, S> ChartsView<T, R, S> {
    /// The entries on the lines from `start_line` to `end_line`.
    pub fn charts_display_range(&self, start_line: u32, end_line: u32) -> (range: Range<u32>)
        requires
            start_line * self@.row_num <= u32::MAX,
            end_line < u32::MAX,
            (end_line + 1) * self@.row_num <= u32::MAX,
        ensures
            range.start == self@.range_start(
                (Lines { first: start_line as nat, last: end_line as nat }),
            ),
            range.end == self@.range_end(
                (Lines { first: start_line as nat, last: end_line as nat }),
            ),
    {
        (start_line * self.row_num)..((end_line + 1) * self.row_num)
    }

    /// Makes the cards of the entries, drawing those on the lines from
    /// `start_line` to `end_line`. `fade_over` says that more than the time of
    /// a fade has passed since the one under way started; a fade that is over
    /// ends when its entry is drawn.
    pub fn render(&mut self, start_line: u32, end_line: u32, fade_over: bool) -> (screen: Screen<T>)
        requires
            start_line * old(self)@.row_num <= u32::MAX,
            end_line < u32::MAX,
            (end_line + 1) * old(self)@.row_num <= u32::MAX,
        ensures
            old(self)@.shows(
                (Lines { first: start_line as nat, last: end_line as nat }),
                fade_over,
                screen,
            ),
            final(self)@ == old(self)@.rendered(
                (Lines { first: start_line as nat, last: end_line as nat }),
                fade_over,
            ),
            old(self)@.wf() ==> final(self)@.wf(),
    {
        let ghost lines = Lines { first: start_line as nat, last: end_line as nat };
        let ghost before = self@;
        let range = self.charts_display_range(start_line, end_line);
        let mut fade = self.back_fade_in;
        let screen = match &self.charts {
            None => Screen::Loading,
            Some(charts) => {
                let ghost items = item_models(charts@);
                if charts.len() == 0 {
                    Screen::Empty
                } else {
                    let count: u32 = charts.len() as u32;
                    let mut cards: Vec<Card<T>> = Vec::new();
                    for id in 0..count
                        invariant
                            count <= charts.len(),
                            count == items.len() as u32,
                            items == item_models(charts@),
                            before.charts == Some(items),
                            range.start == before.range_start(lines),
                            range.end == before.range_end(lines),
                            card_models(cards@) == Seq::new(
                                id as nat,
                                |k: int| before.card(items, lines, fade_over, k),
                            ),
                            fade == (match before.back_fade_in {
                                Some((fading, start)) => if fading < id && before.fade_ends(
                                    lines,
                                    fade_over,
                                ) {
                                    None
                                } else {
                                    Some((fading, start))
                                },
                                None => None,
                            }),
                    {
                        let ghost earlier = cards@;
                        let item = &charts[id as usize];
                        let card = if !(range.start <= id && id < range.end) {
                            Card::Hidden
                        } else {
                            match &item.chart {
                                Some(chart) => {
                                    let mut fading: Option<T> = None;
                                    if let Some((that_id, start)) = fade {
                                        if that_id == id {
                                            if fade_over {
                                                fade = None;
                                            } else {
                                                fading = Some(start);
                                            }
                                        }
                                    }
                                    Card::Chart(
                                        ChartCard {
                                            selected: item.selected(),
                                            fade: fading,
                                            level: level_label(
                                                &chart.info.level,
                                                chart.info.difficulty,
                                            ),
                                            name: chart.info.name.clone(),
                                            symbol: item.symbol,
                                        },
                                    )
                                },
                                None => Card::Special,
                            }
                        };
                        cards.push(card);
                        assert(card_models(cards@) =~= card_models(earlier).push(card@));
                    }
                    Screen::Grid { cards, refresh_hint: self.can_refresh }
                }
            },
        };
        self.back_fade_in = fade;
        screen
    }

    /// Notes that the card of the entry `id` stands at `rect`.
    pub fn place_transit(&mut self, id: u32, rect: R)
        ensures
            final(self)@ == old(self)@.placed(id, rect),
            old(self)@.wf() ==> final(self)@.wf(),
    {
        if let Some(transit) = &mut self.transit {
            if transit.id == id {
                transit.rect = Some(rect);
            }
        }
    }

    /// What is drawn above the grid: the transition, once the place of its card
    /// is known.
    pub fn render_top(&self) -> (overlay: Option<Overlay<T, R>>)
        ensures
            overlay == self@.overlay(),
    {
        if let Some(transit) = &self.transit {
            if let Some(rect) = transit.rect {
                return Some(
                    Overlay { rect, start_time: transit.start_time, back: transit.back },
                );
            }
        }
        None
    }
}

} // verus!
