//! The charts of the list and the entries that stand for them.
use vstd::prelude::*;
use crate::text::{download_path, download_text};

verus! {

/// Where a chart came from.
#[derive(Clone, Copy, Debug, PartialEq, Eq, Structural)]
pub enum ChartType {
    Downloaded,
    Imported,
    Integrated,
}

/// What a card shows of a chart. `difficulty` is the whole part of the chart's
/// difficulty.
#[derive(Debug, PartialEq, Eq)]
pub struct ChartInfo {
    pub id: Option<i32>,
    pub name: String,
    pub level: String,
    pub difficulty: i32,
}

/// The model of a [`ChartInfo`].
pub struct InfoModel {
    pub id: Option<i32>,
    pub name: Seq<char>,
    pub level: Seq<char>,
    pub difficulty: i32,
}

impl View for ChartInfo {
    type V = InfoModel;

    open spec fn view(&self) -> InfoModel {
        InfoModel {
            id: self.id,
            name: self.name@,
            level: self.level@,
            difficulty: self.difficulty,
        }
    }
}

impl Clone for ChartInfo {
    fn clone(&self) -> (copy: Self)
        ensures
            copy == *self,
    {
        ChartInfo {
            id: self.id,
            name: self.name.clone(),
            level: self.level.clone(),
            difficulty: self.difficulty,
        }
    }
}

/// A chart of the list. `local_path` is its directory below the charts
/// directory, where it is known to have one.
#[derive(Debug, PartialEq, Eq)]
pub struct ChartItem {
    pub info: ChartInfo,
    pub local_path: Option<String>,
    pub chart_type: ChartType,
}

/// The model of a [`ChartItem`].
pub struct ChartModel {
    pub info: InfoModel,
    pub local_path: Option<Seq<char>>,
    pub chart_type: ChartType,
}

/// The characters of a text that may be missing.
pub open spec fn text_of(text: Option<String>) -> Option<Seq<char>> {
    match text {
        Some(s) => Some(s@),
        None => None,
    }
}

impl View for ChartItem {
    type V = ChartModel;

    open spec fn view(&self) -> ChartModel {
        ChartModel {
            info: self.info@,
            local_path: text_of(self.local_path),
            chart_type: self.chart_type,
        }
    }
}

impl Clone for ChartItem {
    fn clone(&self) -> (copy: Self)
        ensures
            copy == *self,
    {
        ChartItem {
            info: self.info.clone(),
            local_path: match &self.local_path {
                Some(path) => Some(path.clone()),
                None => None,
            },
            chart_type: self.chart_type,
        }
    }
}

impl ChartModel {
    /// The path of the chart's download, where it has an id.
    pub open spec fn download(self) -> Option<Seq<char>> {
        match self.info.id {
            Some(id) => Some(download_text(id)),
            None => None,
        }
    }

    /// The directory that is deleted for the chart: its local path, or else
    /// the download of its id, an absent id counting as 0.
    pub open spec fn deletable(self) -> Seq<char> {
        match (self.local_path, self.info.id) {
            (Some(path), _) => path,
            (None, Some(id)) => download_text(id),
            (None, None) => download_text(0),
        }
    }

    /// The chart can be opened: a directory for it can be named.
    pub open spec fn openable(self) -> bool {
        self.local_path is Some || self.info.id is Some
    }
}

impl ChartItem {
    /// The path of the chart's download, where it has an id.
    pub fn download(&self) -> (path: Option<String>)
        ensures
            text_of(path) == self@.download(),
    {
        match self.info.id {
            Some(id) => Some(download_path(id)),
            None => None,
        }
    }

    /// The directory that is deleted for the chart.
    pub fn deletable(&self) -> (path: String)
        ensures
            path@ == self@.deletable(),
    {
        match &self.local_path {
            Some(path) => path.clone(),
            None => match self.info.id {
                Some(id) => download_path(id),
                None => download_path(0),
            },
        }
    }
}

/// A chart as the server lists it.
#[derive(Debug, PartialEq, Eq)]
pub struct Chart {
    pub info: ChartInfo,
    pub stable_request: bool,
    pub reviewed: bool,
}

/// An entry of the list: a chart, or the special entry where there is none.
/// `is_selected` is unset until the entry is first toggled.
#[derive(Debug, PartialEq, Eq)]
pub struct ChartDisplayItem {
    pub chart: Option<ChartItem>,
    pub symbol: Option<char>,
    pub is_selected: Option<bool>,
}

/// The model of a [`ChartDisplayItem`].
pub struct ItemModel {
    pub chart: Option<ChartModel>,
    pub symbol: Option<char>,
    pub is_selected: Option<bool>,
}

/// The model of a chart that may be missing.
pub open spec fn chart_of(chart: Option<ChartItem>) -> Option<ChartModel> {
    match chart {
        Some(c) => Some(c@),
        None => None,
    }
}

impl View for ChartDisplayItem {
    type V = ItemModel;

    open spec fn view(&self) -> ItemModel {
        ItemModel {
            chart: chart_of(self.chart),
            symbol: self.symbol,
            is_selected: self.is_selected,
        }
    }
}

/// The mark on the card of a listed chart: `+` while it asks to be made
/// stable, else `*` while it is not reviewed.
pub open spec fn symbol_for(stable_request: bool, reviewed: bool) -> Option<char> {
    if stable_request {
        Some('+')
    } else if !reviewed {
        Some('*')
    } else {
        None
    }
}

impl ItemModel {
    pub open spec fn selected(self) -> bool {
        self.is_selected == Some(true)
    }

    /// The entry after a tap in selection mode.
    pub open spec fn toggled(self) -> ItemModel {
        ItemModel { is_selected: Some(!self.selected()), ..self }
    }
}

impl ChartDisplayItem {
    /// An entry that has not been selected.
    pub fn new(chart: Option<ChartItem>, symbol: Option<char>) -> (item: Self)
        ensures
            item@ == (ItemModel { chart: chart_of(chart), symbol, is_selected: None }),
    {
        ChartDisplayItem { chart, symbol, is_selected: None }
    }

    /// The entry for a chart of the server.
    pub fn from_remote(chart: &Chart) -> (item: Self)
        ensures
            item@ == (ItemModel {
                chart: Some(
                    ChartModel {
                        info: chart.info@,
                        local_path: None,
                        chart_type: ChartType::Downloaded,
                    },
                ),
                symbol: symbol_for(chart.stable_request, chart.reviewed),
                is_selected: None,
            }),
    {
        Self::new(
            Some(
                ChartItem {
                    info: chart.info.clone(),
                    local_path: None,
                    chart_type: ChartType::Downloaded,
                },
            ),
            if chart.stable_request {
                Some('+')
            } else if !chart.reviewed {
                Some('*')
            } else {
                None
            },
        )
    }

    /// Whether the entry is selected.
    pub fn selected(&self) -> (yes: bool)
        ensures
            yes == self@.selected(),
    {
        match self.is_selected {
            Some(on) => on,
            None => false,
        }
    }

    /// Selects the entry, or deselects it where it is selected.
    pub fn toggle(&mut self)
        ensures
            final(self)@ == old(self)@.toggled(),
    {
        self.is_selected = Some(!self.selected());
    }
}

/// Toggling an entry flips whether it is selected, and toggling it twice
/// brings that back; nothing else about the entry changes.
pub proof fn toggling_twice_restores(item: ItemModel)
    ensures
        item.toggled().selected() == !item.selected(),
        item.toggled().toggled().selected() == item.selected(),
        item.toggled().toggled().chart == item.chart,
        item.toggled().toggled().symbol == item.symbol,
{
}

/// The directory that is deleted for a chart without a local path is the one
/// that it is downloaded to.
pub proof fn deletes_what_was_downloaded(chart: ChartModel)
    requires
        chart.local_path is None,
        chart.info.id is Some,
    ensures
        chart.download() == Some(chart.deletable()),
{
}

} // verus!
