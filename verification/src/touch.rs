//! A touch on the list: the entries are asked one after the other whether
//! their button was hit, until one of them ends the search.
//!
//! The buttons, the room of the multiplayer panel, the disk and the scenes are
//! outside. Each [`TouchPhase`] but the last says which of them is asked next,
//! and the method that takes up the answer returns the phase after it.
use vstd::prelude::*;
use crate::data::{mods_at, AppData, DataModel};
use crate::item::{text_of, ChartItem, ChartModel};
use crate::view::{ChartsView, TransitModel, TransitState, ViewModel};

verus! {

/// What became of a touch in the scrolling area: the area took it for itself,
/// or left it and the touch is inside of it or not.
#[derive(Clone, Copy, Debug, PartialEq, Eq, Structural)]
pub enum ScrollHit {
    Handled,
    Inside,
    Outside,
}

/// How far the search has come: the entry that is looked at, and whether the
/// list is in selection mode.
#[derive(Clone, Copy, Debug, PartialEq, Eq, Structural)]
pub struct Scan {
    pub id: usize,
    pub selecting: bool,
}

/// What a scene is made from: the chart, its directory below the charts
/// directory, if it is on disk, and the modifier bits it is played with.
#[derive(Debug, PartialEq, Eq)]
pub struct SceneRequest {
    pub chart: ChartItem,
    pub local_path: Option<String>,
    pub mods: i32,
}

/// The model of a [`SceneRequest`].
pub struct RequestModel {
    pub chart: ChartModel,
    pub local_path: Option<Seq<char>>,
    pub mods: i32,
}

impl View for SceneRequest {
    type V = RequestModel;

    open spec fn view(&self) -> RequestModel {
        RequestModel {
            chart: self.chart@,
            local_path: text_of(self.local_path),
            mods: self.mods,
        }
    }
}

/// What is asked next: whether the button of the entry was hit, to select it
/// or to tap it; whether the multiplayer panel is in a room; whether the
/// directory is on disk; for the scene. At the end it says whether the touch
/// was used up.
#[derive(Debug, PartialEq, Eq)]
pub enum TouchPhase {
    Select(Scan),
    Tap(Scan),
    Room(Scan),
    Disk(Scan, String),
    Open(Scan, SceneRequest),
    Done(bool),
}

/// The model of a [`TouchPhase`].
pub enum PhaseModel {
    Select(Scan),
    Tap(Scan),
    Room(Scan),
    Disk(Scan, Seq<char>),
    Open(Scan, RequestModel),
    Done(bool),
}

impl View for TouchPhase {
    type V = PhaseModel;

    open spec fn view(&self) -> PhaseModel {
        match self {
            TouchPhase::Select(scan) => PhaseModel::Select(*scan),
            TouchPhase::Tap(scan) => PhaseModel::Tap(*scan),
            TouchPhase::Room(scan) => PhaseModel::Room(*scan),
            TouchPhase::Disk(scan, path) => PhaseModel::Disk(*scan, path@),
            TouchPhase::Open(scan, request) => PhaseModel::Open(*scan, request@),
            TouchPhase::Done(used) => PhaseModel::Done(*used),
        }
    }
}

/// What the multiplayer panel is told: nothing, the chart to play in the room,
/// or that a chart without an id cannot be played there.
#[derive(Clone, Copy, Debug, PartialEq, Eq, Structural)]
pub enum RoomAction {
    Nothing,
    SelectChart(i32),
    RefuseLocal,
}

/// The phase that asks the first of the entries from `scan.id` on.
pub open spec fn phase_at(total: nat, scan: Scan) -> PhaseModel {
    if scan.id >= total {
        PhaseModel::Done(false)
    } else if scan.selecting {
        PhaseModel::Select(scan)
    } else {
        PhaseModel::Tap(scan)
    }
}

/// The scan of the entry behind.
pub open spec fn next_scan(scan: Scan) -> Scan {
    Scan { id: (scan.id + 1) as usize, ..scan }
}

impl PhaseModel {
    /// How many answers are needed at most, of `total` entries.
    pub open spec fn rank(self, total: nat) -> int {
        match self {
            PhaseModel::Select(scan) => 5 * (total - scan.id),
            PhaseModel::Tap(scan) => 5 * (total - scan.id) - 1,
            PhaseModel::Room(scan) => 5 * (total - scan.id) - 2,
            PhaseModel::Disk(scan, _) => 5 * (total - scan.id) - 3,
            PhaseModel::Open(scan, _) => 5 * (total - scan.id) - 4,
            PhaseModel::Done(_) => 0,
        }
    }
}

impl<T, R, S> ViewModel<T, R, S> {
    /// How many entries there are.
    pub open spec fn total(self) -> nat {
        match self.charts {
            Some(items) => items.len(),
            None => 0,
        }
    }

    /// The chart of the entry `id`.
    pub open spec fn chart_at(self, id: int) -> Option<ChartModel> {
        match self.charts {
            Some(items) => if 0 <= id < items.len() {
                items[id].chart
            } else {
                None
            },
            None => None,
        }
    }

    /// The phase is one that a touch on this view comes to.
    pub open spec fn fits(self, phase: PhaseModel) -> bool {
        match phase {
            PhaseModel::Select(scan) => scan.selecting && scan.id < self.total(),
            PhaseModel::Tap(scan) => scan.id < self.total(),
            PhaseModel::Room(scan) => self.chart_at(scan.id as int) is Some,
            PhaseModel::Disk(scan, path) => {
                &&& self.chart_at(scan.id as int) matches Some(chart)
                &&& chart.local_path is None
                &&& chart.download() == Some(path)
            },
            PhaseModel::Open(scan, request) => self.chart_at(scan.id as int) == Some(request.chart),
            PhaseModel::Done(_) => true,
        }
    }

    /// The view with the entry `id` toggled.
    pub open spec fn toggled_at(self, id: int) -> Self {
        match self.charts {
            Some(items) => ViewModel {
                charts: Some(items.update(id, items[id].toggled())),
                ..self
            },
            None => self,
        }
    }

    /// Where a touch starts.
    pub open spec fn touched(self, hit: ScrollHit, selecting: bool) -> PhaseModel {
        match hit {
            ScrollHit::Handled => PhaseModel::Done(true),
            ScrollHit::Inside => phase_at(self.total(), Scan { id: 0, selecting }),
            ScrollHit::Outside => PhaseModel::Done(false),
        }
    }

    /// The view after a button was asked in selection mode.
    pub open spec fn after_select(self, scan: Scan, hit: bool) -> (Self, PhaseModel) {
        if hit {
            (self.toggled_at(scan.id as int), PhaseModel::Done(true))
        } else {
            (self, PhaseModel::Tap(scan))
        }
    }

    /// The view after a button was asked whether it was tapped.
    pub open spec fn after_tap(self, scan: Scan, hit: bool) -> (Self, PhaseModel) {
        if !hit {
            (self, phase_at(self.total(), next_scan(scan)))
        } else if self.chart_at(scan.id as int) is Some {
            (self, PhaseModel::Room(scan))
        } else {
            (
                ViewModel { clicked_special: true, ..self },
                phase_at(self.total(), next_scan(scan)),
            )
        }
    }

    /// What the scene of the entry `id` is made from.
    pub open spec fn request(
        self,
        id: int,
        local_path: Option<Seq<char>>,
        data: DataModel,
    ) -> RequestModel {
        let chart = self.chart_at(id)->0;
        RequestModel { chart, local_path, mods: mods_at(data.charts, chart.download()) }
    }

    /// What the panel is told, and the phase, after it was asked for a room.
    pub open spec fn after_room(self, scan: Scan, in_room: bool, data: DataModel) -> (
        RoomAction,
        PhaseModel,
    ) {
        let chart = self.chart_at(scan.id as int)->0;
        if in_room {
            (
                match chart.info.id {
                    Some(id) => RoomAction::SelectChart(id),
                    None => RoomAction::RefuseLocal,
                },
                phase_at(self.total(), next_scan(scan)),
            )
        } else {
            (
                RoomAction::Nothing,
                match chart.local_path {
                    Some(path) => PhaseModel::Open(
                        scan,
                        self.request(scan.id as int, Some(path), data),
                    ),
                    None => PhaseModel::Disk(scan, chart.download()->0),
                },
            )
        }
    }

    /// The phase after the disk was asked for the download at `path`.
    pub open spec fn after_disk(
        self,
        scan: Scan,
        path: Seq<char>,
        exists: bool,
        data: DataModel,
    ) -> PhaseModel {
        PhaseModel::Open(
            scan,
            self.request(
                scan.id as int,
                if exists {
                    Some(path)
                } else {
                    None
                },
                data,
            ),
        )
    }

    /// The view after the scene of the entry was made at the time `t`: the way
    /// to it starts.
    pub open spec fn opened(self, scan: Scan, t: T, scene: S) -> Self {
        ViewModel {
            transit: Some(
                TransitModel {
                    id: scan.id as u32,
                    rect: None,
                    chart: self.chart_at(scan.id as int)->0,
                    start_time: t,
                    next_scene: Some(scene),
                    back: false,
                    done: false,
                    delete: false,
                },
            ),
            ..self
        }
    }
}

impl<T: Copy, R: Copy, S> ChartsView<T, R, S> {
    /// A touch outside of selection mode.
    pub fn touch(&mut self, hit: ScrollHit) -> (phase: TouchPhase)
        ensures
            phase@ == old(self)@.touched(hit, false),
            final(self)@ == (ViewModel { ensure_delete: false, ..old(self)@ }),
            final(self)@.fits(phase@),
            old(self)@.wf() ==> final(self)@.wf(),
    {
        self.touch_with_select(hit, false, false)
    }

    /// A touch, `is_selecting` saying whether the list is in selection mode and
    /// `ensure_delete` whether deletions are confirmed.
    pub fn touch_with_select(
        &mut self,
        hit: ScrollHit,
        is_selecting: bool,
        ensure_delete: bool,
    ) -> (phase: TouchPhase)
        ensures
            phase@ == old(self)@.touched(hit, is_selecting),
            final(self)@ == (ViewModel { ensure_delete, ..old(self)@ }),
            final(self)@.fits(phase@),
            old(self)@.wf() ==> final(self)@.wf(),
    {
        self.check_delete(ensure_delete);
        match hit {
            ScrollHit::Handled => TouchPhase::Done(true),
            ScrollHit::Inside => self.phase_at(Scan { id: 0, selecting: is_selecting }),
            ScrollHit::Outside => TouchPhase::Done(false),
        }
    }

    fn phase_at(&self, scan: Scan) -> (phase: TouchPhase)
        ensures
            phase@ == phase_at(self@.total(), scan),
    {
        let total: usize = match &self.charts {
            Some(charts) => charts.len(),
            None => 0,
        };
        if scan.id >= total {
            TouchPhase::Done(false)
        } else if scan.selecting {
            TouchPhase::Select(scan)
        } else {
            TouchPhase::Tap(scan)
        }
    }

    fn phase_behind(&self, scan: Scan) -> (phase: TouchPhase)
        requires
            scan.id < self@.total(),
        ensures
            phase@ == phase_at(self@.total(), next_scan(scan)),
            phase@.rank(self@.total()) < 5 * (self@.total() - scan.id) - 4,
            self@.fits(phase@),
    {
        let total: usize = match &self.charts {
            Some(charts) => charts.len(),
            None => 0,
        };
        assert(scan.id < total);
        self.phase_at(Scan { id: scan.id + 1, selecting: scan.selecting })
    }

    /// Takes up whether the button was hit in selection mode: the entry is
    /// toggled then.
    pub fn on_select(&mut self, scan: Scan, hit: bool) -> (phase: TouchPhase)
        requires
            old(self)@.fits(PhaseModel::Select(scan)),
        ensures
            (final(self)@, phase@) == old(self)@.after_select(scan, hit),
            final(self)@.fits(phase@),
            phase@.rank(old(self)@.total()) < PhaseModel::Select(scan).rank(old(self)@.total()),
            old(self)@.wf() ==> final(self)@.wf(),
    {
        if !hit {
            return TouchPhase::Tap(scan);
        }
        if let Some(charts) = &mut self.charts {
            charts[scan.id].toggle();
        }
        TouchPhase::Done(true)
    }

    /// Takes up whether the button was tapped: a tapped chart is opened, unless
    /// the multiplayer panel is in a room; a tap on the special entry is noted.
    pub fn on_tap(&mut self, scan: Scan, hit: bool) -> (phase: TouchPhase)
        requires
            old(self)@.fits(PhaseModel::Tap(scan)),
        ensures
            (final(self)@, phase@) == old(self)@.after_tap(scan, hit),
            final(self)@.fits(phase@),
            phase@.rank(old(self)@.total()) < PhaseModel::Tap(scan).rank(old(self)@.total()),
            old(self)@.wf() ==> final(self)@.wf(),
    {
        if hit {
            if let Some(charts) = &self.charts {
                if charts[scan.id].chart.is_some() {
                    return TouchPhase::Room(scan);
                }
            }
            self.clicked_special = true;
        }
        self.phase_behind(scan)
    }

    fn scene_request(&self, id: usize, local_path: Option<String>, data: &AppData) -> (request:
        SceneRequest)
        requires
            self@.chart_at(id as int) is Some,
        ensures
            request@ == self@.request(id as int, text_of(local_path), data@),
    {
        let chart = self.chart(id);
        let mods: i32 = data.mods_at(&chart.download());
        SceneRequest { chart, local_path, mods }
    }

    /// A copy of the chart of the entry `id`.
    fn chart(&self, id: usize) -> (chart: ChartItem)
        requires
            self@.chart_at(id as int) is Some,
        ensures
            Some(chart@) == self@.chart_at(id as int),
    {
        let charts = self.charts.as_ref().unwrap();
        charts[id].chart.as_ref().unwrap().clone()
    }

    /// Takes up whether the multiplayer panel is in a room: the chart is chosen
    /// there then, and else it is opened from its directory.
    pub fn on_room(&self, scan: Scan, in_room: bool, data: &AppData) -> (outcome: (
        RoomAction,
        TouchPhase,
    ))
        requires
            self@.fits(PhaseModel::Room(scan)),
            !in_room ==> self@.chart_at(scan.id as int)->0.openable(),
        ensures
            (outcome.0, outcome.1@) == self@.after_room(scan, in_room, data@),
            self@.fits(outcome.1@),
            outcome.1@.rank(self@.total()) < PhaseModel::Room(scan).rank(self@.total()),
    {
        let chart = self.chart(scan.id);
        if in_room {
            let action = match chart.info.id {
                Some(id) => RoomAction::SelectChart(id),
                None => RoomAction::RefuseLocal,
            };
            (action, self.phase_behind(scan))
        } else {
            let phase = match chart.local_path {
                Some(path) => TouchPhase::Open(
                    scan,
                    self.scene_request(scan.id, Some(path), data),
                ),
                None => TouchPhase::Disk(scan, chart.download().unwrap()),
            };
            (RoomAction::Nothing, phase)
        }
    }

    /// Takes up whether the download at `path` is on disk.
    pub fn on_disk(&self, scan: Scan, path: String, exists: bool, data: &AppData) -> (phase:
        TouchPhase)
        requires
            self@.fits(PhaseModel::Disk(scan, path@)),
        ensures
            phase@ == self@.after_disk(scan, path@, exists, data@),
            self@.fits(phase@),
            phase@.rank(self@.total()) < PhaseModel::Disk(scan, path@).rank(self@.total()),
    {
        let local_path = if exists {
            Some(path)
        } else {
            None
        };
        TouchPhase::Open(scan, self.scene_request(scan.id, local_path, data))
    }

    /// Takes up the scene that was made for the request: the way to the chart
    /// starts at the time `t`, and the touch is used up.
    pub fn on_scene(&mut self, scan: Scan, request: SceneRequest, t: T, scene: S) -> (phase:
        TouchPhase)
        requires
            old(self)@.fits(PhaseModel::Open(scan, request@)),
        ensures
            phase@ == PhaseModel::Done(true),
            final(self)@ == old(self)@.opened(scan, t, scene),
            old(self)@.wf() ==> final(self)@.wf(),
    {
        self.transit = Some(
            TransitState {
                id: scan.id as u32,
                rect: None,
                chart: request.chart,
                start_time: t,
                next_scene: Some(scene),
                back: false,
                done: false,
                delete: false,
            },
        );
        TouchPhase::Done(true)
    }
}

} // verus!
