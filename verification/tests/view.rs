use charts_view::data::{AppData, SavedChart};
use charts_view::item::{ChartDisplayItem, ChartInfo, ChartItem, ChartType};
use charts_view::render::{Card, ChartCard, Overlay, Screen};
use charts_view::touch::{RoomAction, Scan, ScrollHit, TouchPhase};
use charts_view::view::ChartsView;

type Grid = ChartsView<f32, (f32, f32), &'static str>;

fn chart(id: Option<i32>, local_path: Option<&str>) -> ChartItem {
    ChartItem {
        info: ChartInfo {
            id,
            name: "Name".to_string(),
            level: "IN".to_string(),
            difficulty: 12,
        },
        local_path: local_path.map(|p| p.to_string()),
        chart_type: ChartType::Downloaded,
    }
}

fn entry(id: Option<i32>, local_path: Option<&str>) -> ChartDisplayItem {
    ChartDisplayItem::new(Some(chart(id, local_path)), None)
}

fn special() -> ChartDisplayItem {
    ChartDisplayItem::new(None, None)
}

/// A local chart, a downloaded one, the special entry and a chart without id.
fn grid() -> Grid {
    let mut view = Grid::new();
    view.set(vec![
        entry(Some(1), Some("custom/a")),
        entry(Some(2), None),
        special(),
        entry(None, Some("custom/d")),
    ]);
    view
}

fn no_data() -> AppData {
    AppData {
        charts: Vec::new(),
        need_update: false,
    }
}

fn saved(path: &str, mods: i32) -> SavedChart {
    SavedChart {
        local_path: path.to_string(),
        mods,
    }
}

fn strings(list: &[&str]) -> Vec<String> {
    list.iter().map(|s| s.to_string()).collect()
}

fn idle(view: &mut Grid, t: f32, over: bool, data: &mut AppData) -> Option<Vec<String>> {
    view.update::<String>(t, over, false, data, None).batch.job
}

/// Opens the entry `id` at the time `t`.
fn open(view: &mut Grid, id: usize, t: f32) {
    let scan = Scan { id, selecting: false };
    let item = view.charts.as_ref().unwrap()[id].chart.as_ref().unwrap();
    let request = charts_view::touch::SceneRequest {
        chart: item.clone(),
        local_path: None,
        mods: 0,
    };
    assert_eq!(view.on_scene(scan, request, t, "scene"), TouchPhase::Done(true));
}

#[test]
fn new_view() {
    let view = Grid::new();
    assert!(view.charts.is_none());
    assert_eq!(view.row_num, 4);
    assert!(view.can_refresh);
    assert!(!view.clicked_special);
    assert!(!view.ensure_delete);
    assert!(!view.delete_task);
    assert_eq!(view.pending_delete_paths, None);
    assert_eq!(view.back_fade_in, None);
    assert!(!view.transiting());
}

#[test]
fn set_and_clear() {
    let mut view = grid();
    assert_eq!(view.charts.as_ref().unwrap().len(), 4);
    view.clear();
    assert!(view.charts.is_none());
}

#[test]
fn scene_comes_once_after_the_way() {
    let mut view = grid();
    let mut data = no_data();
    open(&mut view, 1, 1.0);
    assert!(view.transiting());
    assert_eq!(view.next_scene(), None);
    idle(&mut view, 1.2, false, &mut data);
    assert_eq!(view.next_scene(), None);
    idle(&mut view, 1.5, true, &mut data);
    assert_eq!(view.next_scene(), Some("scene"));
    assert_eq!(view.next_scene(), None);
    idle(&mut view, 1.6, true, &mut data);
    assert_eq!(view.next_scene(), None);
    assert!(view.transiting());
}

#[test]
fn leaving_a_chart_fades_it_in() {
    let mut view = grid();
    let mut data = no_data();
    open(&mut view, 1, 1.0);
    idle(&mut view, 1.5, true, &mut data);
    assert_eq!(view.next_scene(), Some("scene"));
    view.on_result(3.0, false);
    let transit = view.transit.as_ref().unwrap();
    assert!(transit.back && !transit.done && !transit.delete);
    assert_eq!(transit.start_time, 3.0);
    idle(&mut view, 3.1, false, &mut data);
    assert!(view.transiting());
    assert_eq!(idle(&mut view, 3.5, true, &mut data), None);
    assert!(!view.transiting());
    assert_eq!(view.back_fade_in, Some((1, 3.5)));
}

#[test]
fn leaving_a_chart_deletes_it_when_confirmed() {
    let mut view = grid();
    let mut data = AppData {
        charts: vec![saved("download/9", 0), saved("download/2", 1)],
        need_update: false,
    };
    open(&mut view, 1, 1.0);
    view.check_delete(true);
    view.on_result(3.0, true);
    let outcome = view.update::<String>(3.5, true, false, &mut data, None);
    assert_eq!(outcome.batch.count, 1);
    assert_eq!(outcome.batch.job, Some(strings(&["download/2"])));
    assert!(!view.transiting());
    assert!(!view.ensure_delete);
    assert_eq!(view.back_fade_in, None);
    assert_eq!(view.pending_delete_paths, Some(strings(&["download/2"])));
    let outcome = view.update::<String>(4.0, false, false, &mut data, Some(Ok(1)));
    assert_eq!(outcome.report.message, Some("Deleted 1 chart(s)".to_string()));
    assert!(outcome.report.save);
    assert_eq!(outcome.report.error, None);
    assert_eq!(data.charts, vec![saved("download/9", 0)]);
    assert!(view.need_update(&mut data));
    assert!(!view.need_update(&mut data));
}

#[test]
fn leaving_a_chart_deletes_nothing_unconfirmed() {
    let mut view = grid();
    let mut data = no_data();
    open(&mut view, 1, 1.0);
    view.on_result(3.0, true);
    assert_eq!(idle(&mut view, 3.5, true, &mut data), None);
    assert!(!view.transiting());
    assert!(!view.delete_task);
    assert_eq!(view.pending_delete_paths, None);
    assert_eq!(view.back_fade_in, None);
}

#[test]
fn a_result_without_a_chart_is_ignored() {
    let mut view = grid();
    view.on_result(3.0, true);
    assert!(!view.transiting());
}

#[test]
fn pulling_refreshes() {
    let mut view = grid();
    let mut data = no_data();
    assert!(view.update::<String>(0.0, false, true, &mut data, None).refreshed);
    assert!(!view.update::<String>(0.0, false, false, &mut data, None).refreshed);
    view.can_refresh = false;
    assert!(!view.update::<String>(0.0, false, true, &mut data, None).refreshed);
}

#[test]
fn batch_lists_directories() {
    let mut view = grid();
    let batch = view.delete_charts_batch(vec![3, 2, 0, 17, 1]);
    let paths = strings(&["custom/d", "custom/a", "download/2"]);
    assert_eq!(batch.count, 3);
    assert_eq!(batch.job, Some(paths.clone()));
    assert_eq!(view.pending_delete_paths, Some(paths));
    assert!(view.delete_task);
}

#[test]
fn batch_of_nothing_changes_nothing() {
    let mut view = grid();
    view.delete_charts_batch(vec![0]);
    let batch = view.delete_charts_batch(vec![]);
    assert_eq!((batch.count, batch.job), (0, None));
    let batch = view.delete_charts_batch(vec![2, 99]);
    assert_eq!((batch.count, batch.job), (0, None));
    assert_eq!(view.pending_delete_paths, Some(strings(&["custom/a"])));
    let mut loading = Grid::new();
    assert_eq!(loading.delete_charts_batch(vec![0]).count, 0);
    assert!(!loading.delete_task);
}

#[test]
fn results_without_a_task_are_ignored() {
    let mut view = grid();
    let mut data = AppData {
        charts: vec![saved("custom/a", 0)],
        need_update: false,
    };
    let report = view.process_delete_task::<String>(&mut data, Some(Ok(3)));
    assert!(!report.save);
    assert_eq!(report.message, None);
    assert_eq!(report.error, None);
    assert_eq!(data.charts.len(), 1);
    assert!(!data.need_update);
}

#[test]
fn deletion_that_removed_nothing() {
    let mut view = grid();
    let mut data = AppData {
        charts: vec![saved("custom/a", 0), saved("custom/b", 0)],
        need_update: false,
    };
    view.delete_charts_batch(vec![0]);
    let report = view.process_delete_task::<String>(&mut data, Some(Ok(0)));
    assert!(!report.save);
    assert_eq!(report.message, None);
    assert_eq!(data.charts, vec![saved("custom/b", 0)]);
    assert!(!data.need_update);
    assert_eq!(view.pending_delete_paths, None);
}

#[test]
fn deletion_that_failed() {
    let mut view = grid();
    let mut data = AppData {
        charts: vec![saved("custom/a", 0)],
        need_update: false,
    };
    view.delete_charts_batch(vec![0]);
    let report = view.process_delete_task(&mut data, Some(Err("no directory".to_string())));
    assert_eq!(report.error, Some("no directory".to_string()));
    assert!(!report.save);
    assert_eq!(data.charts.len(), 1);
    assert_eq!(view.pending_delete_paths, None);
}

#[test]
fn deletion_is_settled_once() {
    let mut view = grid();
    let mut data = AppData {
        charts: vec![saved("custom/a", 0), saved("custom/a", 1)],
        need_update: false,
    };
    view.delete_charts_batch(vec![0]);
    assert!(!view.process_delete_task::<String>(&mut data, None).save);
    assert_eq!(data.charts.len(), 2);
    assert!(view.process_delete_task::<String>(&mut data, Some(Ok(1))).save);
    assert_eq!(data.charts, vec![saved("custom/a", 1)]);
    assert!(!view.process_delete_task::<String>(&mut data, Some(Ok(1))).save);
    assert_eq!(data.charts.len(), 1);
}

#[test]
fn selection() {
    let mut view = grid();
    assert_eq!(view.get_selected_indices(), Vec::<u32>::new());
    for id in [3, 0, 2] {
        let scan = Scan { id, selecting: true };
        assert_eq!(view.on_select(scan, true), TouchPhase::Done(true));
    }
    assert_eq!(view.get_selected_indices(), vec![0, 2, 3]);
    view.on_select(Scan { id: 2, selecting: true }, true);
    assert_eq!(view.get_selected_indices(), vec![0, 3]);
    let selected = view.get_selected_indices();
    assert_eq!(view.delete_charts_batch(selected).job, Some(strings(&["custom/a", "custom/d"])));
    assert_eq!(Grid::new().get_selected_indices(), Vec::<u32>::new());
}

#[test]
fn touch_starts() {
    let mut view = grid();
    view.check_delete(true);
    assert_eq!(view.touch(ScrollHit::Handled), TouchPhase::Done(true));
    assert!(!view.ensure_delete);
    assert_eq!(view.touch(ScrollHit::Outside), TouchPhase::Done(false));
    assert_eq!(view.touch(ScrollHit::Inside), TouchPhase::Tap(Scan { id: 0, selecting: false }));
    assert_eq!(
        view.touch_with_select(ScrollHit::Inside, true, true),
        TouchPhase::Select(Scan { id: 0, selecting: true })
    );
    assert!(view.ensure_delete);
    assert_eq!(Grid::new().touch(ScrollHit::Inside), TouchPhase::Done(false));
}

#[test]
fn touch_in_selection_mode() {
    let mut view = grid();
    let s = |id| Scan { id, selecting: true };
    assert_eq!(view.on_select(s(0), false), TouchPhase::Tap(s(0)));
    assert_eq!(view.on_tap(s(0), false), TouchPhase::Select(s(1)));
    assert_eq!(view.on_select(s(1), true), TouchPhase::Done(true));
    assert_eq!(view.get_selected_indices(), vec![1]);
}

#[test]
fn touch_that_hits_nothing() {
    let mut view = grid();
    let s = |id| Scan { id, selecting: false };
    for id in 0..3 {
        assert_eq!(view.on_tap(s(id), false), TouchPhase::Tap(s(id + 1)));
    }
    assert_eq!(view.on_tap(s(3), false), TouchPhase::Done(false));
    assert!(!view.clicked_special);
}

#[test]
fn touch_on_the_special_entry() {
    let mut view = grid();
    let s = |id| Scan { id, selecting: false };
    assert_eq!(view.on_tap(s(2), true), TouchPhase::Tap(s(3)));
    assert!(view.clicked_special);
}

#[test]
fn touch_opens_a_local_chart() {
    let mut view = grid();
    let scan = Scan { id: 0, selecting: false };
    let data = AppData {
        charts: vec![saved("custom/a", 3), saved("download/1", 5)],
        need_update: false,
    };
    assert_eq!(view.on_tap(scan, true), TouchPhase::Room(scan));
    let (action, phase) = view.on_room(scan, false, &data);
    assert_eq!(action, RoomAction::Nothing);
    match phase {
        TouchPhase::Open(at, request) => {
            assert_eq!(at, scan);
            assert_eq!(request.local_path, Some("custom/a".to_string()));
            assert_eq!(request.mods, 5);
            assert_eq!(request.chart, chart(Some(1), Some("custom/a")));
            assert_eq!(view.on_scene(scan, request, 2.0, "song"), TouchPhase::Done(true));
        }
        other => panic!("{:?}", other),
    }
    let transit = view.transit.as_ref().unwrap();
    assert_eq!(transit.id, 0);
    assert_eq!(transit.rect, None);
    assert_eq!(transit.start_time, 2.0);
    assert_eq!(transit.next_scene, Some("song"));
    assert!(!transit.back && !transit.done && !transit.delete);
}

#[test]
fn touch_opens_a_download() {
    let view = grid();
    let scan = Scan { id: 1, selecting: false };
    let data = AppData {
        charts: vec![saved("download/2", 4)],
        need_update: false,
    };
    let path = "download/2".to_string();
    assert_eq!(view.on_room(scan, false, &data), (RoomAction::Nothing, TouchPhase::Disk(scan, path.clone())));
    match view.on_disk(scan, path.clone(), true, &data) {
        TouchPhase::Open(_, request) => {
            assert_eq!(request.local_path, Some(path.clone()));
            assert_eq!(request.mods, 4);
        }
        other => panic!("{:?}", other),
    }
    match view.on_disk(scan, path, false, &no_data()) {
        TouchPhase::Open(_, request) => {
            assert_eq!(request.local_path, None);
            assert_eq!(request.mods, 0);
        }
        other => panic!("{:?}", other),
    }
}

#[test]
fn touch_in_a_room() {
    let view = grid();
    let data = no_data();
    let s = |id| Scan { id, selecting: false };
    assert_eq!(view.on_room(s(1), true, &data), (RoomAction::SelectChart(2), TouchPhase::Tap(s(2))));
    assert_eq!(view.on_room(s(3), true, &data), (RoomAction::RefuseLocal, TouchPhase::Done(false)));
    assert!(!view.transiting());
}

#[test]
fn display_range() {
    let mut view = grid();
    assert_eq!(view.charts_display_range(0, 2), 0..12);
    assert_eq!(view.charts_display_range(2, 3), 8..16);
    view.row_num = 3;
    assert_eq!(view.charts_display_range(1, 1), 3..6);
}

#[test]
fn screens() {
    let mut view = Grid::new();
    assert_eq!(view.render(0, 2, false), Screen::Loading);
    view.set(vec![]);
    assert_eq!(view.render(0, 2, false), Screen::Empty);
}

fn card(selected: bool, fade: Option<f32>) -> Card<f32> {
    Card::Chart(ChartCard {
        selected,
        fade,
        level: "IN Lv.12".to_string(),
        name: "Name".to_string(),
        symbol: None,
    })
}

fn grid_of(cards: Vec<Card<f32>>) -> Screen<f32> {
    Screen::Grid { cards, refresh_hint: true }
}

#[test]
fn refresh_hint() {
    let mut view = grid();
    assert!(matches!(view.render(0, 0, false), Screen::Grid { refresh_hint: true, .. }));
    view.can_refresh = false;
    assert!(matches!(view.render(0, 0, false), Screen::Grid { refresh_hint: false, .. }));
}

#[test]
fn cards_on_the_visible_lines() {
    let mut view = grid();
    view.row_num = 1;
    view.on_select(Scan { id: 1, selecting: true }, true);
    assert_eq!(view.render(1, 2, false), grid_of(vec![Card::Hidden, card(true, None), Card::Special, Card::Hidden]));
}

#[test]
fn fading_entry() {
    let mut view = grid();
    view.back_fade_in = Some((1, 3.5));
    let faded = grid_of(vec![card(false, None), card(false, Some(3.5)), Card::Special, card(false, None)]);
    assert_eq!(view.render(0, 0, false), faded);
    assert_eq!(view.back_fade_in, Some((1, 3.5)));
    let over = grid_of(vec![card(false, None), card(false, None), Card::Special, card(false, None)]);
    assert_eq!(view.render(0, 0, true), over);
    assert_eq!(view.back_fade_in, None);
}

#[test]
fn hidden_or_special_entries_keep_the_fade() {
    let mut view = grid();
    view.row_num = 1;
    view.back_fade_in = Some((1, 3.5));
    view.render(2, 3, true);
    assert_eq!(view.back_fade_in, Some((1, 3.5)));
    view.back_fade_in = Some((2, 3.5));
    view.render(0, 3, true);
    assert_eq!(view.back_fade_in, Some((2, 3.5)));
}

#[test]
fn overlay_needs_a_place() {
    let mut view = grid();
    assert_eq!(view.render_top(), None);
    open(&mut view, 1, 1.0);
    assert_eq!(view.render_top(), None);
    view.place_transit(0, (1.0, 1.0));
    assert_eq!(view.render_top(), None);
    view.place_transit(1, (2.0, 3.0));
    assert_eq!(
        view.render_top(),
        Some(Overlay {
            rect: (2.0, 3.0),
            start_time: 1.0,
            back: false
        })
    );
    view.on_result(4.0, false);
    assert_eq!(
        view.render_top(),
        Some(Overlay {
            rect: (2.0, 3.0),
            start_time: 4.0,
            back: true
        })
    );
}

#[test]
fn listed_charts_are_forgotten_in_order() {
    let mut view = grid();
    let mut data = AppData {
        charts: vec![saved("x", 1), saved("custom/d", 2), saved("y", 3), saved("custom/a", 4), saved("z", 5)],
        need_update: false,
    };
    view.delete_charts_batch(vec![0, 1, 3]);
    let report = view.process_delete_task::<String>(&mut data, Some(Ok(2)));
    assert_eq!(report.message, Some("Deleted 2 chart(s)".to_string()));
    assert_eq!(data.charts, vec![saved("x", 1), saved("y", 3), saved("z", 5)]);
    assert!(data.need_update);
}

#[test]
fn touch_passes_special_entries_and_opens_the_first_chart() {
    let mut view = Grid::new();
    view.set(vec![special(), entry(Some(8), None), entry(Some(9), None)]);
    let data = no_data();
    let mut phase = view.touch(ScrollHit::Inside);
    let mut asked = 0;
    let path = loop {
        phase = match phase {
            TouchPhase::Tap(scan) => view.on_tap(scan, true),
            TouchPhase::Room(scan) => view.on_room(scan, false, &data).1,
            TouchPhase::Disk(_, path) => break path,
            other => panic!("{:?}", other),
        };
        asked += 1;
    };
    assert_eq!(asked, 3);
    assert_eq!(path, "download/8");
    assert!(view.clicked_special);
    assert_eq!(view.get_selected_indices(), Vec::<u32>::new());
}

#[test]
fn toggling_twice_gives_the_same_selection() {
    let mut view = grid();
    view.on_select(Scan { id: 0, selecting: true }, true);
    let before = view.get_selected_indices();
    for _ in 0..2 {
        view.on_select(Scan { id: 2, selecting: true }, true);
    }
    assert_eq!(view.get_selected_indices(), before);
    assert_eq!(before, vec![0]);
}

#[test]
fn batch_counts_add_up() {
    let count = |indices: Vec<u32>| grid().delete_charts_batch(indices).count;
    assert_eq!(count(vec![0, 2, 1]) + count(vec![3, 9, 0]), count(vec![0, 2, 1, 3, 9, 0]));
    assert_eq!(count(vec![0, 2, 1, 3, 9, 0]), 4);
    assert_eq!(count(vec![9, 3, 0, 0, 1, 2]), 4);
}

#[test]
fn later_end_line_draws_no_less() {
    let view = grid();
    let short = view.charts_display_range(2, 3);
    let tall = view.charts_display_range(2, 6);
    assert_eq!(short.start, tall.start);
    assert!(short.end <= tall.end);
    assert_eq!(tall, 8..28);
}

#[test]
fn room_is_asked_for_each_tapped_chart() {
    let mut view = Grid::new();
    view.set(vec![entry(Some(8), None), entry(Some(9), None)]);
    let data = no_data();
    let s = |id| Scan { id, selecting: false };
    assert_eq!(view.on_tap(s(0), true), TouchPhase::Room(s(0)));
    assert_eq!(view.on_room(s(0), true, &data), (RoomAction::SelectChart(8), TouchPhase::Tap(s(1))));
    assert_eq!(view.on_tap(s(1), true), TouchPhase::Room(s(1)));
    assert_eq!(
        view.on_room(s(1), false, &data),
        (RoomAction::Nothing, TouchPhase::Disk(s(1), "download/9".to_string()))
    );
}

#[test]
fn scene_comes_once_whatever_is_updated_and_asked() {
    let mut view = grid();
    let mut data = no_data();
    open(&mut view, 1, 1.0);
    let mut handed = Vec::new();
    for (over, ask) in [(false, true), (false, true), (true, false), (false, true), (true, true), (true, true)] {
        idle(&mut view, 2.0, over, &mut data);
        if ask {
            handed.push(view.next_scene());
        }
    }
    assert_eq!(handed, vec![None, None, Some("scene"), None, None]);
}

#[test]
fn no_scene_after_leaving() {
    let mut view = grid();
    let mut data = no_data();
    open(&mut view, 1, 1.0);
    idle(&mut view, 1.5, true, &mut data);
    view.on_result(2.0, false);
    for over in [false, true, false, true] {
        assert_eq!(view.next_scene(), None);
        idle(&mut view, 2.5, over, &mut data);
    }
    assert_eq!(view.next_scene(), None);
}

#[test]
fn a_pass_over_the_grid_places_the_transition() {
    let mut view = grid();
    open(&mut view, 1, 1.0);
    for id in 0..4u32 {
        view.place_transit(id, (id as f32, 7.0));
    }
    let transit = view.transit.as_ref().unwrap();
    assert_eq!(transit.rect, Some((1.0, 7.0)));
    assert_eq!(transit.start_time, 1.0);
    open(&mut view, 3, 2.0);
    for id in 0..3u32 {
        view.place_transit(id, (id as f32, 7.0));
    }
    assert_eq!(view.transit.as_ref().unwrap().rect, None);
}
