use charts_view::item::{Chart, ChartDisplayItem, ChartInfo, ChartItem, ChartType};

fn info(id: Option<i32>) -> ChartInfo {
    ChartInfo {
        id,
        name: "Name".to_string(),
        level: "IN".to_string(),
        difficulty: 12,
    }
}

fn remote(stable_request: bool, reviewed: bool) -> Chart {
    Chart {
        info: info(Some(5)),
        stable_request,
        reviewed,
    }
}

#[test]
fn new_entry_is_not_selected() {
    let item = ChartDisplayItem::new(None, Some('x'));
    assert_eq!(item.chart, None);
    assert_eq!(item.symbol, Some('x'));
    assert_eq!(item.is_selected, None);
    assert!(!item.selected());
}

#[test]
fn remote_entry() {
    let item = ChartDisplayItem::from_remote(&remote(false, true));
    let chart = item.chart.unwrap();
    assert_eq!(chart.info, info(Some(5)));
    assert_eq!(chart.local_path, None);
    assert_eq!(chart.chart_type, ChartType::Downloaded);
    assert_eq!(item.is_selected, None);
}

#[test]
fn remote_symbols() {
    assert_eq!(ChartDisplayItem::from_remote(&remote(true, true)).symbol, Some('+'));
    assert_eq!(ChartDisplayItem::from_remote(&remote(true, false)).symbol, Some('+'));
    assert_eq!(ChartDisplayItem::from_remote(&remote(false, false)).symbol, Some('*'));
    assert_eq!(ChartDisplayItem::from_remote(&remote(false, true)).symbol, None);
}

#[test]
fn toggling() {
    let mut item = ChartDisplayItem::new(None, None);
    item.toggle();
    assert_eq!(item.is_selected, Some(true));
    item.toggle();
    assert_eq!(item.is_selected, Some(false));
    item.toggle();
    assert_eq!(item.is_selected, Some(true));
}

#[test]
fn deleted_directory() {
    let mut chart = ChartItem {
        info: info(Some(5)),
        local_path: Some("custom/a".to_string()),
        chart_type: ChartType::Imported,
    };
    assert_eq!(chart.deletable(), "custom/a");
    assert_eq!(chart.download(), Some("download/5".to_string()));
    chart.local_path = None;
    assert_eq!(chart.deletable(), "download/5");
    chart.info.id = None;
    assert_eq!(chart.deletable(), "download/0");
    assert_eq!(chart.download(), None);
}

#[test]
fn copies_are_equal() {
    let chart = ChartItem {
        info: info(None),
        local_path: Some("p".to_string()),
        chart_type: ChartType::Integrated,
    };
    assert_eq!(chart.clone(), chart);
}
