use archdash::widgets::{build_widgets, split_rows, ChannelId, Region};
use archdash::MetricsSnapshot;

fn snapshot() -> MetricsSnapshot {
    MetricsSnapshot {
        cpu_current: vec![1000, 2000],
        memory_used: 500,
        memory_total: 1000,
        swap_used: 0,
        swap_total: 0,
        memory_ratio_permille: 500,
        swap_ratio_permille: 0,
        cpu_history: vec![vec![1000], vec![500, 2000]],
        memory_history: vec![500],
        swap_history: vec![0],
        host_name: Some(String::from("box")),
        uptime_seconds: 77,
    }
}

#[test]
fn one_gauge_per_ratio_metric() {
    let tree = build_widgets(&snapshot());
    assert_eq!(tree.gauges.len(), 4);
    assert_eq!(tree.gauges[0].channel, ChannelId::CpuCore(0));
    assert_eq!(tree.gauges[0].fill_permille, 100);
    assert_eq!(tree.gauges[1].channel, ChannelId::CpuCore(1));
    assert_eq!(tree.gauges[1].fill_permille, 200);
    assert_eq!(tree.gauges[2].channel, ChannelId::MemoryRatio);
    assert_eq!(tree.gauges[2].fill_permille, 500);
    assert_eq!(tree.gauges[3].channel, ChannelId::SwapRatio);
    assert_eq!(tree.gauges[3].fill_permille, 0);
}

#[test]
fn one_sparkline_per_history_with_fixed_ceiling() {
    let tree = build_widgets(&snapshot());
    assert_eq!(tree.sparklines.len(), 4);
    assert_eq!(tree.sparklines[0].points, vec![1000]);
    assert_eq!(tree.sparklines[0].ceiling, 10000);
    assert_eq!(tree.sparklines[1].points, vec![500, 2000]);
    assert_eq!(tree.sparklines[1].ceiling, 10000);
    assert_eq!(tree.sparklines[2].channel, ChannelId::MemoryRatio);
    assert_eq!(tree.sparklines[2].points, vec![500]);
    assert_eq!(tree.sparklines[2].ceiling, 1000);
    assert_eq!(tree.sparklines[3].channel, ChannelId::SwapRatio);
    assert_eq!(tree.sparklines[3].points, vec![0]);
    assert_eq!(tree.sparklines[3].ceiling, 1000);
}

#[test]
fn info_panel_carries_host_facts() {
    let tree = build_widgets(&snapshot());
    assert_eq!(tree.info.host_name, "box");
    assert_eq!(tree.info.uptime_seconds, 77);
}

#[test]
fn unknown_host_is_named_so() {
    let mut snap = snapshot();
    snap.host_name = None;
    let tree = build_widgets(&snap);
    assert_eq!(tree.info.host_name, "Unknown");
}

#[test]
fn gauge_fill_is_clamped_into_scale() {
    let mut snap = snapshot();
    snap.cpu_current = vec![-500, 15000];
    snap.memory_ratio_permille = 2000;
    let tree = build_widgets(&snap);
    assert_eq!(tree.gauges[0].fill_permille, 0);
    assert_eq!(tree.gauges[1].fill_permille, 1000);
    assert_eq!(tree.gauges[2].fill_permille, 1000);
}

#[test]
fn rows_are_stacked_inside_the_margin() {
    let viewport = Region { x: 0, y: 0, width: 80, height: 24 };
    let (info, gauges, rest) = split_rows(viewport);
    assert_eq!(info, Region { x: 1, y: 1, width: 78, height: 3 });
    assert_eq!(gauges, Region { x: 1, y: 4, width: 78, height: 3 });
    assert_eq!(rest, Region { x: 1, y: 7, width: 78, height: 16 });
}

#[test]
fn tiny_viewport_truncates_rows_in_order() {
    let viewport = Region { x: 2, y: 3, width: 10, height: 6 };
    let (info, gauges, rest) = split_rows(viewport);
    assert_eq!(info.height, 3);
    assert_eq!(gauges.height, 1);
    assert_eq!(rest.height, 0);
    let (info, gauges, rest) = split_rows(Region { x: 0, y: 0, width: 1, height: 1 });
    assert_eq!(info.height, 0);
    assert_eq!(gauges.height, 0);
    assert_eq!(rest.height, 0);
    assert_eq!(info.width, 0);
}
