//! The declarative widget description handed to the renderer once per
//! iteration: a fixed vertical arrangement of an info panel, one gauge per
//! bounded ratio metric, and one sparkline per history channel, each with a
//! fixed display ceiling so the vertical scale never rescales mid-run. The
//! mapping is a pure function of the snapshot and the viewport; all drawing
//! stays with the renderer.

use vstd::prelude::*;

use crate::metrics::{clamped_cpu, MetricsSnapshot, CPU_CEILING_CENTIPERCENT, RATIO_FULL_PERMILLE};

verus! {

/// A rectangle of terminal cells.
#[derive(Clone, Copy, Debug, PartialEq, Eq, Structural)]
pub struct Region {
    pub x: u16,
    pub y: u16,
    pub width: u16,
    pub height: u16,
}

/// Identity of one metric channel.
#[derive(Clone, Copy, Debug, PartialEq, Eq)]
pub enum ChannelId {
    CpuCore(usize),
    MemoryRatio,
    SwapRatio,
}

/// Static host facts, formatted once per tick.
pub struct InfoPanel {
    pub host_name: String,
    pub uptime_seconds: u64,
}

/// One gauge: a fill ratio in parts per thousand, always within the scale.
pub struct GaugeDesc {
    pub channel: ChannelId,
    pub fill_permille: u64,
}

/// One sparkline: a channel's history, oldest first, under a fixed ceiling.
pub struct SparklineDesc {
    pub channel: ChannelId,
    pub points: Vec<i64>,
    pub ceiling: u64,
}

/// The whole widget tree for one render.
pub struct WidgetTree {
    pub info: InfoPanel,
    pub gauges: Vec<GaugeDesc>,
    pub sparklines: Vec<SparklineDesc>,
}

/// A CPU sample's gauge fill: clamped to the CPU scale, in parts per
/// thousand of it.
pub open spec fn cpu_fill_permille(sample: i64) -> int {
    clamped_cpu(sample) / 10
}

/// A stored ratio's gauge fill: clamped to full scale.
pub open spec fn clamped_permille(ratio: u64) -> int {
    if ratio > RATIO_FULL_PERMILLE {
        RATIO_FULL_PERMILLE as int
    } else {
        ratio as int
    }
}

/// The width left inside a one-cell margin.
pub open spec fn inner_width(viewport: Region) -> int {
    if viewport.width >= 2 {
        viewport.width - 2
    } else {
        0
    }
}

/// The height left inside a one-cell margin.
pub open spec fn inner_height(viewport: Region) -> int {
    if viewport.height >= 2 {
        viewport.height - 2
    } else {
        0
    }
}

/// Splits the viewport, inside a one-cell margin, into the fixed vertical
/// arrangement: three rows for the info panel, three for the gauges, and
/// whatever remains for the sparklines. Rows are stacked without gaps and
/// truncated in order when the viewport is too small.
pub fn split_rows(viewport: Region) -> (rows: (Region, Region, Region))
    requires
        viewport.x + viewport.width <= u16::MAX,
        viewport.y + viewport.height <= u16::MAX,
    ensures
        ({
            let (info, gauges, rest) = rows;
            &&& info.width == inner_width(viewport)
            &&& gauges.width == inner_width(viewport)
            &&& rest.width == inner_width(viewport)
            &&& info.height == vstd::math::min(3, inner_height(viewport))
            &&& gauges.height == vstd::math::min(3, inner_height(viewport) - info.height)
            &&& rest.height == inner_height(viewport) - info.height - gauges.height
            &&& info.y + info.height == gauges.y
            &&& gauges.y + gauges.height == rest.y
            &&& info.x == gauges.x && gauges.x == rest.x
            &&& viewport.height >= 2 ==> info.y == viewport.y + 1
            &&& viewport.width >= 2 ==> info.x == viewport.x + 1
        }),
{
    let x = if viewport.width >= 2 {
        viewport.x + 1
    } else {
        viewport.x
    };
    let width = if viewport.width >= 2 {
        viewport.width - 2
    } else {
        0
    };
    let y = if viewport.height >= 2 {
        viewport.y + 1
    } else {
        viewport.y
    };
    let height = if viewport.height >= 2 {
        viewport.height - 2
    } else {
        0
    };
    let info_height = if height < 3 {
        height
    } else {
        3
    };
    let remaining = height - info_height;
    let gauges_height = if remaining < 3 {
        remaining
    } else {
        3
    };
    let rest_height = remaining - gauges_height;
    let info = Region { x, y, width, height: info_height };
    let gauges = Region { x, y: y + info_height, width, height: gauges_height };
    let rest = Region { x, y: y + info_height + gauges_height, width, height: rest_height };
    (info, gauges, rest)
}

/// A fresh copy of one channel's samples.
fn copy_samples(samples: &Vec<i64>) -> (copy: Vec<i64>)
    ensures
        copy@ == samples@,
{
    let mut copy: Vec<i64> = Vec::new();
    let mut i: usize = 0;
    while i < samples.len()
        invariant
            i <= samples@.len(),
            copy@ == samples@.take(i as int),
        decreases samples@.len() - i,
    {
        copy.push(samples[i]);
        proof {
            assert(copy@ =~= samples@.take(i + 1));
        }
        i = i + 1;
    }
    proof {
        assert(copy@ =~= samples@);
    }
    copy
}

/// Maps one snapshot to the widget tree: the info panel carries the host
/// facts (an unknown host is named so), one gauge per bounded ratio metric
/// with its fill clamped into the scale, and one sparkline per history
/// channel under its fixed ceiling — the CPU scale for CPU channels, full
/// ratio scale for the memory and swap channels.
pub fn build_widgets(snap: &MetricsSnapshot) -> (tree: WidgetTree)
    ensures
        tree.info.uptime_seconds == snap.uptime_seconds,
        snap.host_name is Some ==> tree.info.host_name@ == snap.host_name->0@,
        snap.host_name is None ==> tree.info.host_name@ == "Unknown"@,
        tree.gauges@.len() == snap.cpu_current@.len() + 2,
        forall|i: int|
            0 <= i < snap.cpu_current@.len() ==> (#[trigger] tree.gauges@[i]).channel
                == ChannelId::CpuCore(i as usize) && tree.gauges@[i].fill_permille
                == cpu_fill_permille(snap.cpu_current@[i]),
        tree.gauges@[snap.cpu_current@.len() as int].channel == ChannelId::MemoryRatio,
        tree.gauges@[snap.cpu_current@.len() as int].fill_permille == clamped_permille(
            snap.memory_ratio_permille,
        ),
        tree.gauges@[snap.cpu_current@.len() + 1int].channel == ChannelId::SwapRatio,
        tree.gauges@[snap.cpu_current@.len() + 1int].fill_permille == clamped_permille(
            snap.swap_ratio_permille,
        ),
        tree.sparklines@.len() == snap.cpu_history@.len() + 2,
        forall|i: int|
            0 <= i < snap.cpu_history@.len() ==> (#[trigger] tree.sparklines@[i]).channel
                == ChannelId::CpuCore(i as usize) && tree.sparklines@[i].points@
                == snap.cpu_history@[i]@ && tree.sparklines@[i].ceiling
                == CPU_CEILING_CENTIPERCENT as u64,
        tree.sparklines@[snap.cpu_history@.len() as int].channel == ChannelId::MemoryRatio,
        tree.sparklines@[snap.cpu_history@.len() as int].points@ == snap.memory_history@,
        tree.sparklines@[snap.cpu_history@.len() as int].ceiling == RATIO_FULL_PERMILLE,
        tree.sparklines@[snap.cpu_history@.len() + 1int].channel == ChannelId::SwapRatio,
        tree.sparklines@[snap.cpu_history@.len() + 1int].points@ == snap.swap_history@,
        tree.sparklines@[snap.cpu_history@.len() + 1int].ceiling == RATIO_FULL_PERMILLE,
{
    let host_name = match &snap.host_name {
        Some(name) => name.clone(),
        None => "Unknown".to_owned(),
    };
    let info = InfoPanel { host_name, uptime_seconds: snap.uptime_seconds };

    let mut gauges: Vec<GaugeDesc> = Vec::new();
    let mut i: usize = 0;
    while i < snap.cpu_current.len()
        invariant
            i <= snap.cpu_current@.len(),
            gauges@.len() == i,
            forall|j: int|
                0 <= j < i ==> (#[trigger] gauges@[j]).channel == ChannelId::CpuCore(j as usize)
                    && gauges@[j].fill_permille == cpu_fill_permille(snap.cpu_current@[j]),
        decreases snap.cpu_current@.len() - i,
    {
        let clamped = crate::metrics::clamp_cpu(snap.cpu_current[i]);
        let fill = (clamped as u64) / 10;
        gauges.push(GaugeDesc { channel: ChannelId::CpuCore(i), fill_permille: fill });
        i = i + 1;
    }
    let memory_fill = if snap.memory_ratio_permille > RATIO_FULL_PERMILLE {
        RATIO_FULL_PERMILLE
    } else {
        snap.memory_ratio_permille
    };
    gauges.push(GaugeDesc { channel: ChannelId::MemoryRatio, fill_permille: memory_fill });
    let swap_fill = if snap.swap_ratio_permille > RATIO_FULL_PERMILLE {
        RATIO_FULL_PERMILLE
    } else {
        snap.swap_ratio_permille
    };
    gauges.push(GaugeDesc { channel: ChannelId::SwapRatio, fill_permille: swap_fill });

    let mut sparklines: Vec<SparklineDesc> = Vec::new();
    let mut k: usize = 0;
    while k < snap.cpu_history.len()
        invariant
            k <= snap.cpu_history@.len(),
            sparklines@.len() == k,
            forall|j: int|
                0 <= j < k ==> (#[trigger] sparklines@[j]).channel == ChannelId::CpuCore(
                    j as usize,
                ) && sparklines@[j].points@ == snap.cpu_history@[j]@ && sparklines@[j].ceiling
                    == CPU_CEILING_CENTIPERCENT as u64,
        decreases snap.cpu_history@.len() - k,
    {
        let points = copy_samples(&snap.cpu_history[k]);
        sparklines.push(
            SparklineDesc {
                channel: ChannelId::CpuCore(k),
                points,
                ceiling: CPU_CEILING_CENTIPERCENT as u64,
            },
        );
        k = k + 1;
    }
    sparklines.push(
        SparklineDesc {
            channel: ChannelId::MemoryRatio,
            points: copy_samples(&snap.memory_history),
            ceiling: RATIO_FULL_PERMILLE,
        },
    );
    sparklines.push(
        SparklineDesc {
            channel: ChannelId::SwapRatio,
            points: copy_samples(&snap.swap_history),
            ceiling: RATIO_FULL_PERMILLE,
        },
    );

    WidgetTree { info, gauges, sparklines }
}

} // verus!
