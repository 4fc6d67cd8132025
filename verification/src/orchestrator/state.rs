//! Orchestrator state: heap readings, HTTP and agent counters, pressure level, channel health,
//! queue depths and storage metrics.
use vstd::prelude::*;

use crate::text::str_eq;
use super::channel_health::{ChannelHealthSlot, ChannelHealthSnapshot, snapshot_by_index, snapshot_of_slot};
use super::pressure::{PressureLevel, ResourceBudget, budget_for_level, is_budget_of, level_of_byte};

verus! {

/// The channels whose health is tracked.
#[derive(Debug, Clone, Copy, PartialEq, Eq, Structural)]
pub enum ChannelIndex {
    Telegram,
    Feishu,
    DingTalk,
    WeCom,
    QqChannel,
}

pub const MAX_CHANNELS: usize = 5;

/// Slot number of a channel.
pub open spec fn index_value(ci: ChannelIndex) -> nat {
    match ci {
        ChannelIndex::Telegram => 0,
        ChannelIndex::Feishu => 1,
        ChannelIndex::DingTalk => 2,
        ChannelIndex::WeCom => 3,
        ChannelIndex::QqChannel => 4,
    }
}

impl ChannelIndex {
    pub fn index(&self) -> (r: usize)
        ensures
            r == index_value(*self),
            r < MAX_CHANNELS,
    {
        match self {
            ChannelIndex::Telegram => 0,
            ChannelIndex::Feishu => 1,
            ChannelIndex::DingTalk => 2,
            ChannelIndex::WeCom => 3,
            ChannelIndex::QqChannel => 4,
        }
    }
}

/// The channel that a name stands for.
pub open spec fn channel_index_of(name: Seq<char>) -> Option<ChannelIndex> {
    if name == "telegram"@ {
        Some(ChannelIndex::Telegram)
    } else if name == "feishu"@ {
        Some(ChannelIndex::Feishu)
    } else if name == "dingtalk"@ {
        Some(ChannelIndex::DingTalk)
    } else if name == "wecom"@ {
        Some(ChannelIndex::WeCom)
    } else if name == "qq_channel"@ {
        Some(ChannelIndex::QqChannel)
    } else {
        None
    }
}

pub fn channel_to_index(channel: &str) -> (r: Option<ChannelIndex>)
    ensures
        r == channel_index_of(channel@),
{
    if str_eq(channel, "telegram") {
        Some(ChannelIndex::Telegram)
    } else if str_eq(channel, "feishu") {
        Some(ChannelIndex::Feishu)
    } else if str_eq(channel, "dingtalk") {
        Some(ChannelIndex::DingTalk)
    } else if str_eq(channel, "wecom") {
        Some(ChannelIndex::WeCom)
    } else if str_eq(channel, "qq_channel") {
        Some(ChannelIndex::QqChannel)
    } else {
        None
    }
}

/// Orchestrator state. The heap readings start at `u32::MAX` (plenty) until the first sample.
pub struct OrchestratorState {
    pub heap_free_internal: u32,
    pub heap_free_spiram: u32,
    pub heap_largest_block: u32,
    pub active_http_count: u32,
    pub active_agent_tasks: u32,
    pub pressure_level: u8,
    pub channel_health: Vec<ChannelHealthSlot>,
    pub inbound_depth: u32,
    pub outbound_depth: u32,
    pub session_count: u32,
    pub storage_used_kb: u32,
    pub storage_total_kb: u32,
    pub audio_recording: u8,
}

impl OrchestratorState {
    /// One health slot per tracked channel.
    pub open spec fn wf(&self) -> bool {
        self.channel_health@.len() == MAX_CHANNELS
    }

    /// Every field but the channel health is the same.
    pub open spec fn same_except_channels(&self, other: Self) -> bool {
        &&& self.heap_free_internal == other.heap_free_internal
        &&& self.heap_free_spiram == other.heap_free_spiram
        &&& self.heap_largest_block == other.heap_largest_block
        &&& self.active_http_count == other.active_http_count
        &&& self.active_agent_tasks == other.active_agent_tasks
        &&& self.pressure_level == other.pressure_level
        &&& self.inbound_depth == other.inbound_depth
        &&& self.outbound_depth == other.outbound_depth
        &&& self.session_count == other.session_count
        &&& self.storage_used_kb == other.storage_used_kb
        &&& self.storage_total_kb == other.storage_total_kb
        &&& self.audio_recording == other.audio_recording
    }

    /// The state of a fresh orchestrator: heap unknown (plenty of internal heap, the whole of
    /// it one block, no PSRAM), nothing in flight or queued, no channel failures or successes,
    /// no sessions, storage and recording.
    pub open spec fn is_fresh(&self) -> bool {
        &&& self.wf()
        &&& self.heap_free_internal == u32::MAX
        &&& self.heap_free_spiram == 0
        &&& self.heap_largest_block == u32::MAX
        &&& self.active_http_count == 0
        &&& self.active_agent_tasks == 0
        &&& self.pressure_level == 0
        &&& forall|i: int| 0 <= i < MAX_CHANNELS ==> #[trigger] self.channel_health@[i] == (ChannelHealthSlot { consecutive_failures: 0, total_failures: 0, total_successes: 0 })
        &&& self.inbound_depth == 0
        &&& self.outbound_depth == 0
        &&& self.session_count == 0
        &&& self.storage_used_kb == 0
        &&& self.storage_total_kb == 0
        &&& self.audio_recording == 0
    }

    pub fn new() -> (r: Self)
        ensures
            r.is_fresh(),
            r.wf(),
            r.heap_free_internal == u32::MAX,
            r.heap_free_spiram == 0,
            r.heap_largest_block == u32::MAX,
            r.active_http_count == 0,
            r.active_agent_tasks == 0,
            r.pressure_level == 0,
            forall|i: int| 0 <= i < MAX_CHANNELS ==> #[trigger] r.channel_health@[i] == (ChannelHealthSlot { consecutive_failures: 0, total_failures: 0, total_successes: 0 }),
            r.inbound_depth == 0,
            r.outbound_depth == 0,
            r.session_count == 0,
            r.storage_used_kb == 0,
            r.storage_total_kb == 0,
            r.audio_recording == 0,
    {
        let mut channel_health: Vec<ChannelHealthSlot> = Vec::new();
        let mut i: usize = 0;
        while i < MAX_CHANNELS
            invariant
                i <= MAX_CHANNELS,
                channel_health@.len() == i,
                forall|j: int| 0 <= j < i ==> #[trigger] channel_health@[j] == (ChannelHealthSlot { consecutive_failures: 0, total_failures: 0, total_successes: 0 }),
            decreases MAX_CHANNELS - i,
        {
            channel_health.push(ChannelHealthSlot::new());
            i = i + 1;
        }
        OrchestratorState {
            heap_free_internal: u32::MAX,
            heap_free_spiram: 0,
            heap_largest_block: u32::MAX,
            active_http_count: 0,
            active_agent_tasks: 0,
            pressure_level: 0,
            channel_health,
            inbound_depth: 0,
            outbound_depth: 0,
            session_count: 0,
            storage_used_kb: 0,
            storage_total_kb: 0,
            audio_recording: 0,
        }
    }

    /// Stores new heap readings.
    pub fn update_heap(&mut self, internal: u32, spiram: u32, largest_block: u32)
        ensures
            final(self).heap_free_internal == internal,
            final(self).heap_free_spiram == spiram,
            final(self).heap_largest_block == largest_block,
            final(self).active_http_count == old(self).active_http_count,
            final(self).active_agent_tasks == old(self).active_agent_tasks,
            final(self).pressure_level == old(self).pressure_level,
            final(self).channel_health == old(self).channel_health,
            final(self).inbound_depth == old(self).inbound_depth,
            final(self).outbound_depth == old(self).outbound_depth,
            final(self).session_count == old(self).session_count,
            final(self).storage_used_kb == old(self).storage_used_kb,
            final(self).storage_total_kb == old(self).storage_total_kb,
            final(self).audio_recording == old(self).audio_recording,
    {
        self.heap_free_internal = internal;
        self.heap_free_spiram = spiram;
        self.heap_largest_block = largest_block;
    }
}

/// Health snapshots of all channels, by name.
pub struct ChannelsHealthSnapshot {
    pub telegram: ChannelHealthSnapshot,
    pub feishu: ChannelHealthSnapshot,
    pub dingtalk: ChannelHealthSnapshot,
    pub wecom: ChannelHealthSnapshot,
    pub qq_channel: ChannelHealthSnapshot,
}

/// Snapshot of the whole orchestrator state.
pub struct ResourceSnapshot {
    pub pressure: PressureLevel,
    pub heap_free_internal: u32,
    pub heap_free_spiram: u32,
    pub heap_largest_block_internal: u32,
    pub active_http_count: u32,
    pub active_agent_tasks: u32,
    pub inbound_depth: u32,
    pub outbound_depth: u32,
    pub budget: ResourceBudget,
    pub channels: ChannelsHealthSnapshot,
    pub session_count: u32,
    pub storage_used_kb: u32,
    pub storage_total_kb: u32,
    pub audio_recording: bool,
}

/// A snapshot reports exactly the state it was taken from.
pub open spec fn snapshot_matches(r: ResourceSnapshot, state: OrchestratorState) -> bool {
    let level = level_of_byte(state.pressure_level);
    &&& r.pressure == level
    &&& r.heap_free_internal == state.heap_free_internal
    &&& r.heap_free_spiram == state.heap_free_spiram
    &&& r.heap_largest_block_internal == state.heap_largest_block
    &&& r.active_http_count == state.active_http_count
    &&& r.active_agent_tasks == state.active_agent_tasks
    &&& r.inbound_depth == state.inbound_depth
    &&& r.outbound_depth == state.outbound_depth
    &&& is_budget_of(r.budget, level)
    &&& r.channels.telegram == snapshot_of_slot(state.channel_health@[0])
    &&& r.channels.feishu == snapshot_of_slot(state.channel_health@[1])
    &&& r.channels.dingtalk == snapshot_of_slot(state.channel_health@[2])
    &&& r.channels.wecom == snapshot_of_slot(state.channel_health@[3])
    &&& r.channels.qq_channel == snapshot_of_slot(state.channel_health@[4])
    &&& r.session_count == state.session_count
    &&& r.storage_used_kb == state.storage_used_kb
    &&& r.storage_total_kb == state.storage_total_kb
    &&& r.audio_recording == (state.audio_recording != 0)
}

impl ResourceSnapshot {
    pub fn from_state(state: &OrchestratorState) -> (r: Self)
        requires
            state.wf(),
        ensures
            snapshot_matches(r, *state),
    {
        let pressure = PressureLevel::from_byte(state.pressure_level);
        let channels = ChannelsHealthSnapshot {
            telegram: snapshot_by_index(state, 0),
            feishu: snapshot_by_index(state, 1),
            dingtalk: snapshot_by_index(state, 2),
            wecom: snapshot_by_index(state, 3),
            qq_channel: snapshot_by_index(state, 4),
        };
        ResourceSnapshot {
            pressure,
            heap_free_internal: state.heap_free_internal,
            heap_free_spiram: state.heap_free_spiram,
            heap_largest_block_internal: state.heap_largest_block,
            active_http_count: state.active_http_count,
            active_agent_tasks: state.active_agent_tasks,
            inbound_depth: state.inbound_depth,
            outbound_depth: state.outbound_depth,
            budget: budget_for_level(pressure),
            channels,
            session_count: state.session_count,
            storage_used_kb: state.storage_used_kb,
            storage_total_kb: state.storage_total_kb,
            audio_recording: state.audio_recording != 0,
        }
    }
}

} // verus!
