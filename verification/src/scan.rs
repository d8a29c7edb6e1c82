//! Scanning a vehicle's CAN network for diagnostic ECUs. The scan listens to the bus to
//! learn which identifiers are in use, sends a fake ISO-TP first frame to every free
//! identifier, keeps the identifiers that answer with a flow-control frame, confirms each
//! of them, and finally asks every ECU found which diagnostic protocols it speaks.

use vstd::prelude::*;
use vstd::string::*;
use std::collections::HashSet;
use crate::comm_api::{CanFrame, ISO15765Config, push_hex_padded4};
use crate::text::{push_str, hex_padded};

verus! {

/// The messages that drive the scanner.
#[derive(Debug, Clone, Copy, PartialEq, Eq, Structural)]
pub enum DiagScannerMessage {
    IncrementStage,
    ScanPoll,
    SaveResults,
}

/// An ECU found by the scan, with its ISO-TP settings and the protocols it answered.
#[derive(Debug, Clone)]
pub struct ECUDiagSettings {
    pub name: String,
    pub send_id: u32,
    pub flow_control_id: u32,
    pub block_size: u32,
    pub sep_time_ms: u32,
    pub uds_support: bool,
    pub kwp_support: bool,
}

impl ECUDiagSettings {
    /// An ECU whose ISO-TP settings were confirmed and whose protocols are not yet known.
    pub fn from_config(cfg: &ISO15765Config) -> (r: Self)
        ensures
            r.name@ == "Unknown ECU name"@,
            r.send_id == cfg.send_id,
            r.flow_control_id == cfg.recv_id,
            r.block_size == cfg.block_size,
            r.sep_time_ms == cfg.sep_time,
            !r.uds_support && !r.kwp_support,
    {
        ECUDiagSettings {
            name: String::from_str("Unknown ECU name"),
            send_id: cfg.send_id,
            flow_control_id: cfg.recv_id,
            block_size: cfg.block_size,
            sep_time_ms: cfg.sep_time,
            uds_support: false,
            kwp_support: false,
        }
    }

    /// Renders the ECU as `{name} (0x{send_id:04X})`.
    pub fn to_string(&self) -> (r: String)
        ensures
            r@ == self.name@ + " (0x"@ + hex_padded(self.send_id as nat, 4) + ")"@,
    {
        let mut s = String::new();
        proof { reveal_strlit(" (0x"); reveal_strlit(")"); }
        push_str(&mut s, self.name.as_str());
        push_str(&mut s, " (0x");
        push_hex_padded4(&mut s, self.send_id);
        push_str(&mut s, ")");
        s
    }
}

/// The identifier of OBD-II functional requests, which the scan never probes.
pub const OBD_BROADCAST_ID: u32 = 0x07DF;

/// The highest standard (11-bit) identifier the scan probes.
pub const MAX_SCAN_ID: u32 = 0x07FF;

/// The OBD-II request for the VIN, sent to wake the diagnostic CAN bus up.
pub fn wake_up_frame() -> (r: CanFrame)
    ensures
        r.wf(),
        r.id == OBD_BROADCAST_ID,
        r.payload() == seq![0x09u8, 0x02u8],
{
    let data: [u8; 2] = [0x09, 0x02];
    let r = CanFrame::new(OBD_BROADCAST_ID, data.as_slice());
    assert(data@ =~= seq![0x09u8, 0x02u8]);
    r
}

/// The fake ISO-TP first frame that announces sixteen bytes to `id`; an ECU listening on
/// `id` answers it with a flow-control frame.
pub fn probe_frame(id: u32) -> (r: CanFrame)
    ensures
        r.wf(),
        r.id == id,
        r.payload() == seq![0x10u8, 0x10u8, 0u8, 0u8, 0u8, 0u8, 0u8, 0u8],
{
    let data: [u8; 8] = [0x10, 0x10, 0x00, 0x00, 0x00, 0x00, 0x00, 0x00];
    let r = CanFrame::new(id, data.as_slice());
    assert(data@ =~= seq![0x10u8, 0x10u8, 0u8, 0u8, 0u8, 0u8, 0u8, 0u8]);
    r
}

/// Whether a received frame is an ISO-TP flow-control frame: eight bytes starting 0x30.
pub fn is_flow_control_reply(f: &CanFrame) -> (r: bool)
    requires
        f.wf(),
        f.dlc >= 1,
    ensures
        r == (f.payload()[0] == 0x30 && f.dlc == 8),
{
    let payload = f.get_data();
    payload[0] == 0x30 && payload.len() == 8
}

/// The ISO-TP settings an ECU announced in its flow-control frame: requests go to
/// `send_id`, replies come from the frame's identifier, block size and separation time
/// are the frame's second and third bytes.
pub fn flow_control_config(send_id: u32, f: &CanFrame) -> (r: ISO15765Config)
    requires
        f.wf(),
        f.dlc >= 3,
    ensures
        r.send_id == send_id,
        r.recv_id == f.id,
        r.block_size == f.payload()[1],
        r.sep_time == f.payload()[2],
{
    let payload = f.get_data();
    ISO15765Config { send_id, recv_id: f.id, block_size: payload[1] as u32, sep_time: payload[2] as u32 }
}

/// Records that `id` carries traffic (or must not be probed).
pub fn note_busy(busy: &mut HashSet<u32>, id: u32)
    ensures
        final(busy)@ == old(busy)@.insert(id),
{
    broadcast use vstd::std_specs::hash::group_hash_axioms;
    busy.insert(id);
}

/// The next identifier to probe after `current`: the first one above it that carries no
/// traffic.
pub fn next_scan_id(current: u32, busy: &HashSet<u32>) -> (r: u32)
    requires
        exists|i: u32| current < i && !busy@.contains(i),
    ensures
        current < r,
        !busy@.contains(r),
        forall|i: u32| current < i < r ==> busy@.contains(i),
{
    broadcast use vstd::std_specs::hash::group_hash_axioms;
    let ghost witness = choose|i: u32| current < i && !busy@.contains(i);
    let mut id = current + 1;
    while busy.contains(&id)
        invariant
            current < id <= witness,
            !busy@.contains(witness),
            forall|i: u32| current < i < id ==> busy@.contains(i),
        decreases witness - id,
    {
        id = id + 1;
    }
    id
}

/// The identifiers that answered the probe of each scanned identifier, in the order the
/// scanned identifiers first got an answer; each scanned identifier appears once.
pub open spec fn keys_unique(results: Seq<(u32, Vec<u32>)>) -> bool {
    forall|a: int, b: int| 0 <= a < b < results.len() ==> results[a].0 != results[b].0
}

/// Records that `frame_id` answered the probe sent to `scan_id`.
pub fn record_responder(results: &mut Vec<(u32, Vec<u32>)>, scan_id: u32, frame_id: u32)
    requires
        keys_unique(old(results)@),
    ensures
        keys_unique(final(results)@),
        forall|i: int| 0 <= i < old(results)@.len() && old(results)@[i].0 == scan_id ==> {
            &&& final(results)@.len() == old(results)@.len()
            &&& final(results)@[i].0 == scan_id
            &&& final(results)@[i].1@ == old(results)@[i].1@.push(frame_id)
            &&& forall|j: int| 0 <= j < old(results)@.len() && j != i ==> #[trigger] final(results)@[j] == old(results)@[j]
        },
        (forall|i: int| 0 <= i < old(results)@.len() ==> old(results)@[i].0 != scan_id) ==> {
            &&& final(results)@.len() == old(results)@.len() + 1
            &&& forall|j: int| 0 <= j < old(results)@.len() ==> #[trigger] final(results)@[j] == old(results)@[j]
            &&& final(results)@[old(results)@.len() as int].0 == scan_id
            &&& final(results)@[old(results)@.len() as int].1@ == seq![frame_id]
        },
{
    let mut i: usize = 0;
    while i < results.len()
        invariant
            i <= results@.len(),
            results@ == old(results)@,
            keys_unique(results@),
            forall|j: int| 0 <= j < i ==> results@[j].0 != scan_id,
        decreases results@.len() - i,
    {
        if results[i].0 == scan_id {
            let (k, mut ids) = results.remove(i);
            ids.push(frame_id);
            results.insert(i, (k, ids));
            return;
        }
        i = i + 1;
    }
    let mut ids: Vec<u32> = Vec::new();
    ids.push(frame_id);
    assert(ids@ =~= seq![frame_id]);
    results.push((scan_id, ids));
}

/// What the adapter does when the scanner moves on from a stage.
#[derive(Debug, Clone, Copy, PartialEq, Eq, Structural)]
pub enum StageAction {
    /// Check the battery, open the bus at 500 kbit/s with a pass-all filter, send the
    /// wake-up frame, forget the busy identifiers and restart the clock.
    OpenBus,
    /// Mark the OBD-II broadcast identifier busy and clear the receive buffer.
    MarkBroadcast,
    /// Close the bus and open it again.
    ReopenBus,
    /// Close the bus, pause, and restart the clock.
    CloseBus,
    /// Nothing to do on the adapter.
    Nothing,
}

/// How the scanner moves on from a stage: what the adapter does, the stage it moves to,
/// whether the scan restarts from the lowest identifier, and the message that follows
/// (none when the scan is over).
#[derive(Debug, Clone, Copy, PartialEq, Eq, Structural)]
pub struct StageStep {
    pub action: StageAction,
    pub next_stage: usize,
    pub reset_scan_id: bool,
    pub next: Option<DiagScannerMessage>,
}

/// The step out of a stage. Stage 0 opens the bus; stage 1 marks the broadcast identifier
/// busy; stage 2 reopens the bus; stage 3 closes it; stages 4 and 5 move on; from stages 1
/// to 5 the scan restarts from the lowest identifier and polling goes on. Stage 6 ends the
/// scan; after it nothing changes.
pub fn stage_step(stage: usize) -> (r: StageStep)
    ensures
        stage == 0 ==> r == (StageStep { action: StageAction::OpenBus, next_stage: 1, reset_scan_id: false,
            next: Some(DiagScannerMessage::ScanPoll) }),
        stage == 1 ==> r == (StageStep { action: StageAction::MarkBroadcast, next_stage: 2, reset_scan_id: true,
            next: Some(DiagScannerMessage::ScanPoll) }),
        stage == 2 ==> r == (StageStep { action: StageAction::ReopenBus, next_stage: 3, reset_scan_id: true,
            next: Some(DiagScannerMessage::ScanPoll) }),
        stage == 3 ==> r == (StageStep { action: StageAction::CloseBus, next_stage: 4, reset_scan_id: true,
            next: Some(DiagScannerMessage::ScanPoll) }),
        (stage == 4 || stage == 5) ==> r == (StageStep { action: StageAction::Nothing, next_stage: (stage + 1) as usize,
            reset_scan_id: true, next: Some(DiagScannerMessage::ScanPoll) }),
        stage == 6 ==> r == (StageStep { action: StageAction::Nothing, next_stage: 7, reset_scan_id: false, next: None }),
        stage > 6 ==> r == (StageStep { action: StageAction::Nothing, next_stage: stage, reset_scan_id: false, next: None }),
{
    let poll = Some(DiagScannerMessage::ScanPoll);
    if stage == 0 {
        StageStep { action: StageAction::OpenBus, next_stage: 1, reset_scan_id: false, next: poll }
    } else if stage == 1 {
        StageStep { action: StageAction::MarkBroadcast, next_stage: 2, reset_scan_id: true, next: poll }
    } else if stage == 2 {
        StageStep { action: StageAction::ReopenBus, next_stage: 3, reset_scan_id: true, next: poll }
    } else if stage == 3 {
        StageStep { action: StageAction::CloseBus, next_stage: 4, reset_scan_id: true, next: poll }
    } else if stage == 4 || stage == 5 {
        StageStep { action: StageAction::Nothing, next_stage: stage + 1, reset_scan_id: true, next: poll }
    } else if stage == 6 {
        StageStep { action: StageAction::Nothing, next_stage: 7, reset_scan_id: false, next: None }
    } else {
        StageStep { action: StageAction::Nothing, next_stage: stage, reset_scan_id: false, next: None }
    }
}

/// What the scanner does on one poll.
#[derive(Debug, Clone, Copy, PartialEq, Eq, Structural)]
pub enum ScanAction {
    /// Nothing to do on this stage.
    Idle,
    /// The stage is over: move to the next one.
    NextStage,
    /// Listen to the bus and note the identifiers that carry traffic.
    RecordTraffic,
    /// Send the probe frame to the next free identifier.
    ProbeNextId,
    /// Read the answers to the last probe.
    ReadProbeReplies,
    /// Probe the next candidate again, listening to its first responder only.
    ConfirmCandidate,
    /// Read the flow-control frames of the candidate being confirmed.
    ReadConfirmation,
    /// Let the network rest.
    CoolDown,
    /// Ask the next ECU found for a KWP2000 session.
    ProbeKwp2000,
    /// Ask the next ECU found for a UDS session.
    ProbeUds,
}

/// What the scanner does on a poll, given its stage, the time since the stage's clock was
/// last reset, its position in the stage, and how many candidates and confirmed ECUs it has.
pub open spec fn scan_poll_spec(stage: int, elapsed_ms: int, position: int, candidates: int, ecus: int) -> ScanAction {
    if stage == 1 {
        if elapsed_ms >= 10000 { ScanAction::NextStage } else { ScanAction::RecordTraffic }
    } else if stage == 2 {
        if position >= MAX_SCAN_ID { ScanAction::NextStage }
        else if elapsed_ms >= 100 { ScanAction::ProbeNextId }
        else { ScanAction::ReadProbeReplies }
    } else if stage == 3 {
        if elapsed_ms > 100 {
            if position >= candidates { ScanAction::NextStage } else { ScanAction::ConfirmCandidate }
        } else {
            ScanAction::ReadConfirmation
        }
    } else if stage == 4 {
        if elapsed_ms >= 5000 { ScanAction::NextStage } else { ScanAction::CoolDown }
    } else if stage == 5 {
        if position >= ecus { ScanAction::NextStage } else { ScanAction::ProbeKwp2000 }
    } else if stage == 6 {
        if position >= ecus { ScanAction::NextStage } else { ScanAction::ProbeUds }
    } else {
        ScanAction::Idle
    }
}

/// Decides what the scanner does on a poll (see `scan_poll_spec`).
pub fn scan_poll(stage: usize, elapsed_ms: u128, position: u32, candidates: usize, ecus: usize) -> (r: ScanAction)
    ensures
        r == scan_poll_spec(stage as int, elapsed_ms as int, position as int, candidates as int, ecus as int),
{
    if stage == 1 {
        if elapsed_ms >= 10000 { ScanAction::NextStage } else { ScanAction::RecordTraffic }
    } else if stage == 2 {
        if position >= MAX_SCAN_ID { ScanAction::NextStage }
        else if elapsed_ms >= 100 { ScanAction::ProbeNextId }
        else { ScanAction::ReadProbeReplies }
    } else if stage == 3 {
        if elapsed_ms > 100 {
            if position as usize >= candidates { ScanAction::NextStage } else { ScanAction::ConfirmCandidate }
        } else {
            ScanAction::ReadConfirmation
        }
    } else if stage == 4 {
        if elapsed_ms >= 5000 { ScanAction::NextStage } else { ScanAction::CoolDown }
    } else if stage == 5 {
        if position as usize >= ecus { ScanAction::NextStage } else { ScanAction::ProbeKwp2000 }
    } else if stage == 6 {
        if position as usize >= ecus { ScanAction::NextStage } else { ScanAction::ProbeUds }
    } else {
        ScanAction::Idle
    }
}

/// Every ECU the scan found is asked in turn for both protocols: while the position is
/// below the number of ECUs found, a poll of stage 5 probes that ECU for KWP2000 and a poll
/// of stage 6 probes it for UDS, whatever the clock says; either stage ends exactly when
/// every ECU has been asked.
pub proof fn lemma_every_ecu_probed(elapsed_ms: u128, position: u32, candidates: usize, ecus: usize)
    ensures
        (position as int) < (ecus as int) ==> scan_poll_spec(5, elapsed_ms as int, position as int, candidates as int, ecus as int) == ScanAction::ProbeKwp2000,
        (position as int) < (ecus as int) ==> scan_poll_spec(6, elapsed_ms as int, position as int, candidates as int, ecus as int) == ScanAction::ProbeUds,
        (position as int) >= (ecus as int) ==> scan_poll_spec(5, elapsed_ms as int, position as int, candidates as int, ecus as int) == ScanAction::NextStage,
        (position as int) >= (ecus as int) ==> scan_poll_spec(6, elapsed_ms as int, position as int, candidates as int, ecus as int) == ScanAction::NextStage,
        (position as int) < (candidates as int) && elapsed_ms > 100 ==> scan_poll_spec(3, elapsed_ms as int, position as int, candidates as int, ecus as int) == ScanAction::ConfirmCandidate,
{
}

} // verus!
