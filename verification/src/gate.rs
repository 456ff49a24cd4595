//! Admission control for operations invoked from outside.
//!
//! `AdmissionGate` bounds the operations in flight. A caller that finds no
//! free slot is queued, and a slot that is given back goes straight to a
//! queued caller if there is one: no request is dropped, and nobody waits
//! while a slot is free. A queued caller that gives up is taken out of the
//! queue, so that no slot goes to a caller that is gone. `DownloadGuard` lets a single download proceed at a
//! time and turns a second one away at once.

use vstd::prelude::*;
use vstd::string::StringExecFns;

verus! {

/// How many operations may be in flight at once.
pub const MAX_CONCURRENT_OPERATIONS: usize = 5;

/// The largest download accepted, in bytes.
pub const MAX_DOWNLOAD_BYTES: u64 = 104857600;

/// An admission gate as a mathematical value.
pub struct GateModel {
    /// Operations that hold a slot.
    pub in_flight: nat,
    /// Callers that wait for a slot.
    pub waiting: nat,
}

/// The answer to a caller that asks for a slot.
#[derive(Debug, Clone, Copy, PartialEq, Eq, Structural)]
pub enum Admission {
    /// The caller holds a slot and may proceed.
    Admitted,
    /// No slot is free. The caller is queued and holds a slot once a
    /// `Release::HandedOver` was issued for it.
    Queued,
    /// The queue cannot take another caller; the request is turned away.
    Refused,
}

/// What became of a slot that was given back.
#[derive(Debug, Clone, Copy, PartialEq, Eq, Structural)]
pub enum Release {
    /// The slot is free again.
    Freed,
    /// The slot went to a queued caller, which is to be woken.
    HandedOver,
    /// No slot was held; nothing changed.
    NotHeld,
}

/// A gate never holds more than the ceiling, and callers wait only while
/// every slot is taken.
pub open spec fn gate_ok(gate: GateModel) -> bool {
    &&& gate.in_flight <= MAX_CONCURRENT_OPERATIONS
    &&& gate.waiting > 0 ==> gate.in_flight == MAX_CONCURRENT_OPERATIONS
    &&& gate.waiting <= usize::MAX
}

/// The answer to a caller that asks for a slot.
pub open spec fn admission(gate: GateModel) -> Admission {
    if gate.in_flight < MAX_CONCURRENT_OPERATIONS {
        Admission::Admitted
    } else if gate.waiting < usize::MAX {
        Admission::Queued
    } else {
        Admission::Refused
    }
}

/// A gate after a caller asked for a slot.
pub open spec fn after_enter(gate: GateModel) -> GateModel {
    match admission(gate) {
        Admission::Admitted => GateModel { in_flight: gate.in_flight + 1, ..gate },
        Admission::Queued => GateModel { waiting: gate.waiting + 1, ..gate },
        Admission::Refused => gate,
    }
}

/// What becomes of a slot that is given back.
pub open spec fn release(gate: GateModel) -> Release {
    if gate.in_flight == 0 {
        Release::NotHeld
    } else if gate.waiting > 0 {
        Release::HandedOver
    } else {
        Release::Freed
    }
}

/// A gate after a slot was given back.
pub open spec fn after_leave(gate: GateModel) -> GateModel {
    match release(gate) {
        Release::NotHeld => gate,
        Release::HandedOver => GateModel { waiting: (gate.waiting - 1) as nat, ..gate },
        Release::Freed => GateModel { in_flight: (gate.in_flight - 1) as nat, ..gate },
    }
}

/// Whether a caller that gives up waiting was counted as waiting.
pub open spec fn withdrawal(gate: GateModel) -> bool {
    gate.waiting > 0
}

/// A gate after a queued caller gave up waiting.
pub open spec fn after_withdraw(gate: GateModel) -> GateModel {
    if withdrawal(gate) {
        GateModel { waiting: (gate.waiting - 1) as nat, ..gate }
    } else {
        gate
    }
}

/// What can be asked at a gate.
pub enum GateRequest {
    /// A caller asks for a slot.
    Enter,
    /// A caller gives its slot back.
    Leave,
    /// A queued caller gives up waiting.
    Withdraw,
}

/// A gate after a history of requests.
pub open spec fn gate_after(gate: GateModel, requests: Seq<GateRequest>) -> GateModel
    decreases requests.len(),
{
    if requests.len() == 0 {
        gate
    } else {
        let before = gate_after(gate, requests.drop_last());
        match requests.last() {
            GateRequest::Enter => after_enter(before),
            GateRequest::Leave => after_leave(before),
            GateRequest::Withdraw => after_withdraw(before),
        }
    }
}

/// Bounds the operations in flight.
#[derive(Debug)]
pub struct AdmissionGate {
    in_flight: usize,
    waiting: usize,
}

impl View for AdmissionGate {
    type V = GateModel;

    closed spec fn view(&self) -> GateModel {
        GateModel { in_flight: self.in_flight as nat, waiting: self.waiting as nat }
    }
}

impl AdmissionGate {
    #[verifier::type_invariant]
    spec fn well_formed(self) -> bool {
        gate_ok(self@)
    }

    /// A gate with every slot free and nobody waiting.
    pub fn new() -> (gate: AdmissionGate)
        ensures
            gate@ == (GateModel { in_flight: 0, waiting: 0 }),
    {
        AdmissionGate { in_flight: 0, waiting: 0 }
    }

    /// The number of operations that hold a slot.
    pub fn in_flight(&self) -> (count: usize)
        ensures
            count == self@.in_flight,
            count <= MAX_CONCURRENT_OPERATIONS,
    {
        proof {
            use_type_invariant(self);
        }
        self.in_flight
    }

    /// The number of callers that wait for a slot.
    pub fn waiting(&self) -> (count: usize)
        ensures
            count == self@.waiting,
            count > 0 ==> self@.in_flight == MAX_CONCURRENT_OPERATIONS,
    {
        proof {
            use_type_invariant(self);
        }
        self.waiting
    }

    /// Asks for a slot.
    pub fn enter(&mut self) -> (answer: Admission)
        ensures
            answer == admission(old(self)@),
            final(self)@ == after_enter(old(self)@),
            gate_ok(final(self)@),
    {
        proof {
            use_type_invariant(&*self);
        }
        if self.in_flight < MAX_CONCURRENT_OPERATIONS {
            self.in_flight = self.in_flight + 1;
            Admission::Admitted
        } else if self.waiting < usize::MAX {
            self.waiting = self.waiting + 1;
            Admission::Queued
        } else {
            Admission::Refused
        }
    }

    /// Takes a caller that gives up waiting out of the queue, so that no
    /// slot is handed over to it later. Returns whether a caller was
    /// waiting; if none was, nothing changes.
    pub fn withdraw(&mut self) -> (withdrawn: bool)
        ensures
            withdrawn == withdrawal(old(self)@),
            final(self)@ == after_withdraw(old(self)@),
            gate_ok(final(self)@),
    {
        proof {
            use_type_invariant(&*self);
        }
        if self.waiting > 0 {
            self.waiting = self.waiting - 1;
            true
        } else {
            false
        }
    }

    /// Gives a slot back.
    pub fn leave(&mut self) -> (outcome: Release)
        ensures
            outcome == release(old(self)@),
            final(self)@ == after_leave(old(self)@),
            gate_ok(final(self)@),
    {
        proof {
            use_type_invariant(&*self);
        }
        if self.in_flight == 0 {
            Release::NotHeld
        } else if self.waiting > 0 {
            self.waiting = self.waiting - 1;
            Release::HandedOver
        } else {
            self.in_flight = self.in_flight - 1;
            Release::Freed
        }
    }
}

/// Whatever is asked of it, a gate never holds more than the ceiling, and
/// callers wait only while every slot is taken.
pub proof fn law_gate_holds_ceiling(gate: GateModel, requests: Seq<GateRequest>)
    requires
        gate_ok(gate),
    ensures
        gate_ok(gate_after(gate, requests)),
    decreases requests.len(),
{
    if requests.len() > 0 {
        law_gate_holds_ceiling(gate, requests.drop_last());
    }
}

/// A slot given back while callers wait goes to one of them: the number in
/// flight stays at the ceiling and one caller fewer waits.
pub proof fn law_released_slot_goes_to_waiter(gate: GateModel)
    requires
        gate_ok(gate),
        gate.waiting > 0,
    ensures
        release(gate) == Release::HandedOver,
        after_leave(gate).in_flight == MAX_CONCURRENT_OPERATIONS,
        after_leave(gate).waiting == gate.waiting - 1,
{
}

/// The message for a request that was turned away at admission.
pub open spec fn system_busy_text() -> Seq<char> {
    "系统繁忙，请稍后再试"@
}

/// The message for a download that was asked for while another one runs.
pub open spec fn download_busy_text() -> Seq<char> {
    "另一个下载正在进行中，请稍后再试"@
}

/// The message for a download that is larger than accepted.
pub open spec fn too_large_text() -> Seq<char> {
    "文件过大，无法下载"@
}

/// The message for a request that was turned away at admission.
pub fn system_busy_message() -> (message: String)
    ensures
        message@ == system_busy_text(),
{
    String::from_str("系统繁忙，请稍后再试")
}

/// Lets one download run at a time.
#[derive(Debug)]
pub struct DownloadGuard {
    in_progress: bool,
}

impl View for DownloadGuard {
    type V = bool;

    closed spec fn view(&self) -> bool {
        self.in_progress
    }
}

impl DownloadGuard {
    /// A guard with no download running.
    pub fn new() -> (guard: DownloadGuard)
        ensures
            !guard@,
    {
        DownloadGuard { in_progress: false }
    }

    /// Whether a download is running.
    pub fn in_progress(&self) -> (running: bool)
        ensures
            running == self@,
    {
        self.in_progress
    }

    /// Claims the right to download. Fails at once, without queueing, if a
    /// download is running.
    pub fn try_begin(&mut self) -> (result: Result<(), String>)
        ensures
            final(self)@,
            result is Ok <==> !old(self)@,
            result is Err ==> result->Err_0@ == download_busy_text(),
    {
        if self.in_progress {
            Err(String::from_str("另一个下载正在进行中，请稍后再试"))
        } else {
            self.in_progress = true;
            Ok(())
        }
    }

    /// Marks the running download as over, however it ended.
    pub fn finish(&mut self)
        ensures
            !final(self)@,
    {
        self.in_progress = false;
    }
}

/// The size that an announced content length stands for: zero when none was
/// announced.
pub open spec fn announced_size(content_length: Option<u64>) -> u64 {
    match content_length {
        Some(length) => length,
        None => 0,
    }
}

/// Accepts or refuses a download by its announced size.
pub fn check_download_size(content_length: Option<u64>) -> (result: Result<(), String>)
    ensures
        result is Ok <==> announced_size(content_length) <= MAX_DOWNLOAD_BYTES,
        result is Err ==> result->Err_0@ == too_large_text(),
{
    let size: u64 = match content_length {
        Some(length) => length,
        None => 0,
    };
    if size > MAX_DOWNLOAD_BYTES {
        Err(String::from_str("文件过大，无法下载"))
    } else {
        Ok(())
    }
}

} // verus!
