//! The scanner facade and its result, event and error types.

use vstd::prelude::*;

use crate::file_manager::FileManager;
use crate::resolver::{
    resolve_address_live, resolve_scalar, resolve_scalar_live, spec_resolve_scalar, Hop,
    MemoryImage, OffsetChain,
};
use crate::watcher::{
    spec_emits_connected, spec_emits_disconnected, spec_next_state, watcher_step, ScanState,
    WatcherInput, WatcherStep,
};

verus! {

/// The exhaustive error taxonomy of the scanning core.
#[derive(Clone, Copy, Debug, PartialEq, Eq, Structural)]
pub enum ScanError {
    /// The process identifier could not be turned into a usable OS handle.
    HandleConversionError,
    /// A currency read was requested while no process is attached.
    NotAttached,
    /// An OS-level memory read failed at the requested location.
    MemoryReadError,
}

impl ScanError {
    /// The stable wire code of this error.
    pub fn code(&self) -> (c: &'static str)
        ensures
            *self is HandleConversionError ==> c@ == "HandleConversionError"@,
            *self is NotAttached ==> c@ == "NotAttached"@,
            *self is MemoryReadError ==> c@ == "MemoryReadError"@,
    {
        match self {
            ScanError::HandleConversionError => "HandleConversionError",
            ScanError::NotAttached => "NotAttached",
            ScanError::MemoryReadError => "MemoryReadError",
        }
    }

    /// A human-readable description of this error.
    pub fn description(&self) -> (d: &'static str)
        ensures
            *self is HandleConversionError ==> d@ == "Could not convert process id to valid handle"@,
            *self is NotAttached ==> d@ == "Not attached to the game process"@,
            *self is MemoryReadError ==> d@ == "Failed to read memory at requested location"@,
    {
        match self {
            ScanError::HandleConversionError => "Could not convert process id to valid handle",
            ScanError::NotAttached => "Not attached to the game process",
            ScanError::MemoryReadError => "Failed to read memory at requested location",
        }
    }
}

/// Holds the results of a scan.  Immutable once constructed; created once
/// per successful scan and handed to the persistence collaborator.
#[derive(Clone, Copy, Debug, PartialEq, Eq, Structural)]
pub struct ScanResult {
    pub gil: u32,
    pub mgp: u32,
    pub company_seals: u32,
    /// Milliseconds since the epoch at which the scan completed.
    pub timestamp: u64,
}

impl ScanResult {
    /// An empty result, every field zero.
    pub fn new() -> (r: ScanResult)
        ensures
            r.gil == 0,
            r.mgp == 0,
            r.company_seals == 0,
            r.timestamp == 0,
    {
        ScanResult { gil: 0, mgp: 0, company_seals: 0, timestamp: 0 }
    }
}

/// The two lifecycle transitions the watcher reports.
#[derive(Clone, Copy, Debug, PartialEq, Eq, Structural)]
pub enum EventCode {
    GameConnected,
    GameDisconnected,
}

/// A lifecycle event pushed to the event sink at a transition point.
/// Ephemeral: events are not persisted.
#[derive(Clone, Debug)]
pub struct ScanEvent {
    pub code: EventCode,
    pub description: String,
}

impl ScanEvent {
    /// The event emitted when the watcher attaches to the game process.
    pub fn game_connected() -> (e: ScanEvent)
        ensures
            e.code == EventCode::GameConnected,
            e.description@ == "Game client found."@,
    {
        ScanEvent { code: EventCode::GameConnected, description: "Game client found.".to_owned() }
    }

    /// The event emitted when the watcher observes the game process exit.
    pub fn game_disconnected() -> (e: ScanEvent)
        ensures
            e.code == EventCode::GameDisconnected,
            e.description@ == "Game client lost."@,
    {
        ScanEvent { code: EventCode::GameDisconnected, description: "Game client lost.".to_owned() }
    }
}

/// First hop of the wallet chain: from the base module address.
pub const WALLET_CHAIN_OFFSET_1: u64 = 0x01DD4358;

/// Second hop of the wallet chain.
pub const WALLET_CHAIN_OFFSET_2: u64 = 0x78;

/// Resolve the wallet base address of a live process from its base module
/// address, via the two-hop pointer chain.  What it yields depends on the
/// process's memory; a failure is one of the memory reader's two errors.
pub fn get_wallet_address(process_id: u32, base_address: u64) -> (r: Result<u64, ScanError>)
    ensures
        r matches Err(e) ==> (e is HandleConversionError || e is MemoryReadError),
{
    let mut hops: Vec<Hop> = Vec::new();
    hops.push(Hop { offset: WALLET_CHAIN_OFFSET_1, read_size: 8 });
    hops.push(Hop { offset: WALLET_CHAIN_OFFSET_2, read_size: 8 });
    resolve_address_live(process_id, base_address, &hops)
}

/// The one-hop chain that reads a currency scalar at `offset` from the
/// wallet base address.
pub open spec fn currency_chain(offset: u64) -> Seq<Hop> {
    seq![(Hop { offset, read_size: 4 })]
}

/// The scanner facade: the three currency offsets, fixed at construction,
/// and the latest state snapshot published by the watcher.
pub struct Scanner {
    pub gil_offset: u64,
    pub mgp_offset: u64,
    pub company_seals_offset: u64,
    pub state: ScanState,
}

impl Scanner {
    /// A scanner with the three wallet-relative currency offsets, starting
    /// detached.  The owner runs the watcher loop and feeds what it
    /// observes through [`Scanner::apply_watcher_input`].
    pub fn new() -> (s: Scanner)
        ensures
            !s.state.attached,
            s.gil_offset == 0xC,
            s.mgp_offset == 0x204,
            s.company_seals_offset == 0x7C,
    {
        Scanner {
            gil_offset: 0xC,
            mgp_offset: 0x204,
            company_seals_offset: 0x7C,
            state: ScanState::new(),
        }
    }

    /// The attached flag of the latest published state.  Race-tolerant by
    /// design: the answer may be stale by the time the caller acts on it,
    /// and every later read failure is authoritative on its own.
    pub fn attached(&self) -> (b: bool)
        ensures
            b == self.state.attached,
    {
        self.state.attached
    }

    /// Publish one watcher step: the watcher is the sole writer of the
    /// state, and the returned step carries the event to emit and what
    /// the loop should do next.
    pub fn apply_watcher_input(&mut self, input: &WatcherInput) -> (step: WatcherStep)
        ensures
            final(self).state == spec_next_state(old(self).state, *input),
            final(self).gil_offset == old(self).gil_offset,
            final(self).mgp_offset == old(self).mgp_offset,
            final(self).company_seals_offset == old(self).company_seals_offset,
            step.state == final(self).state,
            spec_emits_connected(old(self).state, *input) ==> (step.event matches Some(e)
                && e.code == EventCode::GameConnected),
            spec_emits_disconnected(old(self).state, *input) ==> (step.event matches Some(e)
                && e.code == EventCode::GameDisconnected),
            !spec_emits_connected(old(self).state, *input) && !spec_emits_disconnected(
                old(self).state,
                *input,
            ) ==> step.event is None,
            (step.directive is AwaitExit) <==> final(self).state.attached,
    {
        let step = watcher_step(&self.state, input);
        self.state = step.state;
        step
    }

    /// The player's current gil, read from the live process at the cached
    /// wallet address.  A failure is one of the memory reader's two errors.
    pub fn get_gil(&self) -> (r: Result<u32, ScanError>)
        ensures
            r matches Err(e) ==> (e is HandleConversionError || e is MemoryReadError),
    {
        let chain = OffsetChain::single(self.gil_offset);
        resolve_scalar_live(self.state.process_id, self.state.wallet_address, &chain)
    }

    /// The player's current mgp, read as [`Scanner::get_gil`] is.
    pub fn get_mgp(&self) -> (r: Result<u32, ScanError>)
        ensures
            r matches Err(e) ==> (e is HandleConversionError || e is MemoryReadError),
    {
        let chain = OffsetChain::single(self.mgp_offset);
        resolve_scalar_live(self.state.process_id, self.state.wallet_address, &chain)
    }

    /// The player's current company seals, read as [`Scanner::get_gil`] is.
    pub fn get_company_seals(&self) -> (r: Result<u32, ScanError>)
        ensures
            r matches Err(e) ==> (e is HandleConversionError || e is MemoryReadError),
    {
        let chain = OffsetChain::single(self.company_seals_offset);
        resolve_scalar_live(self.state.process_id, self.state.wallet_address, &chain)
    }

    /// One complete scan of the live process: fails immediately with
    /// `NotAttached` while detached, touching neither the memory reader
    /// nor the log; otherwise resolves the three currency chains from the
    /// cached wallet address, stamps the completed result with `now_ms`,
    /// appends it to the log and returns it.  If any chain fails mid-call
    /// the whole call fails with that reader error and nothing partial is
    /// produced or persisted.
    pub fn get_currency(&self, fm: &mut FileManager, now_ms: u64) -> (r: Result<
        ScanResult,
        ScanError,
    >)
        ensures
            !self.state.attached ==> r == Err::<ScanResult, ScanError>(ScanError::NotAttached),
            r matches Err(e) ==> ((e is NotAttached <==> !self.state.attached) && final(fm).log()
                == old(fm).log()),
            r matches Ok(res) ==> self.state.attached && res.timestamp == now_ms
                && final(fm).log() == old(fm).log().push(res),
    {
        if !self.attached() {
            return Err(ScanError::NotAttached);
        }
        let gil = match self.get_gil() {
            Ok(v) => v,
            Err(e) => {
                return Err(e);
            },
        };
        let mgp = match self.get_mgp() {
            Ok(v) => v,
            Err(e) => {
                return Err(e);
            },
        };
        let company_seals = match self.get_company_seals() {
            Ok(v) => v,
            Err(e) => {
                return Err(e);
            },
        };
        let result = ScanResult { gil, mgp, company_seals, timestamp: now_ms };
        fm.append(&result);
        Ok(result)
    }

    /// What one complete scan yields against a memory image: exactly the
    /// three scalars that dereferencing the currency chains by hand
    /// produces, stamped with `now_ms` — or the first failure, with
    /// `NotAttached` taking precedence while detached.
    pub open spec fn spec_scan(self, img: MemoryImage, now_ms: u64) -> Result<
        ScanResult,
        ScanError,
    > {
        if !self.state.attached {
            Err(ScanError::NotAttached)
        } else {
            let wallet = self.state.wallet_address as nat;
            match spec_resolve_scalar(img, wallet, currency_chain(self.gil_offset)) {
                Ok(gil) => match spec_resolve_scalar(img, wallet, currency_chain(self.mgp_offset)) {
                    Ok(mgp) => match spec_resolve_scalar(
                        img,
                        wallet,
                        currency_chain(self.company_seals_offset),
                    ) {
                        Ok(company_seals) => Ok(
                            ScanResult { gil, mgp, company_seals, timestamp: now_ms },
                        ),
                        Err(e) => Err(e),
                    },
                    Err(e) => Err(e),
                },
                Err(e) => Err(e),
            }
        }
    }

    /// One complete scan against a memory image standing in for the live
    /// process: produces exactly what [`Scanner::spec_scan`] says, appends
    /// the completed result to the log, and persists nothing on failure.
    pub fn scan_image(&self, img: &MemoryImage, fm: &mut FileManager, now_ms: u64) -> (r: Result<
        ScanResult,
        ScanError,
    >)
        ensures
            r == self.spec_scan(*img, now_ms),
            r matches Ok(res) ==> final(fm).log() == old(fm).log().push(res),
            r is Err ==> final(fm).log() == old(fm).log(),
    {
        if !self.attached() {
            return Err(ScanError::NotAttached);
        }
        let gil_chain = OffsetChain::single(self.gil_offset);
        proof {
            assert(gil_chain.hops@ =~= currency_chain(self.gil_offset));
        }
        let gil = match resolve_scalar(img, self.state.wallet_address, &gil_chain) {
            Ok(v) => v,
            Err(e) => {
                return Err(e);
            },
        };
        let mgp_chain = OffsetChain::single(self.mgp_offset);
        proof {
            assert(mgp_chain.hops@ =~= currency_chain(self.mgp_offset));
        }
        let mgp = match resolve_scalar(img, self.state.wallet_address, &mgp_chain) {
            Ok(v) => v,
            Err(e) => {
                return Err(e);
            },
        };
        let seals_chain = OffsetChain::single(self.company_seals_offset);
        proof {
            assert(seals_chain.hops@ =~= currency_chain(self.company_seals_offset));
        }
        let company_seals = match resolve_scalar(img, self.state.wallet_address, &seals_chain) {
            Ok(v) => v,
            Err(e) => {
                return Err(e);
            },
        };
        let result = ScanResult { gil, mgp, company_seals, timestamp: now_ms };
        fm.append(&result);
        Ok(result)
    }
}

} // verus!
