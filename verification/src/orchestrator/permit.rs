//! HTTP admission permits: priority, TLS single concurrency and a live heap check.
use vstd::prelude::*;

use crate::constants::{
    MAX_CONCURRENT_HTTP, TLS_ADMISSION_MIN_INTERNAL_BYTES, TLS_ADMISSION_MIN_LARGEST_BLOCK_BYTES,
    TLS_ADMISSION_NO_PSRAM_MIN_BYTES,
};
use crate::error::Error;
use crate::platform::MemorySnapshot;
use crate::text::{chars_to_string, decimal, extend_with_str, push_decimal};
use super::pressure::{PressureLevel, level_of_byte};

verus! {

/// HTTP request priority, lowest first.
#[derive(Debug, Clone, Copy, PartialEq, Eq, Structural)]
pub enum Priority {
    /// Background work (cron, reminders).
    Low,
    /// Channel senders.
    Normal,
    /// Agent LLM requests (a user is waiting).
    High,
    /// Health checks and the configuration API.
    Critical,
}

pub open spec fn priority_rank(p: Priority) -> nat {
    match p {
        Priority::Low => 0,
        Priority::Normal => 1,
        Priority::High => 2,
        Priority::Critical => 3,
    }
}

impl Priority {
    pub fn rank(&self) -> (r: u8)
        ensures
            r == priority_rank(*self),
    {
        match self {
            Priority::Low => 0,
            Priority::Normal => 1,
            Priority::High => 2,
            Priority::Critical => 3,
        }
    }
}

/// Why a permit was refused.
#[derive(Debug, Clone, Copy, PartialEq, Eq, Structural)]
pub enum PermitError {
    /// Critical pressure admits only high and critical priority.
    CriticalPressure,
    /// The concurrency limit is reached and the priority is below high.
    ConcurrencyLimit { active: u32 },
    /// The TLS permit is held by another request (retry until the timeout).
    TlsBusy,
    /// The TLS permit stayed busy until the timeout.
    TimedOut,
    /// Too little free internal heap for a TLS session.
    HeapTooLow { free: u32, min: u32, spiram: u32 },
    /// The internal heap is too fragmented for a TLS session.
    HeapFragmented { largest: u32, min: u32 },
}

/// The internal-heap verdict for one TLS session: with PSRAM the free internal heap and the
/// largest block must reach their thresholds; without PSRAM the free heap must reach the
/// (larger) no-PSRAM threshold.
pub open spec fn tls_heap_verdict(live: MemorySnapshot) -> Result<(), PermitError> {
    let min_free = if live.heap_free_spiram > 0 {
        TLS_ADMISSION_MIN_INTERNAL_BYTES
    } else {
        TLS_ADMISSION_NO_PSRAM_MIN_BYTES
    };
    if live.heap_free_internal < min_free {
        Err(PermitError::HeapTooLow { free: live.heap_free_internal, min: min_free, spiram: live.heap_free_spiram })
    } else if live.heap_free_spiram > 0 && live.heap_largest_block < TLS_ADMISSION_MIN_LARGEST_BLOCK_BYTES {
        Err(PermitError::HeapFragmented { largest: live.heap_largest_block, min: TLS_ADMISSION_MIN_LARGEST_BLOCK_BYTES })
    } else {
        Ok(())
    }
}

/// Checks the live internal heap against the TLS admission thresholds.
pub fn check_internal_heap_for_tls(live: MemorySnapshot) -> (r: Result<(), PermitError>)
    ensures
        r == tls_heap_verdict(live),
{
    let free = live.heap_free_internal;
    let largest = live.heap_largest_block;
    let spiram = live.heap_free_spiram;
    let min_free = if spiram > 0 {
        TLS_ADMISSION_MIN_INTERNAL_BYTES
    } else {
        TLS_ADMISSION_NO_PSRAM_MIN_BYTES
    };
    if free < min_free {
        return Err(PermitError::HeapTooLow { free, min: min_free, spiram });
    }
    if spiram > 0 && largest < TLS_ADMISSION_MIN_LARGEST_BLOCK_BYTES {
        return Err(PermitError::HeapFragmented { largest, min: TLS_ADMISSION_MIN_LARGEST_BLOCK_BYTES });
    }
    Ok(())
}

/// The verdict on a permit request, in the order the checks run: pressure, concurrency, the
/// TLS permit, then the live heap.
pub open spec fn permit_verdict(
    pressure_byte: u8,
    active: u32,
    tls_held: bool,
    priority: Priority,
    live: MemorySnapshot,
) -> Result<(), PermitError> {
    let low = priority_rank(priority) < priority_rank(Priority::High);
    if level_of_byte(pressure_byte) == PressureLevel::Critical && low {
        Err(PermitError::CriticalPressure)
    } else if active >= MAX_CONCURRENT_HTTP && low {
        Err(PermitError::ConcurrencyLimit { active })
    } else if tls_held {
        Err(PermitError::TlsBusy)
    } else {
        tls_heap_verdict(live)
    }
}

/// Proof that one permit is held: it only comes from a granted request.
pub struct HttpPermitGuard {
    pub(crate) priority: Priority,
}

impl HttpPermitGuard {
    /// The priority the permit was granted at.
    pub closed spec fn granted_priority(&self) -> Priority {
        self.priority
    }

    /// A permit for a granted request.
    pub(crate) fn grant(priority: Priority) -> (r: Self)
        ensures
            r.granted_priority() == priority,
    {
        HttpPermitGuard { priority }
    }

    /// The priority the permit was granted at.
    pub fn priority(&self) -> (r: Priority)
        ensures
            r == self.granted_priority(),
    {
        self.priority
    }
}

/// Pause between two tries for a busy TLS permit (ms).
pub const TRY_INTERVAL_MS: u64 = 50;

/// How a refused permit reads as an error (stage `tls_admission`).
pub open spec fn permit_error_text(e: PermitError) -> Seq<char> {
    match e {
        PermitError::CriticalPressure => "critical pressure, low priority rejected"@,
        PermitError::ConcurrencyLimit { active } => "max concurrent HTTP reached ("@ + decimal(active as nat) + "/"@
            + decimal(MAX_CONCURRENT_HTTP as nat) + "), low priority rejected"@,
        PermitError::TlsBusy => "tls admission permit timeout"@,
        PermitError::TimedOut => "tls admission permit timeout"@,
        PermitError::HeapTooLow { free, min, spiram } => "internal heap too low for TLS: free="@ + decimal(free as nat)
            + " min="@ + decimal(min as nat) + " spiram="@ + decimal(spiram as nat),
        PermitError::HeapFragmented { largest, min } => "internal heap fragmented for TLS: largest="@ + decimal(largest as nat)
            + " min="@ + decimal(min as nat),
    }
}

/// A refused permit as an error of stage `tls_admission` (a busy permit that stays busy is
/// reported as a timeout).
pub fn permit_error_to_error(e: PermitError) -> (r: Error)
    ensures
        r matches Error::Other { stage, message } && stage == "tls_admission" && message@ == permit_error_text(e),
{
    let mut v: Vec<char> = Vec::new();
    match e {
        PermitError::CriticalPressure => extend_with_str(&mut v, "critical pressure, low priority rejected"),
        PermitError::ConcurrencyLimit { active } => {
            extend_with_str(&mut v, "max concurrent HTTP reached (");
            push_decimal(&mut v, active as u64);
            extend_with_str(&mut v, "/");
            push_decimal(&mut v, MAX_CONCURRENT_HTTP as u64);
            extend_with_str(&mut v, "), low priority rejected");
        },
        PermitError::TlsBusy => extend_with_str(&mut v, "tls admission permit timeout"),
        PermitError::TimedOut => extend_with_str(&mut v, "tls admission permit timeout"),
        PermitError::HeapTooLow { free, min, spiram } => {
            extend_with_str(&mut v, "internal heap too low for TLS: free=");
            push_decimal(&mut v, free as u64);
            extend_with_str(&mut v, " min=");
            push_decimal(&mut v, min as u64);
            extend_with_str(&mut v, " spiram=");
            push_decimal(&mut v, spiram as u64);
        },
        PermitError::HeapFragmented { largest, min } => {
            extend_with_str(&mut v, "internal heap fragmented for TLS: largest=");
            push_decimal(&mut v, largest as u64);
            extend_with_str(&mut v, " min=");
            push_decimal(&mut v, min as u64);
        },
    }
    Error::Other { stage: "tls_admission", message: chars_to_string(&v) }
}

/// A request of high or critical priority is granted whatever the pressure and the number of
/// open requests, as long as no TLS permit is held and the live heap has room for a TLS session
/// (64 KiB free internal heap and a 16 KiB block cover both the PSRAM and the no-PSRAM case).
pub proof fn lemma_high_priority_granted_when_clear(pressure_byte: u8, active: u32, held: bool, priority: Priority, live: MemorySnapshot)
    requires
        priority == Priority::High || priority == Priority::Critical,
        !held,
        live.heap_free_internal >= 65536,
        live.heap_largest_block >= 16384,
    ensures
        permit_verdict(pressure_byte, active, held, priority, live) == Ok::<(), PermitError>(()),
{
}

/// Under critical pressure a request below high priority is refused for the pressure, whatever
/// else holds.
pub proof fn lemma_low_priority_refused_under_critical(pressure_byte: u8, active: u32, held: bool, priority: Priority, live: MemorySnapshot)
    requires
        level_of_byte(pressure_byte) == PressureLevel::Critical,
        priority == Priority::Low || priority == Priority::Normal,
    ensures
        permit_verdict(pressure_byte, active, held, priority, live) == Err::<(), PermitError>(PermitError::CriticalPressure),
{
}

/// Below critical pressure, a request below high priority is refused only at the concurrency
/// limit or for the TLS permit or the heap; at the limit it is refused for the limit.
pub proof fn lemma_low_priority_at_limit(pressure_byte: u8, active: u32, held: bool, priority: Priority, live: MemorySnapshot)
    requires
        level_of_byte(pressure_byte) != PressureLevel::Critical,
        priority == Priority::Low || priority == Priority::Normal,
    ensures
        active >= MAX_CONCURRENT_HTTP ==> permit_verdict(pressure_byte, active, held, priority, live)
            == Err::<(), PermitError>(PermitError::ConcurrencyLimit { active }),
        active < MAX_CONCURRENT_HTTP && !held && live.heap_free_internal >= 65536 && live.heap_largest_block >= 16384
            ==> permit_verdict(pressure_byte, active, held, priority, live) == Ok::<(), PermitError>(()),
{
}

/// A held TLS permit refuses every request that passes the priority checks with `TlsBusy`.
pub proof fn lemma_held_permit_busy(pressure_byte: u8, active: u32, priority: Priority, live: MemorySnapshot)
    requires
        priority == Priority::High || priority == Priority::Critical,
    ensures
        permit_verdict(pressure_byte, active, true, priority, live) == Err::<(), PermitError>(PermitError::TlsBusy),
{
}

} // verus!
