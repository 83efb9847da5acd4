//! Hysteresis and periodic coalescing for responsiveness telemetry.
use vstd::prelude::*;

verus! {

pub const DEFAULT_RESPONSIVENESS_SUMMARY_INTERVAL_MS: u64 = 60_000;

pub const DEFAULT_TRANSITION_STABILITY_SAMPLES: u8 = 3;

/// How strained the system is.
#[derive(Debug, Clone, Copy, PartialEq, Eq, Structural)]
pub enum ResponsivenessPressure {
    Unknown,
    Normal,
    Elevated,
}

/// What is watched for changes.
#[derive(Debug, Clone, Copy, PartialEq, Eq, Structural)]
pub struct ResponsivenessSignature {
    pub pressure: ResponsivenessPressure,
    pub memory_profile_physical_cores: u16,
}

/// Why a sample is logged.
#[derive(Debug, Clone, Copy, PartialEq, Eq, Structural)]
pub enum ResponsivenessLogReason {
    Initial,
    Transition,
    Periodic,
}

impl ResponsivenessLogReason {
    /// The name of the reason.
    pub fn as_str(self) -> (name: &'static str)
        ensures
            name@ == match self {
                ResponsivenessLogReason::Initial => "initial"@,
                ResponsivenessLogReason::Transition => "transition"@,
                ResponsivenessLogReason::Periodic => "periodic"@,
            },
    {
        match self {
            ResponsivenessLogReason::Initial => "initial",
            ResponsivenessLogReason::Transition => "transition",
            ResponsivenessLogReason::Periodic => "periodic",
        }
    }
}

/// Decides which samples are logged.
#[derive(Debug, Clone, Copy, PartialEq, Eq, Structural)]
pub struct ResponsivenessLogGate {
    pub summary_interval_ms: u64,
    pub transition_stability_samples: u8,
    pub last_emitted_ms: Option<u64>,
    pub last_signature: Option<ResponsivenessSignature>,
    /// A pressure that was seen lately and not yet logged.
    pub candidate_signature: Option<ResponsivenessSignature>,
    /// How often in a row it was seen.
    pub candidate_samples: u8,
}

impl ResponsivenessLogGate {
    /// A gate that waits for `transition_stability_samples` samples, and at
    /// least one, before it takes a change of pressure for real.
    pub fn new(summary_interval_ms: u64, transition_stability_samples: u8) -> (gate:
        ResponsivenessLogGate)
        ensures
            gate == (ResponsivenessLogGate {
                summary_interval_ms,
                transition_stability_samples: if transition_stability_samples == 0 {
                    1
                } else {
                    transition_stability_samples
                },
                last_emitted_ms: None,
                last_signature: None,
                candidate_signature: None,
                candidate_samples: 0,
            }),
    {
        ResponsivenessLogGate {
            summary_interval_ms,
            transition_stability_samples: if transition_stability_samples == 0 {
                1
            } else {
                transition_stability_samples
            },
            last_emitted_ms: None,
            last_signature: None,
            candidate_signature: None,
            candidate_samples: 0,
        }
    }

    /// How often in a row this sample was seen, with it.
    pub open spec fn seen(self, signature: ResponsivenessSignature) -> u8 {
        if self.candidate_signature == Some(signature) {
            if self.candidate_samples < u8::MAX {
                (self.candidate_samples + 1) as u8
            } else {
                u8::MAX
            }
        } else {
            1
        }
    }

    /// Whether the interval since the last logged sample has passed.
    pub open spec fn periodic_due(self, now_ms: u64) -> bool {
        self.last_emitted_ms matches Some(last) && (if now_ms >= last {
            now_ms - last
        } else {
            0
        }) >= self.summary_interval_ms
    }

    /// Why a sample is logged, if it is: the first one; a change of width, or
    /// one that is said to be a change; a change of pressure that has lasted;
    /// and one in every interval.
    pub open spec fn reason_for(
        self,
        now_ms: u64,
        signature: ResponsivenessSignature,
        force_transition: bool,
    ) -> Option<ResponsivenessLogReason> {
        match self.last_signature {
            None => Some(ResponsivenessLogReason::Initial),
            Some(last) => {
                if force_transition || signature.memory_profile_physical_cores
                    != last.memory_profile_physical_cores {
                    Some(ResponsivenessLogReason::Transition)
                } else if signature != last && self.seen(signature)
                    >= self.transition_stability_samples {
                    Some(ResponsivenessLogReason::Transition)
                } else if self.periodic_due(now_ms) {
                    Some(ResponsivenessLogReason::Periodic)
                } else {
                    None
                }
            },
        }
    }

    /// What is remembered after a sample.
    pub open spec fn after(
        self,
        now_ms: u64,
        signature: ResponsivenessSignature,
        force_transition: bool,
    ) -> ResponsivenessLogGate {
        if self.reason_for(now_ms, signature, force_transition) is Some {
            ResponsivenessLogGate {
                last_emitted_ms: Some(now_ms),
                last_signature: Some(signature),
                candidate_signature: None,
                candidate_samples: 0,
                ..self
            }
        } else if self.last_signature == Some(signature) {
            ResponsivenessLogGate { candidate_signature: None, candidate_samples: 0, ..self }
        } else {
            ResponsivenessLogGate {
                candidate_signature: Some(signature),
                candidate_samples: self.seen(signature),
                ..self
            }
        }
    }

    /// Takes a sample and says whether, and why, it is logged.
    pub fn decide(
        &mut self,
        now_ms: u64,
        signature: ResponsivenessSignature,
        force_transition: bool,
    ) -> (reason: Option<ResponsivenessLogReason>)
        ensures
            reason == old(self).reason_for(now_ms, signature, force_transition),
            *final(self) == old(self).after(now_ms, signature, force_transition),
    {
        let last_signature = match self.last_signature {
            Some(last) => last,
            None => {
                return Some(self.record(now_ms, signature, ResponsivenessLogReason::Initial));
            },
        };
        if force_transition || signature.memory_profile_physical_cores
            != last_signature.memory_profile_physical_cores {
            return Some(self.record(now_ms, signature, ResponsivenessLogReason::Transition));
        }
        if signature == last_signature {
            self.candidate_signature = None;
            self.candidate_samples = 0;
        } else {
            let repeated = match self.candidate_signature {
                Some(candidate) => candidate == signature,
                None => false,
            };
            if repeated {
                self.candidate_samples = self.candidate_samples.saturating_add(1);
            } else {
                self.candidate_signature = Some(signature);
                self.candidate_samples = 1;
            }
            if self.candidate_samples >= self.transition_stability_samples {
                return Some(self.record(now_ms, signature, ResponsivenessLogReason::Transition));
            }
        }
        if let Some(last) = self.last_emitted_ms {
            if now_ms.saturating_sub(last) >= self.summary_interval_ms {
                return Some(self.record(now_ms, signature, ResponsivenessLogReason::Periodic));
            }
        }
        None
    }

    fn record(
        &mut self,
        now_ms: u64,
        signature: ResponsivenessSignature,
        reason: ResponsivenessLogReason,
    ) -> (same: ResponsivenessLogReason)
        ensures
            same == reason,
            *final(self) == (ResponsivenessLogGate {
                last_emitted_ms: Some(now_ms),
                last_signature: Some(signature),
                candidate_signature: None,
                candidate_samples: 0,
                ..*old(self)
            }),
    {
        self.last_emitted_ms = Some(now_ms);
        self.last_signature = Some(signature);
        self.candidate_signature = None;
        self.candidate_samples = 0;
        reason
    }
}

impl Default for ResponsivenessLogGate {
    fn default() -> (gate: ResponsivenessLogGate)
        ensures
            gate == (ResponsivenessLogGate {
                summary_interval_ms: DEFAULT_RESPONSIVENESS_SUMMARY_INTERVAL_MS,
                transition_stability_samples: DEFAULT_TRANSITION_STABILITY_SAMPLES,
                last_emitted_ms: None,
                last_signature: None,
                candidate_signature: None,
                candidate_samples: 0,
            }),
    {
        ResponsivenessLogGate::new(
            DEFAULT_RESPONSIVENESS_SUMMARY_INTERVAL_MS,
            DEFAULT_TRANSITION_STABILITY_SAMPLES,
        )
    }
}

/// A change of pressure alone is logged as a change only when it has been
/// seen in as many samples in a row as are asked for.
pub proof fn transitions_need_stable_samples(
    gate: ResponsivenessLogGate,
    now_ms: u64,
    signature: ResponsivenessSignature,
)
    requires
        gate.last_signature matches Some(last) && last.memory_profile_physical_cores
            == signature.memory_profile_physical_cores,
        gate.reason_for(now_ms, signature, false) == Some(ResponsivenessLogReason::Transition),
    ensures
        gate.seen(signature) >= gate.transition_stability_samples,
        gate.transition_stability_samples > 1 ==> gate.candidate_signature == Some(signature),
{
}

/// In a steady state a sample is logged exactly when the interval since the
/// last logged one has passed.
pub proof fn steady_states_are_logged_periodically(
    gate: ResponsivenessLogGate,
    now_ms: u64,
    signature: ResponsivenessSignature,
    last_ms: u64,
)
    requires
        gate.last_signature == Some(signature),
        gate.last_emitted_ms == Some(last_ms),
        last_ms <= now_ms,
    ensures
        gate.reason_for(now_ms, signature, false) == if now_ms - last_ms
            >= gate.summary_interval_ms {
            Some(ResponsivenessLogReason::Periodic)
        } else {
            None
        },
{
}

/// The first sample is logged as such. After it a changed width, and what is
/// said to be a change, is logged at once as a change; no other reason is given
/// for either.
pub proof fn first_samples_and_widths_are_logged_at_once(
    gate: ResponsivenessLogGate,
    now_ms: u64,
    signature: ResponsivenessSignature,
    force_transition: bool,
)
    ensures
        gate.last_signature is None <==> gate.reason_for(now_ms, signature, force_transition)
            == Some(ResponsivenessLogReason::Initial),
        gate.last_signature matches Some(last) ==> {
            &&& last.memory_profile_physical_cores != signature.memory_profile_physical_cores
                ==> gate.reason_for(now_ms, signature, force_transition) == Some(
                ResponsivenessLogReason::Transition,
            )
            &&& force_transition ==> gate.reason_for(now_ms, signature, force_transition) == Some(
                ResponsivenessLogReason::Transition,
            )
        },
{
}

/// A logged sample is the one that later ones are held against, and its time
/// the one that the interval counts from; whatever was seen lately is
/// forgotten.
pub proof fn logged_samples_are_remembered(
    gate: ResponsivenessLogGate,
    now_ms: u64,
    signature: ResponsivenessSignature,
    force_transition: bool,
)
    ensures
        ({
            let after = gate.after(now_ms, signature, force_transition);
            let logged = gate.reason_for(now_ms, signature, force_transition) is Some;
            &&& logged ==> after.last_signature == Some(signature) && after.last_emitted_ms == Some(
                now_ms,
            ) && after.candidate_signature is None && after.candidate_samples == 0
            &&& !logged ==> after.last_signature == gate.last_signature && after.last_emitted_ms
                == gate.last_emitted_ms
            &&& after.summary_interval_ms == gate.summary_interval_ms
            &&& after.transition_stability_samples == gate.transition_stability_samples
        }),
{
}

/// A changed pressure is counted while it lasts, one sample at a time; a sample
/// like the logged one ends the count, and one that differs from both begins a
/// new one.
pub proof fn lasting_changes_are_counted(
    gate: ResponsivenessLogGate,
    now_ms: u64,
    signature: ResponsivenessSignature,
)
    requires
        gate.reason_for(now_ms, signature, false) is None,
    ensures
        ({
            let after = gate.after(now_ms, signature, false);
            let same = gate.last_signature == Some(signature);
            &&& same ==> after.candidate_signature is None && after.candidate_samples == 0
            &&& !same ==> after.candidate_signature == Some(signature)
            &&& !same && gate.candidate_signature == Some(signature) && gate.candidate_samples < 255
                ==> after.candidate_samples == gate.candidate_samples + 1
            &&& !same && gate.candidate_signature != Some(signature) ==> after.candidate_samples
                == 1
        }),
{
}

/// A changed pressure is logged with the sample that makes it last long
/// enough, and not before, unless the interval has passed.
pub proof fn lasting_changes_are_logged(
    gate: ResponsivenessLogGate,
    now_ms: u64,
    signature: ResponsivenessSignature,
    last: ResponsivenessSignature,
)
    requires
        gate.last_signature == Some(last),
        signature.memory_profile_physical_cores == last.memory_profile_physical_cores,
        signature.pressure != last.pressure,
        gate.candidate_signature == Some(signature),
        gate.candidate_samples < 255,
    ensures
        gate.candidate_samples + 1 >= gate.transition_stability_samples ==> gate.reason_for(
            now_ms,
            signature,
            false,
        ) == Some(ResponsivenessLogReason::Transition),
        gate.candidate_samples + 1 < gate.transition_stability_samples && gate.last_emitted_ms
            == Some(now_ms) && gate.summary_interval_ms > 0 ==> gate.reason_for(
            now_ms,
            signature,
            false,
        ) is None,
{
}

} // verus!
