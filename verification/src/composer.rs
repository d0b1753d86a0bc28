//! The proof composer lifecycle.
//!
//! A composer is the owner of one opaque engine handle, carrying it through
//! key setup, proving, verification and release. The engine performs the
//! work; this module owns the sequencing and the classification of every
//! reply. Each operation takes the engine's reply as plain values — whether
//! a handle or output came back, and the advisory diagnostic — and its
//! contract states, over the lifecycle model, exactly how the reply is
//! classified, which decode depth applies to the output, and how the state
//! advances. Success is always decided by the primary output alone; the
//! diagnostic rides beside it and is surfaced whether or not the call
//! succeeded.
//!
//! Ordering rules differ deliberately. Deriving the verification key needs
//! the proving key first, and is demanded of every verified caller. The
//! verification-key consumers check at run time and answer
//! `VerificationKeyMissing`, hardening what the engine itself leaves
//! unchecked. Proving before the proving key is initialized is left to the
//! engine on purpose: its reply alone decides the outcome, so a test double
//! pins whichever behavior it documents.

use vstd::prelude::*;

use crate::buffer::{decode, decode_layers, decode_spec, decode_layers_spec};
use crate::errors::{BackendError, Outcome};

verus! {

/// The observable lifecycle state of one composer.
pub struct ComposerModel {
    pub size_hint: u32,
    pub proving_key_ready: bool,
    pub verification_key_ready: bool,
    pub proof_produced: bool,
    pub released: bool,
}

/// A freshly created composer: sized, holding no keys, no proof, live.
pub open spec fn fresh_model(size_hint: u32) -> ComposerModel {
    ComposerModel {
        size_hint,
        proving_key_ready: false,
        verification_key_ready: false,
        proof_produced: false,
        released: false,
    }
}

/// One observed step of a composer's life. Proving carries whether the
/// engine produced a decodable proof; the queries leave the state alone.
#[derive(Clone, Copy, Debug, PartialEq, Eq, Structural)]
pub enum LifecycleEvent {
    InitProvingKey,
    CreateProof { produced: bool },
    LoadVerificationKey,
    InitVerificationKey,
    GetVerificationKey,
    VerifyProof,
    GetSolidityVerifier,
    SerializeProofIntoFields,
    SerializeVerificationKeyIntoFields,
    Destroy,
}

/// When an event may happen: never on a released composer, and deriving the
/// verification key only once the proving key is ready.
pub open spec fn event_enabled(m: ComposerModel, e: LifecycleEvent) -> bool {
    &&& !m.released
    &&& match e {
        LifecycleEvent::InitVerificationKey => m.proving_key_ready,
        _ => true,
    }
}

/// How the state advances on an event.
pub open spec fn event_step(m: ComposerModel, e: LifecycleEvent) -> ComposerModel {
    match e {
        LifecycleEvent::InitProvingKey => ComposerModel { proving_key_ready: true, ..m },
        LifecycleEvent::CreateProof { produced } => ComposerModel {
            proof_produced: m.proof_produced || produced,
            ..m
        },
        LifecycleEvent::LoadVerificationKey => ComposerModel {
            verification_key_ready: true,
            ..m
        },
        LifecycleEvent::InitVerificationKey => ComposerModel {
            verification_key_ready: true,
            ..m
        },
        LifecycleEvent::Destroy => ComposerModel { released: true, ..m },
        _ => m,
    }
}

/// Whether a whole run of events is admissible from a state.
pub open spec fn trace_enabled(m: ComposerModel, t: Seq<LifecycleEvent>) -> bool
    decreases t.len(),
{
    t.len() == 0 || (event_enabled(m, t[0]) && trace_enabled(
        event_step(m, t[0]),
        t.subrange(1, t.len() as int),
    ))
}

/// The state a run of events leaves behind.
pub open spec fn run_trace(m: ComposerModel, t: Seq<LifecycleEvent>) -> ComposerModel
    decreases t.len(),
{
    if t.len() == 0 {
        m
    } else {
        run_trace(event_step(m, t[0]), t.subrange(1, t.len() as int))
    }
}

/// How many times a run releases the handle.
pub open spec fn destroy_count(t: Seq<LifecycleEvent>) -> nat
    decreases t.len(),
{
    if t.len() == 0 {
        0
    } else {
        (if t[0] is Destroy {
            1nat
        } else {
            0nat
        }) + destroy_count(t.subrange(1, t.len() as int))
    }
}

/// A released composer admits nothing further: the only admissible run from
/// a released state is the empty one.
pub proof fn lemma_released_is_final(m: ComposerModel, t: Seq<LifecycleEvent>)
    requires
        m.released,
        trace_enabled(m, t),
    ensures
        t.len() == 0,
{
}

/// Cleanup runs at most once. Along any admissible run of a live composer,
/// the handle is released at most one time, and the run ends released
/// exactly when that one release happened — whatever successes, failures or
/// early exits the run otherwise holds.
pub proof fn lemma_destroy_once(m: ComposerModel, t: Seq<LifecycleEvent>)
    requires
        !m.released,
        trace_enabled(m, t),
    ensures
        destroy_count(t) <= 1,
        run_trace(m, t).released <==> destroy_count(t) == 1,
    decreases t.len(),
{
    if t.len() > 0 {
        let e = t[0];
        let next = event_step(m, e);
        let rest = t.subrange(1, t.len() as int);
        if e is Destroy {
            lemma_released_is_final(next, rest);
            assert(destroy_count(rest) == 0);
            assert(run_trace(m, t) == run_trace(next, rest));
            assert(run_trace(next, rest) == next);
        } else {
            assert(!next.released);
            lemma_destroy_once(next, rest);
        }
    }
}

/// The bookkeeping half of one engine composer handle: the application owns
/// the raw handle, this value carries its lifecycle state, and the two move
/// together.
#[derive(Debug)]
pub struct AcirComposer {
    size_hint: u32,
    proving_key_ready: bool,
    verification_key_ready: bool,
    proof_produced: bool,
    released: bool,
}

impl View for AcirComposer {
    type V = ComposerModel;

    closed spec fn view(&self) -> ComposerModel {
        ComposerModel {
            size_hint: self.size_hint,
            proving_key_ready: self.proving_key_ready,
            verification_key_ready: self.verification_key_ready,
            proof_produced: self.proof_produced,
            released: self.released,
        }
    }
}

impl AcirComposer {
    /// Classifies the engine's reply to a creation request sized for
    /// `size_hint` gates. A composer exists exactly when a handle came
    /// back; the diagnostic is advisory and changes nothing of that.
    pub fn new(size_hint: u32, handle_acquired: bool, diagnostic: Option<String>) -> (r: Outcome<
        AcirComposer,
    >)
        ensures
            r.diagnostic == diagnostic,
            match r.result {
                Ok(c) => handle_acquired && c@ == fresh_model(size_hint),
                Err(e) => !handle_acquired && e == BackendError::CreationFailed,
            },
    {
        if handle_acquired {
            Outcome {
                result: Ok(
                    AcirComposer {
                        size_hint,
                        proving_key_ready: false,
                        verification_key_ready: false,
                        proof_produced: false,
                        released: false,
                    },
                ),
                diagnostic,
            }
        } else {
            Outcome { result: Err(BackendError::CreationFailed), diagnostic }
        }
    }

    /// Records the proving-key initialization and surfaces the engine's
    /// diagnostic. The engine does not promise the call is idempotent, so
    /// repeating it is the caller's own risk; the transition itself is
    /// one-directional.
    pub fn init_proving_key(&mut self, diagnostic: Option<String>) -> (r: Option<String>)
        requires
            event_enabled(old(self)@, LifecycleEvent::InitProvingKey),
        ensures
            final(self)@ == event_step(old(self)@, LifecycleEvent::InitProvingKey),
            r == diagnostic,
    {
        self.proving_key_ready = true;
        diagnostic
    }

    /// Classifies the engine's reply to a proving request. The engine wraps
    /// its proof twice, so exactly two decode passes apply here — unlike
    /// every other reply. Whether the proving key was initialized first is
    /// deliberately not re-validated, mirroring the engine's own contract:
    /// the reply alone decides the outcome.
    pub fn create_proof(&mut self, raw: Option<Vec<u8>>, diagnostic: Option<String>) -> (r: Outcome<
        Vec<u8>,
    >)
        requires
            event_enabled(old(self)@, LifecycleEvent::CreateProof { produced: false }),
        ensures
            r.diagnostic == diagnostic,
            match raw {
                Some(bytes) => match decode_layers_spec(bytes@, 2) {
                    Some(payload) => r.result matches Ok(proof) && proof@ == payload
                        && final(self)@ == event_step(
                        old(self)@,
                        LifecycleEvent::CreateProof { produced: true },
                    ),
                    None => r.result matches Err(e) && e == BackendError::MalformedBuffer
                        && final(self)@ == old(self)@,
                },
                None => r.result matches Err(e) && e == BackendError::ProofGenerationFailed
                    && final(self)@ == old(self)@,
            },
    {
        match raw {
            Some(bytes) => match decode_layers(bytes.as_slice(), 2) {
                Ok(buf) => {
                    self.proof_produced = true;
                    Outcome { result: Ok(buf.to_vec()), diagnostic }
                },
                Err(e) => Outcome { result: Err(e), diagnostic },
            },
            None => Outcome { result: Err(BackendError::ProofGenerationFailed), diagnostic },
        }
    }

    /// Records that externally supplied verification-key bytes were handed
    /// to the engine. Nothing validates the bytes at this layer: a
    /// malformed key surfaces later at verification, or not at all — a
    /// trust boundary the caller owns.
    pub fn load_verification_key(&mut self, diagnostic: Option<String>) -> (r: Option<String>)
        requires
            event_enabled(old(self)@, LifecycleEvent::LoadVerificationKey),
        ensures
            final(self)@ == event_step(old(self)@, LifecycleEvent::LoadVerificationKey),
            r == diagnostic,
    {
        self.verification_key_ready = true;
        diagnostic
    }

    /// Records the derivation of the verification key from the proving key;
    /// the proving key must be ready first, and every verified caller shows
    /// it.
    pub fn init_verification_key(&mut self, diagnostic: Option<String>) -> (r: Option<String>)
        requires
            event_enabled(old(self)@, LifecycleEvent::InitVerificationKey),
        ensures
            final(self)@ == event_step(old(self)@, LifecycleEvent::InitVerificationKey),
            r == diagnostic,
    {
        self.verification_key_ready = true;
        diagnostic
    }

    /// Classifies the engine's reply to a verification-key query: one
    /// decode pass. Without a ready verification key the query is answered
    /// `VerificationKeyMissing` before any reply is read.
    pub fn get_verification_key(&self, raw: Option<Vec<u8>>, diagnostic: Option<String>) -> (r:
        Outcome<Vec<u8>>)
        requires
            !self@.released,
        ensures
            r.diagnostic == diagnostic,
            !self@.verification_key_ready ==> (r.result matches Err(e) && e
                == BackendError::VerificationKeyMissing),
            self@.verification_key_ready ==> match raw {
                Some(bytes) => match decode_spec(bytes@) {
                    Some(payload) => r.result matches Ok(key) && key@ == payload,
                    None => r.result matches Err(e) && e == BackendError::MalformedBuffer,
                },
                None => r.result matches Err(e) && e == BackendError::SerializationFailed,
            },
    {
        if !self.verification_key_ready {
            return Outcome { result: Err(BackendError::VerificationKeyMissing), diagnostic };
        }
        match raw {
            Some(bytes) => match decode(bytes.as_slice()) {
                Ok(buf) => Outcome { result: Ok(buf.to_vec()), diagnostic },
                Err(e) => Outcome { result: Err(e), diagnostic },
            },
            None => Outcome { result: Err(BackendError::SerializationFailed), diagnostic },
        }
    }

    /// Surfaces the engine's verdict on a proof. A failing proof is the
    /// verdict `false`, a legitimate answer and never an error; an engine
    /// diagnostic signals an execution problem and travels on the side
    /// channel, distinct from the verdict. Without a ready verification key
    /// the call is answered `VerificationKeyMissing` instead.
    pub fn verify_proof(&self, verdict: bool, diagnostic: Option<String>) -> (r: Outcome<bool>)
        requires
            !self@.released,
        ensures
            r.diagnostic == diagnostic,
            !self@.verification_key_ready ==> (r.result matches Err(e) && e
                == BackendError::VerificationKeyMissing),
            self@.verification_key_ready ==> (r.result matches Ok(v) && v == verdict),
    {
        if !self.verification_key_ready {
            return Outcome { result: Err(BackendError::VerificationKeyMissing), diagnostic };
        }
        Outcome { result: Ok(verdict), diagnostic }
    }

    /// Classifies the engine's reply to a verifier-contract rendering: a
    /// raw text blob, no framing at all. Needs the verification key ready;
    /// an absent reply is a serialization failure.
    pub fn get_solidity_verifier(&self, text: Option<String>, diagnostic: Option<String>) -> (r:
        Outcome<String>)
        requires
            !self@.released,
        ensures
            r.diagnostic == diagnostic,
            !self@.verification_key_ready ==> (r.result matches Err(e) && e
                == BackendError::VerificationKeyMissing),
            self@.verification_key_ready ==> match text {
                Some(s) => r.result matches Ok(v) && v@ == s@,
                None => r.result matches Err(e) && e == BackendError::SerializationFailed,
            },
    {
        if !self.verification_key_ready {
            return Outcome { result: Err(BackendError::VerificationKeyMissing), diagnostic };
        }
        match text {
            Some(s) => Outcome { result: Ok(s), diagnostic },
            None => Outcome { result: Err(BackendError::SerializationFailed), diagnostic },
        }
    }

    /// Classifies the engine's reply to a proof-to-field-elements
    /// conversion: one decode pass, not the proving call's two — the decode
    /// depth is this operation's own contract.
    pub fn serialize_proof_into_fields(
        &self,
        raw: Option<Vec<u8>>,
        diagnostic: Option<String>,
    ) -> (r: Outcome<Vec<u8>>)
        requires
            !self@.released,
        ensures
            r.diagnostic == diagnostic,
            match raw {
                Some(bytes) => match decode_spec(bytes@) {
                    Some(payload) => r.result matches Ok(fields) && fields@ == payload,
                    None => r.result matches Err(e) && e == BackendError::MalformedBuffer,
                },
                None => r.result matches Err(e) && e == BackendError::SerializationFailed,
            },
    {
        match raw {
            Some(bytes) => match decode(bytes.as_slice()) {
                Ok(buf) => Outcome { result: Ok(buf.to_vec()), diagnostic },
                Err(e) => Outcome { result: Err(e), diagnostic },
            },
            None => Outcome { result: Err(BackendError::SerializationFailed), diagnostic },
        }
    }

    /// Classifies the engine's reply to a verification-key-to-fields
    /// conversion: the key fields and the key hash, one decode pass each.
    /// The writable location for the hash is guarded by the application
    /// before the call ever happens; here an absent reply on either side is
    /// a serialization failure.
    pub fn serialize_verification_key_into_fields(
        &self,
        raw_key: Option<Vec<u8>>,
        raw_hash: Option<Vec<u8>>,
        diagnostic: Option<String>,
    ) -> (r: Outcome<(Vec<u8>, Vec<u8>)>)
        requires
            !self@.released,
        ensures
            r.diagnostic == diagnostic,
            match (raw_key, raw_hash) {
                (Some(key_bytes), Some(hash_bytes)) => match (
                    decode_spec(key_bytes@),
                    decode_spec(hash_bytes@),
                ) {
                    (Some(key), Some(hash)) => r.result matches Ok(pair) && pair.0@ == key
                        && pair.1@ == hash,
                    _ => r.result matches Err(e) && e == BackendError::MalformedBuffer,
                },
                _ => r.result matches Err(e) && e == BackendError::SerializationFailed,
            },
    {
        let key_bytes = match raw_key {
            Some(b) => b,
            None => {
                return Outcome { result: Err(BackendError::SerializationFailed), diagnostic };
            },
        };
        let hash_bytes = match raw_hash {
            Some(b) => b,
            None => {
                return Outcome { result: Err(BackendError::SerializationFailed), diagnostic };
            },
        };
        let key = match decode(key_bytes.as_slice()) {
            Ok(buf) => buf.to_vec(),
            Err(e) => {
                return Outcome { result: Err(e), diagnostic };
            },
        };
        let hash = match decode(hash_bytes.as_slice()) {
            Ok(buf) => buf.to_vec(),
            Err(e) => {
                return Outcome { result: Err(e), diagnostic };
            },
        };
        Outcome { result: Ok((key, hash)), diagnostic }
    }

    /// Releases the handle's bookkeeping and surfaces the engine's
    /// diagnostic from the release call. A released composer admits no
    /// further operation, this one included: release happens at most once,
    /// and `lemma_destroy_once` states it for whole runs.
    pub fn destroy(&mut self, diagnostic: Option<String>) -> (r: Option<String>)
        requires
            event_enabled(old(self)@, LifecycleEvent::Destroy),
        ensures
            final(self)@ == event_step(old(self)@, LifecycleEvent::Destroy),
            r == diagnostic,
    {
        self.released = true;
        diagnostic
    }

    /// Gate capacity requested at creation.
    pub fn size_hint(&self) -> (r: u32)
        ensures
            r == self@.size_hint,
    {
        self.size_hint
    }

    /// Whether the proving key is ready.
    pub fn proving_key_ready(&self) -> (r: bool)
        ensures
            r == self@.proving_key_ready,
    {
        self.proving_key_ready
    }

    /// Whether the verification key is ready.
    pub fn verification_key_ready(&self) -> (r: bool)
        ensures
            r == self@.verification_key_ready,
    {
        self.verification_key_ready
    }

    /// Whether a proof has been produced on this composer.
    pub fn proof_produced(&self) -> (r: bool)
        ensures
            r == self@.proof_produced,
    {
        self.proof_produced
    }

    /// Whether the handle was released.
    pub fn is_released(&self) -> (r: bool)
        ensures
            r == self@.released,
    {
        self.released
    }
}

} // verus!
