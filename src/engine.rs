//! The engine binding's lifecycle and the checks made before each native call.
//!
//! A binding is `Loaded` once every required symbol was resolved,
//! `Initialized` once the engine's `initialize` reported success, and
//! `Finalized` after `finalize`. Inference is permitted only while
//! `Initialized`, and only on buffers that cover the lengths the call declares.
use vstd::prelude::*;
use crate::symbols::{check_symbols, required_symbols, LoadError, SYMBOL_COUNT};
use crate::text::text_from_c_bytes;
use vstd::utf8::{decode_utf8, valid_utf8};

verus! {

/// Where a binding stands in its lifecycle.
#[derive(Clone, Copy, PartialEq, Eq, Structural, Debug)]
pub enum EngineState {
    Loaded,
    Initialized,
    Finalized,
}

/// Why a call was refused before it reached the engine.
#[derive(Clone, Copy, PartialEq, Eq, Structural, Debug)]
pub enum EngineError {
    /// The binding's state does not permit the call.
    WrongState(EngineState),
    /// A declared length or frame width is negative.
    NegativeLength,
    /// A buffer holds fewer elements than the call declares.
    BufferTooShort,
    /// The resource directory path holds a NUL character, so it cannot be
    /// passed as a C string.
    PathHasNul,
}

/// A binding to a loaded engine, tracking its lifecycle.
#[derive(Debug)]
pub struct VoicevoxCore {
    state: EngineState,
}

/// Whether a buffer of `len` elements covers `need` elements.
pub open spec fn covers(len: usize, need: int) -> bool {
    len as int >= need
}

/// Whether the text contains no NUL character.
pub open spec fn nul_free(s: Seq<char>) -> bool {
    forall|i: int| 0 <= i < s.len() ==> s[i] != '\0'
}

/// The outcome of a check that requires the `Initialized` state, a
/// non-negative length and buffers that cover what the call declares.
pub open spec fn inference_outcome(state: EngineState, length_ok: bool, buffers_ok: bool) -> Result<
    (),
    EngineError,
> {
    if state != EngineState::Initialized {
        Err(EngineError::WrongState(state))
    } else if !length_ok {
        Err(EngineError::NegativeLength)
    } else if !buffers_ok {
        Err(EngineError::BufferTooShort)
    } else {
        Ok(())
    }
}

/// Whether the C text of the engine's last error reads as the given text.
pub open spec fn error_text_matches(raw: Seq<u8>, r: Option<String>) -> bool {
    &&& r is Some <==> valid_utf8(raw)
    &&& r is Some ==> r->0@ == decode_utf8(raw)
}

fn find_nul(s: &str) -> (r: bool)
    ensures
        r == !nul_free(s@),
{
    let n = s.unicode_len();
    let mut i: usize = 0;
    while i < n
        invariant
            n == s@.len(),
            0 <= i <= n,
            forall|k: int| 0 <= k < i ==> s@[k] != '\0',
        decreases n - i,
    {
        if s.get_char(i) == '\0' {
            return true;
        }
        i = i + 1;
    }
    false
}

impl VoicevoxCore {
    /// The binding's lifecycle state.
    pub closed spec fn spec_state(&self) -> EngineState {
        self.state
    }

    /// Builds a binding from the outcome of resolving each required symbol
    /// (in the order of `required_symbols`).
    ///
    /// Construction is all-or-nothing: it succeeds, in the `Loaded` state,
    /// exactly when every symbol was found, and otherwise names the first
    /// missing one.
    pub fn from_symbols(found: &Vec<bool>) -> (r: Result<VoicevoxCore, LoadError>)
        requires
            found@.len() == SYMBOL_COUNT,
        ensures
            r is Ok <==> (forall|i: int| 0 <= i < found@.len() ==> found@[i]),
            match r {
                Ok(core) => core.spec_state() == EngineState::Loaded,
                Err(LoadError::MissingSymbol(name)) => exists|i: int|
                    0 <= i < found@.len() && !found@[i] && name@ == required_symbols()[i]
                        && (forall|j: int| 0 <= j < i ==> found@[j]),
            },
    {
        match check_symbols(found) {
            Ok(()) => Ok(VoicevoxCore { state: EngineState::Loaded }),
            Err(e) => Err(e),
        }
    }

    /// The binding's lifecycle state.
    pub fn state(&self) -> (r: EngineState)
        ensures
            r == self.spec_state(),
    {
        self.state
    }

    /// Decides whether the engine's `initialize` may be called with the
    /// given resource directory: only from `Loaded`, and only with a path
    /// that can be passed as a C string.
    pub fn check_initialize(&self, root_dir_path: &str) -> (r: Result<(), EngineError>)
        ensures
            r == (if self.spec_state() != EngineState::Loaded {
                Err(EngineError::WrongState(self.spec_state()))
            } else if !nul_free(root_dir_path@) {
                Err(EngineError::PathHasNul)
            } else {
                Ok(())
            }),
    {
        if self.state != EngineState::Loaded {
            Err(EngineError::WrongState(self.state))
        } else if find_nul(root_dir_path) {
            Err(EngineError::PathHasNul)
        } else {
            Ok(())
        }
    }

    /// Records what the engine's `initialize` reported, and hands it back.
    ///
    /// The binding becomes `Initialized` on success and stays `Loaded`
    /// otherwise.
    pub fn record_initialize(&mut self, succeeded: bool) -> (r: bool)
        requires
            old(self).spec_state() == EngineState::Loaded,
        ensures
            r == succeeded,
            final(self).spec_state() == (if succeeded {
                EngineState::Initialized
            } else {
                EngineState::Loaded
            }),
    {
        if succeeded {
            self.state = EngineState::Initialized;
        }
        succeeded
    }

    /// Decides whether the engine's `finalize` may be called, and if so
    /// moves the binding to `Finalized`.
    ///
    /// It may be called once, from `Initialized`; in any other state the
    /// binding is left as it is.
    pub fn finalize(&mut self) -> (r: Result<(), EngineError>)
        ensures
            old(self).spec_state() == EngineState::Initialized ==> r is Ok
                && final(self).spec_state() == EngineState::Finalized,
            old(self).spec_state() != EngineState::Initialized ==> r == Err::<(), EngineError>(
                EngineError::WrongState(old(self).spec_state()),
            ) && final(self).spec_state() == old(self).spec_state(),
    {
        if self.state == EngineState::Initialized {
            self.state = EngineState::Finalized;
            Ok(())
        } else {
            Err(EngineError::WrongState(self.state))
        }
    }

    /// Decides whether the duration stage may run on `length` phonemes, with
    /// buffers of the given lengths: each must hold at least `length`
    /// elements.
    pub fn check_yukarin_s_forward(
        &self,
        length: i32,
        phoneme_list_len: usize,
        speaker_id_len: usize,
        output_len: usize,
    ) -> (r: Result<(), EngineError>)
        ensures
            r == inference_outcome(
                self.spec_state(),
                length >= 0,
                covers(phoneme_list_len, length as int) && covers(speaker_id_len, length as int)
                    && covers(output_len, length as int),
            ),
            !covers(output_len, length as int) ==> r is Err,
    {
        if self.state != EngineState::Initialized {
            return Err(EngineError::WrongState(self.state));
        }
        if length < 0 {
            return Err(EngineError::NegativeLength);
        }
        let n = length as usize;
        if phoneme_list_len < n || speaker_id_len < n || output_len < n {
            return Err(EngineError::BufferTooShort);
        }
        Ok(())
    }

    /// Decides whether the pitch-accent stage may run on `length` moras:
    /// each of its seven input buffers and its output buffer must hold at
    /// least `length` elements.
    pub fn check_yukarin_sa_forward(
        &self,
        length: i32,
        vowel_phoneme_list_len: usize,
        consonant_phoneme_list_len: usize,
        start_accent_list_len: usize,
        end_accent_list_len: usize,
        start_accent_phrase_list_len: usize,
        end_accent_phrase_list_len: usize,
        speaker_id_len: usize,
        output_len: usize,
    ) -> (r: Result<(), EngineError>)
        ensures
            r == inference_outcome(
                self.spec_state(),
                length >= 0,
                covers(vowel_phoneme_list_len, length as int) && covers(
                    consonant_phoneme_list_len,
                    length as int,
                ) && covers(start_accent_list_len, length as int) && covers(
                    end_accent_list_len,
                    length as int,
                ) && covers(start_accent_phrase_list_len, length as int) && covers(
                    end_accent_phrase_list_len,
                    length as int,
                ) && covers(speaker_id_len, length as int) && covers(output_len, length as int),
            ),
            !covers(output_len, length as int) ==> r is Err,
    {
        if self.state != EngineState::Initialized {
            return Err(EngineError::WrongState(self.state));
        }
        if length < 0 {
            return Err(EngineError::NegativeLength);
        }
        let n = length as usize;
        if vowel_phoneme_list_len < n || consonant_phoneme_list_len < n || start_accent_list_len
            < n || end_accent_list_len < n || start_accent_phrase_list_len < n
            || end_accent_phrase_list_len < n || speaker_id_len < n || output_len < n {
            return Err(EngineError::BufferTooShort);
        }
        Ok(())
    }

    /// Decides whether the decoding stage may run on `length` frames of
    /// `phoneme_size` phoneme classes: `f0` must hold `length` elements, the
    /// flattened `phoneme` frames and the output `length * phoneme_size`, and
    /// the speaker id buffer at least one.
    pub fn check_decode_forward(
        &self,
        length: i32,
        phoneme_size: i32,
        f0_len: usize,
        phoneme_len: usize,
        speaker_id_len: usize,
        output_len: usize,
    ) -> (r: Result<(), EngineError>)
        ensures
            r == inference_outcome(
                self.spec_state(),
                length >= 0 && phoneme_size >= 0,
                covers(f0_len, length as int) && covers(phoneme_len, length * phoneme_size)
                    && covers(speaker_id_len, 1) && covers(output_len, length * phoneme_size),
            ),
            !covers(output_len, length * phoneme_size) ==> r is Err,
    {
        if self.state != EngineState::Initialized {
            return Err(EngineError::WrongState(self.state));
        }
        if length < 0 || phoneme_size < 0 {
            return Err(EngineError::NegativeLength);
        }
        let n = length as u64;
        let w = phoneme_size as u64;
        assert(n * w <= 0x4000_0000_0000_0000) by (nonlinear_arith)
            requires
                n < 0x8000_0000,
                w < 0x8000_0000,
        ;
        let frames = n * w;
        if (f0_len as u64) < n || (phoneme_len as u64) < frames || speaker_id_len < 1
            || (output_len as u64) < frames {
            return Err(EngineError::BufferTooShort);
        }
        Ok(())
    }

    /// Reads the C text of the engine's last error message.
    ///
    /// The binding is left as it is, in any state, and the text depends on
    /// the bytes alone; `None` where they are not valid UTF-8.
    pub fn last_error_message(&self, raw: &Vec<u8>) -> (r: Option<String>)
        ensures
            error_text_matches(raw@, r),
    {
        text_from_c_bytes(raw)
    }
}

/// An inference call is refused with a state error in every state but
/// `Initialized`, whatever its lengths and buffers; in particular before a
/// successful `initialize` and after `finalize`.
pub proof fn lemma_inference_needs_initialized(
    state: EngineState,
    length_ok: bool,
    buffers_ok: bool,
)
    ensures
        state != EngineState::Initialized ==> inference_outcome(state, length_ok, buffers_ok)
            == Err::<(), EngineError>(EngineError::WrongState(state)),
        inference_outcome(state, length_ok, buffers_ok) is Ok ==> state
            == EngineState::Initialized,
{
}

/// Reading the engine's last error twice from the same bytes gives the same
/// text both times.
pub proof fn lemma_last_error_is_stable(raw: Seq<u8>, first: Option<String>, second: Option<String>)
    requires
        error_text_matches(raw, first),
        error_text_matches(raw, second),
    ensures
        first is Some <==> second is Some,
        first is Some ==> first->0@ == second->0@,
{
}

} // verus!
