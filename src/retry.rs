use vstd::prelude::*;

use crate::error::TranscodeError;
use crate::format::{format_for, resolve_format};
use crate::pixels::{PixelPlanes, PixelPlanesView};

verus! {

/// Where the transcode of one input file stands.
#[derive(Debug)]
pub enum Phase {
    /// The input is to be decoded: no buffer is held yet.
    Decoding,
    /// The held buffer is to be encoded.
    Encoding,
    /// An encode succeeded.
    Succeeded,
    /// The transcode gave up, with the last error.
    Failed(TranscodeError),
}

/// The mathematical content of a `Transcode`: the retry bound, the number of
/// attempts that failed and were retried, the phase, the held buffer, and how
/// many decodes have succeeded.
pub struct TranscodeView {
    pub retry: nat,
    pub attempts: nat,
    pub phase: Phase,
    pub planes: Option<PixelPlanesView>,
    pub decodes: nat,
}

/// What holds of every state of a transcode.
pub open spec fn transcode_inv(v: TranscodeView) -> bool {
    &&& v.attempts <= v.retry
    &&& (v.phase is Encoding <==> v.planes is Some)
    &&& v.decodes <= 1
    &&& (v.planes is Some ==> v.decodes == 1)
    &&& (v.phase is Decoding ==> v.decodes == 0)
    &&& match v.phase {
        Phase::Failed(e) => e.is_retryable_spec() ==> v.attempts == v.retry,
        _ => true,
    }
    &&& match v.planes {
        Some(p) => format_for(p.cbytes) is Some,
        None => true,
    }
}

/// How many attempts have failed: those retried, and the last one if the
/// transcode gave up.
pub open spec fn failures(v: TranscodeView) -> nat {
    if v.phase is Failed {
        v.attempts + 1
    } else {
        v.attempts
    }
}

/// An attempt failed with `e`: retry while the bound allows and the error is
/// worth retrying, going back to decoding only if no buffer is held; else
/// give up and release the buffer.
pub open spec fn after_failure(v: TranscodeView, e: TranscodeError) -> TranscodeView {
    if e.is_retryable_spec() && v.attempts < v.retry {
        TranscodeView {
            attempts: v.attempts + 1,
            phase: if v.planes is Some {
                Phase::Encoding
            } else {
                Phase::Decoding
            },
            ..v
        }
    } else {
        TranscodeView { phase: Phase::Failed(e), planes: None, ..v }
    }
}

/// The decoder's result, by its content.
pub open spec fn decoded_view(r: Result<PixelPlanes, TranscodeError>) -> Result<
    PixelPlanesView,
    TranscodeError,
> {
    match r {
        Ok(p) => Ok(p@),
        Err(e) => Err(e),
    }
}

/// A decode finished: keep a buffer whose format is supported and go on to
/// encode it; a buffer with no format ends the transcode at once.
pub open spec fn decode_step(v: TranscodeView, r: Result<PixelPlanesView, TranscodeError>) -> TranscodeView {
    if !(v.phase is Decoding) {
        v
    } else {
        match r {
            Ok(p) => if format_for(p.cbytes) is Some {
                TranscodeView { phase: Phase::Encoding, planes: Some(p), decodes: v.decodes + 1, ..v }
            } else {
                after_failure(
                    TranscodeView { decodes: v.decodes + 1, ..v },
                    TranscodeError::UnsupportedFormatError { cbytes: p.cbytes as usize },
                )
            },
            Err(e) => after_failure(v, e),
        }
    }
}

/// An encode finished: success ends the transcode and releases the buffer.
pub open spec fn encode_step(v: TranscodeView, r: Result<(), TranscodeError>) -> TranscodeView {
    if !(v.phase is Encoding) {
        v
    } else {
        match r {
            Ok(_) => TranscodeView { phase: Phase::Succeeded, planes: None, ..v },
            Err(e) => after_failure(v, e),
        }
    }
}

/// The transcode of one input file: decode once, encode the held buffer,
/// and retry failed attempts up to a bound.
pub struct Transcode {
    retry: usize,
    attempts: usize,
    phase: Phase,
    planes: Option<PixelPlanes>,
    decodes: Ghost<nat>,
}

impl View for Transcode {
    type V = TranscodeView;

    closed spec fn view(&self) -> TranscodeView {
        TranscodeView {
            retry: self.retry as nat,
            attempts: self.attempts as nat,
            phase: self.phase,
            planes: match self.planes {
                Some(p) => Some(p@),
                None => None,
            },
            decodes: self.decodes@,
        }
    }
}

impl Transcode {
    #[verifier::type_invariant]
    spec fn holds(self) -> bool {
        transcode_inv(self@)
    }

    /// A transcode that allows `retry` reattempts after the first attempt.
    pub fn new(retry: usize) -> (r: Transcode)
        ensures
            r@ == (TranscodeView {
                retry: retry as nat,
                attempts: 0,
                phase: Phase::Decoding,
                planes: None,
                decodes: 0,
            }),
    {
        Transcode { retry, attempts: 0, phase: Phase::Decoding, planes: None, decodes: Ghost(0) }
    }

    /// Records a failed attempt.
    fn fail(&mut self, e: TranscodeError)
        requires
            transcode_inv(old(self)@),
            old(self)@.phase is Decoding || old(self)@.phase is Encoding,
        ensures
            final(self)@ == after_failure(old(self)@, e),
    {
        let retryable = e.is_retryable();
        let mut cur = Transcode::new(0);
        core::mem::swap(self, &mut cur);
        let Transcode { retry, attempts, phase, planes, decodes } = cur;
        if retryable && attempts < retry {
            let next = if planes.is_some() {
                Phase::Encoding
            } else {
                Phase::Decoding
            };
            *self = Transcode { retry, attempts: attempts + 1, phase: next, planes, decodes };
        } else {
            *self = Transcode { retry, attempts, phase: Phase::Failed(e), planes: None, decodes };
        }
    }

    /// Takes in the decoder's result. Outside the decoding phase it changes
    /// nothing.
    pub fn on_decoded(&mut self, r: Result<PixelPlanes, TranscodeError>)
        ensures
            final(self)@ == decode_step(old(self)@, decoded_view(r)),
    {
        proof {
            use_type_invariant(&*self);
        }
        if !matches!(self.phase, Phase::Decoding) {
            return ;
        }
        match r {
            Ok(p) => {
                let cbytes = p.cbytes();
                match resolve_format(cbytes) {
                    Ok(_) => {
                        let mut cur = Transcode::new(0);
                        core::mem::swap(self, &mut cur);
                        *self = Transcode {
                            retry: cur.retry,
                            attempts: cur.attempts,
                            phase: Phase::Encoding,
                            planes: Some(p),
                            decodes: Ghost(cur.decodes@ + 1),
                        };
                    },
                    Err(e) => {
                        let mut cur = Transcode::new(0);
                        core::mem::swap(self, &mut cur);
                        *self = Transcode {
                            retry: cur.retry,
                            attempts: cur.attempts,
                            phase: Phase::Failed(e),
                            planes: None,
                            decodes: Ghost(cur.decodes@ + 1),
                        };
                    },
                }
            },
            Err(e) => self.fail(e),
        }
    }

    /// Takes in the encoder's result. Outside the encoding phase it changes
    /// nothing.
    pub fn on_encoded(&mut self, r: Result<(), TranscodeError>)
        ensures
            final(self)@ == encode_step(old(self)@, r),
    {
        proof {
            use_type_invariant(&*self);
        }
        if !matches!(self.phase, Phase::Encoding) {
            return ;
        }
        match r {
            Ok(()) => {
                let mut cur = Transcode::new(0);
                core::mem::swap(self, &mut cur);
                *self = Transcode {
                    retry: cur.retry,
                    attempts: cur.attempts,
                    phase: Phase::Succeeded,
                    planes: None,
                    decodes: cur.decodes,
                };
            },
            Err(e) => self.fail(e),
        }
    }

    /// Where the transcode stands.
    pub fn phase(&self) -> (r: &Phase)
        ensures
            *r == self@.phase,
            transcode_inv(self@),
    {
        proof {
            use_type_invariant(self);
        }
        &self.phase
    }

    /// How many attempts failed and were retried; the running attempt is
    /// number `attempts() + 1`.
    pub fn attempts(&self) -> (r: usize)
        ensures
            r as nat == self@.attempts,
            transcode_inv(self@),
    {
        proof {
            use_type_invariant(self);
        }
        self.attempts
    }

    /// The bound on reattempts.
    pub fn retry(&self) -> (r: usize)
        ensures
            r as nat == self@.retry,
            transcode_inv(self@),
    {
        proof {
            use_type_invariant(self);
        }
        self.retry
    }

    /// The decoded buffer, held while it is to be encoded.
    pub fn planes(&self) -> (r: Option<&PixelPlanes>)
        ensures
            match r {
                Some(p) => self@.planes == Some(p@),
                None => self@.planes is None,
            },
            transcode_inv(self@),
    {
        proof {
            use_type_invariant(self);
        }
        match &self.planes {
            Some(p) => Some(p),
            None => None,
        }
    }

    /// The outcome once the transcode is over: `Ok` after a success, the last
    /// error after giving up; `None` while it goes on.
    pub fn into_outcome(self) -> (r: Option<Result<(), TranscodeError>>)
        ensures
            match self@.phase {
                Phase::Succeeded => r == Some(Ok::<(), TranscodeError>(())),
                Phase::Failed(e) => r == Some(Err::<(), TranscodeError>(e)),
                _ => r is None,
            },
    {
        match self.phase {
            Phase::Succeeded => Some(Ok(())),
            Phase::Failed(e) => Some(Err(e)),
            _ => None,
        }
    }
}

/// The retry bound is exact: at most `retry + 1` attempts are made, at most
/// `retry + 1` fail, and a transcode that gave up on an error worth retrying
/// did so after exactly `retry + 1` failures; with no reattempts allowed
/// exactly one attempt is made.
pub proof fn lemma_retry_bound(v: TranscodeView)
    requires
        transcode_inv(v),
    ensures
        v.attempts + 1 <= v.retry + 1,
        failures(v) <= v.retry + 1,
        match v.phase {
            Phase::Failed(e) => e.is_retryable_spec() ==> failures(v) == v.retry + 1,
            _ => true,
        },
        v.retry == 0 ==> v.attempts == 0,
{
}

/// Each failed attempt counts once: it adds one failure, and the transcode
/// gives up on it exactly when the error is not worth retrying or the bound
/// is used up.
pub proof fn lemma_failure_counts(v: TranscodeView, e: TranscodeError)
    requires
        transcode_inv(v),
        v.phase is Decoding || v.phase is Encoding,
    ensures
        failures(after_failure(v, e)) == failures(v) + 1,
        after_failure(v, e).phase is Failed <==> (!e.is_retryable_spec() || v.attempts == v.retry),
        transcode_inv(after_failure(v, e)),
{
}

/// Decoding happens at most once with success: after it, no step asks for a
/// decode again, whatever the encodes return.
pub proof fn lemma_decode_once(
    v: TranscodeView,
    d: Result<PixelPlanesView, TranscodeError>,
    r: Result<(), TranscodeError>,
)
    requires
        transcode_inv(v),
    ensures
        v.decodes <= 1,
        decode_step(v, d).decodes <= 1,
        v.decodes == 1 ==> !(encode_step(v, r).phase is Decoding),
        v.decodes == 1 ==> decode_step(v, d) == v,
        v.decodes == 1 ==> encode_step(v, r).decodes == 1,
{
}

/// A buffer whose sample width has no format is never encoded: the
/// transcode gives up at once with the unsupported format, whatever the
/// retry bound.
pub proof fn lemma_unsupported_never_encodes(v: TranscodeView, p: PixelPlanesView)
    requires
        transcode_inv(v),
        v.phase is Decoding,
        format_for(p.cbytes) is None,
    ensures
        decode_step(v, Ok(p)).phase == Phase::Failed(
            TranscodeError::UnsupportedFormatError { cbytes: p.cbytes as usize },
        ),
        decode_step(v, Ok(p)).attempts == v.attempts,
        decode_step(v, Ok(p)).planes is None,
{
}

/// The state after `n` attempts in a row fail with `e`.
pub open spec fn repeat_failure(v: TranscodeView, e: TranscodeError, n: nat) -> TranscodeView
    decreases n,
{
    if n == 0 {
        v
    } else {
        after_failure(repeat_failure(v, e, (n - 1) as nat), e)
    }
}

/// With a bound of `retry` and every attempt failing with an error worth
/// retrying, a fresh transcode is still running, on its next attempt, after
/// each of the first `retry` failures, and gives up with that error at
/// failure `retry + 1`, never sooner.
pub proof fn lemma_exact_attempts(v: TranscodeView, e: TranscodeError, n: nat)
    requires
        transcode_inv(v),
        v.attempts == 0,
        v.phase is Decoding || v.phase is Encoding,
        e.is_retryable_spec(),
    ensures
        n <= v.retry ==> repeat_failure(v, e, n) == (TranscodeView { attempts: n, ..v }),
        repeat_failure(v, e, v.retry + 1) == (TranscodeView {
            attempts: v.retry,
            phase: Phase::Failed(e),
            planes: None,
            ..v
        }),
        failures(repeat_failure(v, e, v.retry + 1)) == v.retry + 1,
{
    lemma_repeat_running(v, e, n);
    lemma_repeat_running(v, e, v.retry);
}

proof fn lemma_repeat_running(v: TranscodeView, e: TranscodeError, n: nat)
    requires
        transcode_inv(v),
        v.attempts == 0,
        v.phase is Decoding || v.phase is Encoding,
        e.is_retryable_spec(),
    ensures
        n <= v.retry ==> repeat_failure(v, e, n) == (TranscodeView { attempts: n, ..v }),
    decreases n,
{
    if n > 0 && n <= v.retry {
        lemma_repeat_running(v, e, (n - 1) as nat);
    }
}

} // verus!
