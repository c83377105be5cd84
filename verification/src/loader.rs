//! The one-shot asset-loading bridge: a single-assignment slot that turns
//! the pair of "finished loading" / "failed loading" host callbacks into
//! one resolved result. Only the first signal to arrive can deliver; the
//! other is a no-op.

use crate::engine::ImageHandle;
use vstd::prelude::*;
use vstd::string::StringExecFns;

verus! {

/// What an attempted image load came to: the loaded image's handle, or
/// the host's error payload, described.
pub enum LoadOutcome {
    Success(ImageHandle),
    Failure(String),
}

/// The load failure an image load resolves to, carrying the host's error
/// payload wrapped in a description.
pub struct LoadError {
    pub message: String,
}

/// The slot after a signal carrying `outcome` arrives: an empty slot
/// adopts the outcome, a filled slot keeps what it already holds.
pub open spec fn delivered(slot: Option<LoadOutcome>, outcome: LoadOutcome) -> Option<
    LoadOutcome,
> {
    if slot is Some {
        slot
    } else {
        Some(outcome)
    }
}

/// Whichever of the two signals arrives first fills the slot for good:
/// the later signal, whatever it carries, alters nothing.
pub proof fn lemma_first_signal_wins(first: LoadOutcome, second: LoadOutcome)
    ensures
        delivered(delivered(None, first), second) == Some(first),
{
}

/// The single-assignment result slot of one image load. The host's
/// success and error callbacks each deliver into it; the first to fire
/// decides the result.
pub struct LoadSlot {
    outcome: Option<LoadOutcome>,
}

impl View for LoadSlot {
    type V = Option<LoadOutcome>;

    closed spec fn view(&self) -> Option<LoadOutcome> {
        self.outcome
    }
}

impl LoadSlot {
    /// A slot no signal has reached yet.
    pub fn new() -> (r: LoadSlot)
        ensures
            r@ == None::<LoadOutcome>,
    {
        LoadSlot { outcome: None }
    }

    /// Whether a signal has already delivered a result.
    pub fn is_resolved(&self) -> (r: bool)
        ensures
            r == (self@ is Some),
    {
        self.outcome.is_some()
    }

    /// The success callback fired: the image behind `image` finished
    /// loading. Delivers only into an empty slot.
    pub fn deliver_success(&mut self, image: ImageHandle)
        ensures
            final(self)@ == delivered(old(self)@, LoadOutcome::Success(image)),
    {
        if self.outcome.is_none() {
            self.outcome = Some(LoadOutcome::Success(image));
        }
    }

    /// The error callback fired with the host's error payload. Delivers
    /// only into an empty slot.
    pub fn deliver_error(&mut self, payload: String)
        ensures
            final(self)@ == delivered(old(self)@, LoadOutcome::Failure(payload)),
    {
        if self.outcome.is_none() {
            self.outcome = Some(LoadOutcome::Failure(payload));
        }
    }

    /// Hand the resolved outcome out, leaving the slot empty; `None`
    /// while no signal has arrived.
    pub fn take(&mut self) -> (r: Option<LoadOutcome>)
        ensures
            r == old(self)@,
            final(self)@ == None::<LoadOutcome>,
    {
        let mut taken: Option<LoadOutcome> = None;
        std::mem::swap(&mut taken, &mut self.outcome);
        taken
    }
}

/// The terminal result of an image load: success resolves to the image
/// handle the success signal carried, failure to an error wrapping the
/// payload the error signal carried.
pub fn into_load_result(outcome: LoadOutcome) -> (r: Result<ImageHandle, LoadError>)
    ensures
        match outcome {
            LoadOutcome::Success(image) => r == Ok::<ImageHandle, LoadError>(image),
            LoadOutcome::Failure(payload) => {
                &&& r is Err
                &&& r->Err_0.message@ == "Error Loading Image: "@ + payload@
            },
        },
{
    match outcome {
        LoadOutcome::Success(image) => Ok(image),
        LoadOutcome::Failure(payload) => {
            let message = String::from_str("Error Loading Image: ").concat(payload.as_str());
            Err(LoadError { message })
        },
    }
}

} // verus!
