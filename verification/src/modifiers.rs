//! Transformations of the whole status document, applied after the sensors'
//! values have been filled in.

use crate::api::{StateView, Status, StatusView};
use vstd::prelude::*;

verus! {

/// A transformation of the status document.
///
/// An implementation must be a function: the document it leaves behind
/// depends on the modifier and on the document it was given alone.
pub trait StatusModifier: Send + Sync {
    /// The document that this modifier makes of `status`.
    spec fn modified(&self, status: StatusView) -> StatusView;

    fn modify(&self, status: &mut Status)
        ensures
            final(status)@ == self.modified(old(status)@),
    ;
}

/// The document after the modifiers of `chain` have been applied to `status`
/// one after the other, the first of the chain first.
pub open spec fn modified_by(chain: Seq<Box<dyn StatusModifier>>, status: StatusView) -> StatusView
    decreases chain.len(),
{
    if chain.len() == 0 {
        status
    } else {
        chain.last().modified(modified_by(chain.drop_last(), status))
    }
}

/// Each modifier sees what the modifiers before it have made of the document:
/// applying a chain is applying its front part, then its back part to the
/// result.
pub proof fn lemma_modifiers_compose(
    front: Seq<Box<dyn StatusModifier>>,
    back: Seq<Box<dyn StatusModifier>>,
    status: StatusView,
)
    ensures
        modified_by(front + back, status) == modified_by(back, modified_by(front, status)),
    decreases back.len(),
{
    if back.len() == 0 {
        assert(front + back == front);
    } else {
        assert((front + back).drop_last() == front + back.drop_last());
        assert((front + back).last() == back.last());
        lemma_modifiers_compose(front, back.drop_last(), status);
    }
}

/// With two modifiers registered, the second is applied to what the first
/// made of the document.
pub proof fn lemma_two_modifiers_in_order(chain: Seq<Box<dyn StatusModifier>>, status: StatusView)
    requires
        chain.len() == 2,
    ensures
        modified_by(chain, status) == chain[1].modified(chain[0].modified(status)),
{
    let front = chain.drop_last();
    assert(front.len() == 1);
    assert(front.last() == chain[0]);
    assert(modified_by(front.drop_last(), status) == status);
    assert(modified_by(front, status) == chain[0].modified(status));
}

/// Derives whether the space is open from the first people-now-present
/// entry of the document: the space is open when someone is there. A
/// document without such an entry is left as it is.
pub struct StateFromPeopleNowPresent;

impl StatusModifier for StateFromPeopleNowPresent {
    open spec fn modified(&self, status: StatusView) -> StatusView {
        match status.sensors {
            Some(sensors) if sensors.people_now_present.len() > 0 => StatusView {
                state: StateView {
                    open: Some(sensors.people_now_present[0].value > 0),
                    ..status.state
                },
                ..status
            },
            _ => status,
        }
    }

    fn modify(&self, status: &mut Status) {
        let people_now_present: Option<u64> = match &status.sensors {
            Some(sensors) => if sensors.people_now_present.len() > 0 {
                Some(sensors.people_now_present[0].value)
            } else {
                None
            },
            None => None,
        };
        if let Some(count) = people_now_present {
            status.state.open = Some(count > 0);
        }
    }
}

} // verus!
