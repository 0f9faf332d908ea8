//! A response body in one of two modes, with one way of pulling it.
//!
//! Whoever sends the response pulls the same way in both modes and cannot
//! tell them apart but by what comes out: an inactive body answers with
//! whatever the wrapped body gave, an active one with what its gathering
//! decides.

use vstd::prelude::*;

use crate::body::{BodySize, MarkdownBody, Phase, Polled, Pulled};

verus! {

/// The two ways a response body can be handled: rewritten (`Active`) or
/// handed through untouched (`Inactive`).
pub enum ConditionalResponse<A, I> {
    Active(A),
    Inactive(I),
}

/// The body of a response that went through the middleware, around a
/// wrapped body of type `B`.
pub type MarkdownResponse<B> = ConditionalResponse<MarkdownBody<B>, B>;

impl<A, I> ConditionalResponse<A, I> {
    /// The size that the body declares, given the size `inner` that the
    /// wrapped body declares: unknown while rewriting, since the length of
    /// the page is not known before the conversion has run; unchanged
    /// otherwise.
    pub open spec fn size_given(self, inner: BodySize) -> BodySize {
        match self {
            ConditionalResponse::Active(_) => BodySize::Stream,
            ConditionalResponse::Inactive(_) => inner,
        }
    }

    /// Whether the body is being rewritten.
    pub fn is_active(&self) -> (active: bool)
        ensures
            active == (self is Active),
    {
        match self {
            ConditionalResponse::Active(_) => true,
            ConditionalResponse::Inactive(_) => false,
        }
    }

    /// The size that the body declares; see `size_given`.
    pub fn size(&self, inner: BodySize) -> (size: BodySize)
        ensures
            size == self.size_given(inner),
    {
        match self {
            ConditionalResponse::Active(_) => BodySize::Stream,
            ConditionalResponse::Inactive(_) => inner,
        }
    }
}

impl<B> ConditionalResponse<MarkdownBody<B>, B> {
    /// The wrapped body, whatever the mode.
    pub open spec fn wrapped(self) -> B {
        match self {
            ConditionalResponse::Active(body) => body.wrapped(),
            ConditionalResponse::Inactive(body) => body,
        }
    }

    /// Whether the body has ended for good, so that the wrapped body need
    /// not be pulled any more.
    pub open spec fn is_over(self) -> bool {
        self matches ConditionalResponse::Active(body) && !(body@.phase is Accumulating)
    }

    /// How one pull is answered: `self` is the body before, `pulled` what
    /// the wrapped body gave, `after` the body afterwards and `out` the
    /// answer.
    ///
    /// An inactive body hands `pulled` on and stays as it is. An active body
    /// takes the step of its gathering, provided that `pulled` fits; else it
    /// stays as it is and hands `pulled` back as the error.
    pub open spec fn polls<E>(
        self,
        pulled: Pulled<E>,
        after: Self,
        out: Result<Polled<E>, Pulled<E>>,
    ) -> bool {
        match self {
            ConditionalResponse::Inactive(_) => {
                &&& after == self
                &&& out == Ok::<Polled<E>, Pulled<E>>(Polled { item: pulled, wake: false })
            },
            ConditionalResponse::Active(body) => {
                if body@.fits(pulled@) {
                    &&& after matches ConditionalResponse::Active(next)
                    &&& out matches Ok(polled)
                    &&& (next@, polled@) == body@.step(pulled@)
                    &&& next.wrapped() == body.wrapped()
                } else {
                    &&& after == self
                    &&& out == Err::<Polled<E>, Pulled<E>>(pulled)
                }
            },
        }
    }

    /// The wrapped body.
    pub fn body(&self) -> (body: &B)
        ensures
            *body == self.wrapped(),
    {
        match self {
            ConditionalResponse::Active(gathering) => gathering.body(),
            ConditionalResponse::Inactive(body) => body,
        }
    }

    /// The wrapped body, to pull it.
    pub fn body_mut(&mut self) -> (body: &mut B)
        ensures
            *body == old(self).wrapped(),
            final(self).wrapped() == *final(body),
            match *old(self) {
                ConditionalResponse::Active(before) => {
                    *final(self) matches ConditionalResponse::Active(after) && after@ == before@
                },
                ConditionalResponse::Inactive(_) => *final(self) is Inactive,
            },
    {
        match self {
            ConditionalResponse::Active(body) => body.body_mut(),
            ConditionalResponse::Inactive(body) => body,
        }
    }

    /// The answer to a pull that needs no pull of the wrapped body: "no
    /// more", once an active body has sent its page or a failure. `None`
    /// where the wrapped body has to be pulled first.
    pub fn settled<E>(&self) -> (out: Option<Polled<E>>)
        ensures
            out == (if self.is_over() {
                Some(Polled { item: Pulled::<E>::End, wake: false })
            } else {
                None
            }),
    {
        match self {
            ConditionalResponse::Active(body) => match body.phase() {
                Phase::Accumulating => None,
                _ => Some(Polled { item: Pulled::End, wake: false }),
            },
            ConditionalResponse::Inactive(_) => None,
        }
    }

    /// Answers one pull, given what the pull of the wrapped body gave.
    ///
    /// The answer is `Err`, with `pulled` handed back and nothing changed,
    /// exactly when an active body cannot take the chunk in because the
    /// buffer would pass what one allocation can hold.
    pub fn poll_next<E>(&mut self, pulled: Pulled<E>) -> (out: Result<Polled<E>, Pulled<E>>)
        ensures
            old(self).polls(pulled, *final(self), out),
    {
        match self {
            ConditionalResponse::Inactive(_) => Ok(Polled { item: pulled, wake: false }),
            ConditionalResponse::Active(body) => {
                if body.fits(&pulled) {
                    Ok(body.on_pulled(pulled))
                } else {
                    Err(pulled)
                }
            },
        }
    }
}

} // verus!
