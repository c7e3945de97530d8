//! Cancellation tokens of `tokio_util`, carried through the playback state.
//!
//! A token is a flag that all clones of it share, raised once and never
//! lowered. A value stands for one handle on a token: two values that are equal
//! are handles on the same token, and a new token differs from the one that it
//! takes the place of.
//!
//! Of the flag, two things are told apart. [`raised`] says of one handle that
//! the flag was raised through it: a fresh handle is not raised, one that was
//! cancelled is, and reading a raised handle always gives true.
//! [`cancel_requested`] says that some holder asks for cancellation, sooner or
//! later. What a handle reads after another one was cancelled depends on when it
//! is read, so no contract speaks of it.

use tokio_util::sync::CancellationToken;
use vstd::prelude::*;

verus! {

#[verifier::external_type_specification]
#[verifier::external_body]
pub struct ExCancellationToken(CancellationToken);

/// Whether cancellation is ever asked for on the token: through itself, through
/// one of its clones or through a token that it derives from.
pub uninterp spec fn cancel_requested(token: CancellationToken) -> bool;

/// Whether cancellation was asked for through this very handle, or through the
/// one that it was cloned from, before the cloning.
pub uninterp spec fn raised(token: CancellationToken) -> bool;

/// `CancellationToken::new` makes a token of its own, which has no parent, which
/// nobody has cancelled, and which is none that was there before: in particular
/// not the one that it `replaces`.
#[verifier::external_body]
pub(crate) fn fresh_token(replaces: Option<&CancellationToken>) -> (r: CancellationToken)
    ensures
        !raised(r),
        replaces matches Some(token) ==> r != *token,
{
    let _ = replaces;
    CancellationToken::new()
}

/// `CancellationToken::clone` gives another handle on the same token: the two
/// are cancelled together.
#[verifier::external_body]
pub(crate) fn share_token(token: &CancellationToken) -> (r: CancellationToken)
    ensures
        r == *token,
{
    token.clone()
}

/// `CancellationToken::cancel` raises the flag of the token and of everything
/// that shares it. That the clones made before read as cancelled from now on is
/// left unsaid: their flag changes without them.
#[verifier::external_body]
pub(crate) fn cancel_token(token: &mut CancellationToken)
    ensures
        cancel_requested(*old(token)),
        cancel_requested(*final(token)),
        raised(*final(token)),
{
    token.cancel();
}

/// `CancellationToken::is_cancelled` reads the flag as it is at that moment. It
/// is raised only by a cancellation that was asked for, and it stays raised once
/// the handle itself was cancelled. Any other holder may raise it at any time, so
/// nothing is said of a handle that is not raised.
#[verifier::external_body]
pub(crate) fn token_is_cancelled(token: &CancellationToken) -> (r: bool)
    ensures
        r ==> cancel_requested(*token),
        raised(*token) ==> r,
{
    token.is_cancelled()
}

} // verus!
