use vstd::prelude::*;

verus! {

/// The receiving half of the scanner's snapshot channel.
#[verifier::external_type_specification]
#[verifier::external_body]
#[verifier::reject_recursive_types(T)]
pub struct ExReceiver<T>(tokio::sync::mpsc::Receiver<T>);

/// Why a non-blocking receive found nothing: empty for now, or closed.
#[verifier::external_type_specification]
#[verifier::external_body]
pub struct ExTryRecvError(tokio::sync::mpsc::error::TryRecvError);

/// Relies on tokio's `Receiver::try_recv`: it never blocks and never panics;
/// it hands out the oldest queued value, or says that none is queued now or
/// that the senders are gone. Which of these comes depends on the other side
/// of the channel, so nothing more is stated.
pub assume_specification<T>[ tokio::sync::mpsc::Receiver::<T>::try_recv ](
    rx: &mut tokio::sync::mpsc::Receiver<T>,
) -> Result<T, tokio::sync::mpsc::error::TryRecvError>;

} // verus!
