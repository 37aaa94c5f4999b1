use std::sync::mpsc::{Receiver, Sender};

use vstd::prelude::*;

verus! {

#[verifier::external_type_specification]
#[verifier::external_body]
#[verifier::reject_recursive_types(T)]
pub struct ExReceiver<T>(Receiver<T>);

#[verifier::external_type_specification]
#[verifier::external_body]
#[verifier::reject_recursive_types(T)]
pub struct ExSender<T>(Sender<T>);

#[verifier::external_type_specification]
#[verifier::external_body]
#[verifier::reject_recursive_types(T)]
pub struct ExCrossbeamReceiver<T>(crossbeam_channel::Receiver<T>);

/// Calls `std::sync::mpsc::Receiver::recv`, turning its error into `None`.
/// Nothing is claimed of the result: it is whatever another thread sent, or
/// `None` once every sender is gone.
#[verifier::external_body]
pub(crate) fn receive<T>(rx: &Receiver<T>) -> Option<T> {
    rx.recv().ok()
}

/// Whether `msg` is a value that receiving on `rx` may give: what another
/// thread sent, or `None` once every sender is gone.
pub closed spec fn received<T>(rx: Receiver<T>, msg: Option<T>) -> bool {
    call_ensures(receive::<T>, (&rx,), msg)
}

/// What a call of `receive` on `rx` gave is a value that receiving on `rx`
/// may give.
pub(crate) proof fn lemma_received<T>(rx: &Receiver<T>, msg: Option<T>)
    requires
        call_ensures(receive::<T>, (rx,), msg),
    ensures
        received(*rx, msg),
{
}

/// Calls `crossbeam_channel::Receiver::clone`: another handle on the same
/// channel.  Claims that the handle is the same receiver value, as the
/// clone shares the channel.
#[verifier::external_body]
pub(crate) fn share_receiver<T>(rx: &crossbeam_channel::Receiver<T>) -> (r: crossbeam_channel::Receiver<T>)
    ensures
        r == *rx,
{
    rx.clone()
}

} // verus!
