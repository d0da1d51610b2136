use crate::cluster::ClusterParams;
use crate::severity::Severity;
use std::ops::Deref;
use std::sync::Arc;
use vstd::prelude::*;

verus! {

/// A session that its holders share: each holds the same session, which
/// lives as long as the last of them.
pub struct SharedSession<S> {
    session: Arc<S>,
}

impl<S> View for SharedSession<S> {
    type V = S;

    /// The session that is shared.
    closed spec fn view(&self) -> S {
        *self.session
    }
}

impl<S> SharedSession<S> {
    pub fn new(session: S) -> (shared: SharedSession<S>)
        ensures
            shared@ == session,
    {
        SharedSession { session: Arc::new(session) }
    }

    /// One more holder of the same session.
    pub fn share(&self) -> (shared: SharedSession<S>)
        ensures
            shared@ == self@,
    {
        SharedSession { session: another_pointer(&self.session) }
    }
}

impl<S> Deref for SharedSession<S> {
    type Target = S;

    fn deref(&self) -> (session: &S)
        ensures
            *session == self@,
    {
        &*self.session
    }
}

/// `Arc::clone` of std: the new pointer points to the same value as the one
/// it was made from.
#[verifier::external_body]
fn another_pointer<S>(pointer: &Arc<S>) -> (another: Arc<S>)
    ensures
        another == *pointer,
{
    Arc::clone(pointer)
}

/// A cluster that a session is connected to: the session, the client that
/// the session depends on, and the parameters that both were made from.
pub struct ConnectedCluster<C, S> {
    pub session: SharedSession<S>,
    pub cluster: C,
    pub params: ClusterParams,
}

/// Hands out the session of a connected cluster, which stays as it is.
pub fn aquire<C, S>(connected: ConnectedCluster<C, S>) -> (acquired: Result<
    (SharedSession<S>, ConnectedCluster<C, S>),
    Severity<ClusterParams, ()>,
>)
    ensures
        acquired matches Ok((session, still)) && session@ == connected.session@ && still
            == connected,
{
    Ok((connected.session.share(), connected))
}

/// Takes back a session that was handed out, if it comes back at all. A
/// shared session needs no bookkeeping: the connected cluster stays as it is.
#[allow(unused_variables)]
pub fn release<C, S>(
    connected: ConnectedCluster<C, S>,
    maybe_session: Option<SharedSession<S>>,
) -> (released: Result<ConnectedCluster<C, S>, Severity<ClusterParams, ()>>)
    ensures
        released == Ok::<ConnectedCluster<C, S>, Severity<ClusterParams, ()>>(connected),
{
    Ok(connected)
}

/// Gives up a connected cluster for the parameters that it was made from.
pub fn close<C, S>(connected: ConnectedCluster<C, S>) -> (closed: Result<ClusterParams, ()>)
    ensures
        closed == Ok::<ClusterParams, ()>(connected.params),
{
    Ok(connected.params)
}

} // verus!
