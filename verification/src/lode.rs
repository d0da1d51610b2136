use crate::cluster::ClusterParams;
use crate::model::SupervisorView;
use crate::policy::RestartPolicy;
use crate::protocol::{Event, Output};
use crate::supervisor::{Admission, Supervisor};
use vstd::prelude::*;

verus! {

/// How a resource is supervised: the name it goes by, when it is made anew
/// after a failure, and what a request meets that cannot be served at once.
pub struct LodeParams<N> {
    pub name: N,
    pub restart_policy: RestartPolicy,
    pub admission: Admission,
}

/// All that a supervised session to a cluster is made from.
pub struct Params<N> {
    pub cluster_params: ClusterParams,
    pub lode_params: LodeParams<N>,
}

/// A supervised session to a cluster at its start.
pub struct Lode<N> {
    pub name: N,
    /// The supervisor, which has asked for its first `init`.
    pub supervisor: Supervisor<ClusterParams>,
    /// What the supervisor wants done first: that `init`, from the
    /// cluster's parameters.
    pub first: Output<ClusterParams>,
}

/// Sets up the supervision of a session to a cluster: a supervisor under the
/// given policies that has begun and asks for its first `init` at once, from
/// the cluster's parameters.
pub fn spawn<N>(params: Params<N>) -> (lode: Lode<N>)
    ensures
        lode.name == params.lode_params.name,
        (lode.supervisor@, lode.first@) == SupervisorView::idle(
            params.lode_params.restart_policy,
            params.lode_params.admission.capacity(),
            params.cluster_params,
        ).next(Event::Start),
{
    let Params { cluster_params, lode_params } = params;
    let LodeParams { name, restart_policy, admission } = lode_params;
    let mut supervisor = Supervisor::new(restart_policy, admission, cluster_params);
    let first = supervisor.step(Event::Start);
    Lode { name, supervisor, first }
}

} // verus!
