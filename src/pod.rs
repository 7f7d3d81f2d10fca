use vstd::prelude::*;

verus! {

/// A resolved volume: the name the pod declares and the mount reference it resolved to.
#[derive(Clone, Debug)]
pub struct VolumeRef {
    pub name: String,
    pub mount: String,
}

impl View for VolumeRef {
    type V = (Seq<char>, Seq<char>);

    open spec fn view(&self) -> (Seq<char>, Seq<char>) {
        (self.name@, self.mount@)
    }
}

/// The views of a list of resolved volumes, in order.
pub open spec fn volumes_view(v: Seq<VolumeRef>) -> Seq<(Seq<char>, Seq<char>)> {
    v.map_values(|r: VolumeRef| r@)
}

/// Per-pod mutable data, owned by that pod's state machine.
#[derive(Debug)]
pub struct PodState {
    pub volumes: Vec<VolumeRef>,
}

impl PodState {
    /// The state of a pod that was just admitted: no volumes resolved yet.
    pub fn new() -> (r: PodState)
        ensures
            r.volumes@.len() == 0,
    {
        PodState { volumes: Vec::new() }
    }

    /// Replaces the pod's resolved volumes.
    pub fn set_volumes(&mut self, volumes: Vec<VolumeRef>)
        ensures
            final(self).volumes@ == volumes@,
    {
        self.volumes = volumes;
    }

    /// The number of resolved volumes.
    pub fn volume_count(&self) -> (r: usize)
        ensures
            r == self.volumes@.len(),
    {
        self.volumes.len()
    }
}

} // verus!
