//! Descriptors that the runtime receives from the graph model: ports, periods
//! and the registry's metadata about a component.

use vstd::prelude::*;

verus! {

/// A port of a node: its id and the schema tag of what flows through it.
#[derive(Debug, PartialEq, Eq)]
pub struct ZFPortDescriptor {
    pub port_id: String,
    pub port_type: String,
}

/// Mathematical value of a [`ZFPortDescriptor`].
pub struct PortView {
    pub port_id: Seq<char>,
    pub port_type: Seq<char>,
}

impl View for ZFPortDescriptor {
    type V = PortView;

    open spec fn view(&self) -> PortView {
        PortView { port_id: self.port_id@, port_type: self.port_type@ }
    }
}

impl Clone for ZFPortDescriptor {
    fn clone(&self) -> (r: Self)
        ensures
            r@ == self@,
    {
        ZFPortDescriptor { port_id: self.port_id.clone(), port_type: self.port_type.clone() }
    }
}

/// The ports of one side of a node, in declaration order, as mathematical values.
pub open spec fn ports_view(ports: Seq<ZFPortDescriptor>) -> Seq<PortView> {
    ports.map_values(|p: ZFPortDescriptor| p@)
}

/// No port id occurs twice.
pub open spec fn unique_port_ids(ports: Seq<PortView>) -> bool {
    forall|i: int, j: int|
        0 <= i < j < ports.len() ==> (#[trigger] ports[i]).port_id != (#[trigger] ports[j]).port_id
}

/// Decides whether the ids of `ports` are pairwise different, as one side of
/// a node requires.
pub fn has_unique_port_ids(ports: &Vec<ZFPortDescriptor>) -> (r: bool)
    ensures
        r == unique_port_ids(ports_view(ports@)),
{
    let n = ports.len();
    let mut j: usize = 0;
    while j < n
        invariant
            n == ports.len(),
            j <= n,
            forall|a: int, b: int|
                0 <= a < b < j ==> (#[trigger] ports[a]).port_id@ != (#[trigger] ports[b]).port_id@,
        decreases n - j,
    {
        let mut i: usize = 0;
        while i < j
            invariant
                n == ports.len(),
                i <= j < n,
                forall|a: int|
                    0 <= a < i ==> (#[trigger] ports[a]).port_id@ != ports[j as int].port_id@,
            decreases j - i,
        {
            if ports[i].port_id == ports[j].port_id {
                assert(ports_view(ports@)[i as int].port_id
                    == ports_view(ports@)[j as int].port_id);
                return false;
            }
            i += 1;
        }
        j += 1;
    }
    true
}

/// A copy of a list of ports.
pub fn clone_ports(ports: &Vec<ZFPortDescriptor>) -> (r: Vec<ZFPortDescriptor>)
    ensures
        ports_view(r@) == ports_view(ports@),
{
    let mut out: Vec<ZFPortDescriptor> = Vec::new();
    let n = ports.len();
    let mut i: usize = 0;
    while i < n
        invariant
            n == ports.len(),
            i <= n,
            ports_view(out@) == ports_view(ports@).subrange(0, i as int),
        decreases n - i,
    {
        let ghost prev = out@;
        let c = ports[i].clone();
        out.push(c);
        proof {
            assert(ports_view(out@) =~= ports_view(prev).push(c@));
        }
        i += 1;
    }
    out
}

/// How often a periodic node fires.
#[derive(Debug, Clone, PartialEq, Eq)]
pub struct ZFPeriodDescriptor {
    pub duration: u64,
    pub unit: String,
}

/// One build of a component for one platform.
#[derive(Debug, Clone, PartialEq, Eq)]
pub struct ZFRegistryComponentArchitecture {
    pub arch: String,
    pub os: String,
    pub uri: String,
    pub checksum: String,
    pub signature: String,
}

/// A tagged release of a component with the builds it offers.
#[derive(Debug, Clone, PartialEq, Eq)]
pub struct ZFRegistryComponentTag {
    pub name: String,
    pub requirement_labels: Vec<String>,
    pub architectures: Vec<ZFRegistryComponentArchitecture>,
}

/// What the registry knows about a component.
#[derive(Debug, Clone, PartialEq, Eq)]
pub struct ZFRegistryGraph {
    pub id: String,
    pub classes: Vec<String>,
    pub tags: Vec<ZFRegistryComponentTag>,
    pub inputs: Vec<ZFPortDescriptor>,
    pub outputs: Vec<ZFPortDescriptor>,
    pub period: Option<ZFPeriodDescriptor>,
}

} // verus!
