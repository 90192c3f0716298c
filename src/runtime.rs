use vstd::prelude::*;

pub mod cri;
pub mod docker;
pub mod model;

verus! {

pub const CONTAINERS: &'static str = "containers";
pub const COMPOSES: &'static str = "composes";
pub const IMAGES: &'static str = "images";
pub const NETWORKS: &'static str = "networks";
pub const VOLUMES: &'static str = "volumes";

/// A kind of resource a list screen shows; the change-resource prompt completes its name.
#[derive(Clone, Copy, Debug, PartialEq, Eq, Structural)]
pub enum Resource {
    Containers,
    Composes,
    Images,
    Networks,
    Volumes,
}

impl Resource {
    pub open spec fn spec_name(self) -> Seq<char> {
        match self {
            Resource::Containers => CONTAINERS@,
            Resource::Composes => COMPOSES@,
            Resource::Images => IMAGES@,
            Resource::Networks => NETWORKS@,
            Resource::Volumes => VOLUMES@,
        }
    }

    pub fn name(&self) -> (r: &'static str)
        ensures
            r@ == self.spec_name(),
    {
        match self {
            Resource::Containers => CONTAINERS,
            Resource::Composes => COMPOSES,
            Resource::Images => IMAGES,
            Resource::Networks => NETWORKS,
            Resource::Volumes => VOLUMES,
        }
    }
}

/// Endpoint of the container engine in use: the engine API or a CRI runtime.
#[derive(Debug)]
pub enum ConnectionConfig {
    Docker(docker::ConnectionConfig),
    Cri(cri::ConnectionConfig),
}

/// The resources a backend can list, in the order the prompt tries them.
pub open spec fn suggestions_of(config: ConnectionConfig) -> Seq<Resource> {
    match config {
        ConnectionConfig::Docker(_) => seq![
            Resource::Containers,
            Resource::Composes,
            Resource::Images,
            Resource::Networks,
            Resource::Volumes,
        ],
        ConnectionConfig::Cri(_) => seq![Resource::Containers, Resource::Images],
    }
}

pub fn get_suggestions(config: &ConnectionConfig) -> (r: Vec<Resource>)
    ensures
        r@ == suggestions_of(*config),
{
    let mut v = Vec::new();
    match config {
        ConnectionConfig::Docker(_) => {
            v.push(Resource::Containers);
            v.push(Resource::Composes);
            v.push(Resource::Images);
            v.push(Resource::Networks);
            v.push(Resource::Volumes);
        },
        ConnectionConfig::Cri(_) => {
            v.push(Resource::Containers);
            v.push(Resource::Images);
        },
    }
    assert(v@ =~= suggestions_of(*config));
    v
}

impl ConnectionConfig {
    pub open spec fn spec_describe(self) -> Seq<char> {
        match self {
            ConnectionConfig::Docker(c) => c.spec_describe(),
            ConnectionConfig::Cri(c) => c.spec_describe(),
        }
    }

    /// The endpoint as shown in the header.
    pub fn describe(&self) -> (r: String)
        ensures
            r@ == self.spec_describe(),
    {
        match self {
            ConnectionConfig::Docker(c) => c.describe(),
            ConnectionConfig::Cri(c) => c.describe(),
        }
    }
}

} // verus!
