//! Pool creation arguments, decoupled from the RPC layer's own types.

use vstd::prelude::*;

verus! {

/// PoolArgs translates the input of the create/import requests, which
/// carries name, uuid and disks, so that the pool logic does not
/// depend on the RPC structs.
#[derive(Clone, Debug)]
pub struct PoolArgs {
    pub name: String,
    pub disks: Vec<String>,
    pub uuid: Option<String>,
    pub cluster_size: Option<u32>,
    pub backend: PoolBackend,
    pub encryption: Option<Encryption>,
}

impl Default for PoolArgs {
    /// Empty name and disks, no uuid, no cluster size, the default
    /// backend and no encryption.
    fn default() -> (r: PoolArgs)
        ensures
            r.name@ == Seq::<char>::empty(),
            r.disks@.len() == 0,
            r.uuid is None,
            r.cluster_size is None,
            r.backend == PoolBackend::Lvs,
            r.encryption is None,
    {
        PoolArgs {
            name: String::new(),
            disks: Vec::new(),
            uuid: None,
            cluster_size: None,
            backend: PoolBackend::Lvs,
            encryption: None,
        }
    }
}

/// Key material for an encrypted pool device.
#[derive(Clone, Debug)]
pub struct Encryption {
    pub cipher: String,
    pub hex_key1: String,
    pub hex_key2: String,
    pub key_name: String,
}

/// PoolBackend is the kind of pool underneath: logical volume store
/// or logical volume manager.
#[derive(Copy, Clone, Debug, PartialEq, Eq, Structural)]
pub enum PoolBackend {
    Lvs,
    Lvm,
}

impl Default for PoolBackend {
    /// The logical volume store is the default backend.
    fn default() -> (r: PoolBackend)
        ensures
            r == PoolBackend::Lvs,
    {
        PoolBackend::Lvs
    }
}

} // verus!
