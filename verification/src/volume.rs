//! The messages of Docker's volume plugin protocol.
use vstd::prelude::*;

verus! {

/// Whether a volume is seen by one host or by the whole cluster.
#[derive(Debug, Clone, Copy, PartialEq, Eq, Structural)]
pub enum Scope {
    Local,
    Global,
}

/// The reply to `VolumeDriver.Capabilities`.
#[derive(Debug, PartialEq)]
pub struct Capabilities {
    pub scope: Scope,
}

/// A volume as Docker sees it: its name and, where it is mounted, where.
#[derive(Debug, PartialEq)]
pub struct Volume {
    pub name: String,
    pub mountpoint: Option<String>,
}

/// `VolumeDriver.Create`: the name of the new volume and its options.
#[derive(Debug, PartialEq)]
pub struct CreateVolumeRequest {
    pub name: String,
    pub opts: Option<std::collections::HashMap<String, String>>,
}

impl Default for CreateVolumeRequest {
    fn default() -> (r: Self)
        ensures
            r.name@ == Seq::<char>::empty(),
            r.opts is None,
    {
        CreateVolumeRequest { name: String::new(), opts: None }
    }
}

/// `VolumeDriver.Remove` (and, under other names, `Path` and `Get`).
#[derive(Debug, PartialEq)]
pub struct RemoveVolumeRequest {
    pub name: String,
}

impl Default for RemoveVolumeRequest {
    fn default() -> (r: Self)
        ensures
            r.name@ == Seq::<char>::empty(),
    {
        RemoveVolumeRequest { name: String::new() }
    }
}

/// `VolumeDriver.Mount` and `VolumeDriver.Unmount`: the volume and the
/// caller's ID.
#[derive(Debug, PartialEq)]
pub struct MountVolumeRequest {
    pub name: String,
    pub id: String,
}

impl Default for MountVolumeRequest {
    fn default() -> (r: Self)
        ensures
            r.name@ == Seq::<char>::empty(),
            r.id@ == Seq::<char>::empty(),
    {
        MountVolumeRequest { name: String::new(), id: String::new() }
    }
}

/// The reply to `VolumeDriver.Mount` and `VolumeDriver.Path`.
#[derive(Debug, PartialEq)]
pub struct MountVolumeResponse {
    pub mountpoint: String,
    pub err: String,
}

/// The reply to `VolumeDriver.Get`.
#[derive(Debug, PartialEq)]
pub struct GetVolumeResponse {
    pub volume: Volume,
    pub err: String,
}

/// The reply to `VolumeDriver.List`.
#[derive(Debug, PartialEq)]
pub struct ListVolumesResponse {
    pub volumes: Vec<Volume>,
    pub err: String,
}

pub type PathVolumeRequest = RemoveVolumeRequest;

pub type GetVolumeRequest = RemoveVolumeRequest;

} // verus!
