//! The volume plugin: what it answers to each request of Docker's volume
//! plugin protocol, given what its volume driver did.
use vstd::prelude::*;
use std::collections::HashMap;
use std::sync::Arc;
use crate::volume::{
    Capabilities, CreateVolumeRequest, GetVolumeResponse, ListVolumesResponse,
    MountVolumeResponse, Scope, Volume,
};

verus! {

/// The error member of a reply: empty where the request succeeded.
#[derive(Debug, PartialEq)]
pub struct RpcError {
    pub err: String,
}

impl Default for RpcError {
    fn default() -> (r: Self)
        ensures
            r.err@ == Seq::<char>::empty(),
    {
        RpcError { err: String::new() }
    }
}

impl RpcError {
    pub fn from_str(err: &str) -> (r: Self)
        ensures
            r.err@ == err@,
    {
        RpcError { err: err.to_string() }
    }
}

/// The protocols that a plugin can implement.
#[derive(Debug, Clone, Copy, PartialEq, Eq, Structural)]
pub enum Protocol {
    VolumeDriver,
}

/// The reply to `Plugin.Activate`.
#[derive(Debug, PartialEq)]
pub struct ActivateResponse {
    pub implements: Vec<Protocol>,
}

impl Default for ActivateResponse {
    fn default() -> (r: Self)
        ensures
            r.implements@ == Seq::<Protocol>::empty(),
    {
        ActivateResponse { implements: Vec::new() }
    }
}

/// What a volume plugin does with volumes; implemented by the plugin's users.
pub trait VolumeDriver: Send + Sync {
    fn create(&self, name: String, opts: Option<HashMap<String, String>>) -> Result<(), String>;

    fn remove(&self, name: String) -> Result<(), String>;

    fn mount(&self, name: String, id: String) -> Result<String, String>;

    fn path(&self, name: String) -> Result<String, String>;

    fn unmount(&self, name: String, id: String) -> Result<(), String>;

    fn get(&self, name: String) -> Result<Volume, String>;

    fn list(&self) -> Result<Vec<Volume>, String>;
}

/// The body of a reply.
#[derive(Debug, PartialEq)]
pub enum ReplyBody {
    Activate(ActivateResponse),
    Status(RpcError),
    Mount(MountVolumeResponse),
    Get(GetVolumeResponse),
    List(ListVolumesResponse),
    Capabilities(Capabilities),
}

/// A reply: HTTP 200 with a body, or HTTP 400 with the error.
#[derive(Debug, PartialEq)]
pub enum RpcReply {
    Success(ReplyBody),
    BadRequest(RpcError),
}

/// The reply to a request that returns nothing: an empty error on success,
/// else HTTP 400 with the driver's message.
pub open spec fn is_status_reply(reply: RpcReply, result: Result<(), String>) -> bool {
    match result {
        Ok(_) => reply matches RpcReply::Success(ReplyBody::Status(e)) && e.err@ == Seq::<char>::empty(),
        Err(m) => reply matches RpcReply::BadRequest(e) && e.err@ == m@,
    }
}

/// The reply to a request that returns a mount point.
pub open spec fn is_mount_reply(reply: RpcReply, result: Result<String, String>) -> bool {
    match result {
        Ok(m) => reply matches RpcReply::Success(ReplyBody::Mount(b)) && b.mountpoint@ == m@
            && b.err@ == Seq::<char>::empty(),
        Err(m) => reply matches RpcReply::BadRequest(e) && e.err@ == m@,
    }
}

/// The reply to `VolumeDriver.Get`.
pub open spec fn is_get_reply(reply: RpcReply, result: Result<Volume, String>) -> bool {
    match result {
        Ok(v) => reply matches RpcReply::Success(ReplyBody::Get(b)) && b.volume == v
            && b.err@ == Seq::<char>::empty(),
        Err(m) => reply matches RpcReply::BadRequest(e) && e.err@ == m@,
    }
}

/// The reply to `VolumeDriver.List`.
pub open spec fn is_list_reply(reply: RpcReply, result: Result<Vec<Volume>, String>) -> bool {
    match result {
        Ok(vs) => reply matches RpcReply::Success(ReplyBody::List(b)) && b.volumes@ == vs@
            && b.err@ == Seq::<char>::empty(),
        Err(m) => reply matches RpcReply::BadRequest(e) && e.err@ == m@,
    }
}

/// A reply that fails the request exactly when the driver failed, with the
/// driver's own message.
pub open spec fn reports_driver_error<T>(reply: RpcReply, result: Result<T, String>) -> bool {
    &&& (reply is BadRequest <==> result is Err)
    &&& (result matches Err(m) ==> reply matches RpcReply::BadRequest(e) && e.err@ == m@)
}

/// The reply to a request that returns nothing.
pub fn status_reply(result: Result<(), String>) -> (r: RpcReply)
    ensures
        is_status_reply(r, result),
{
    match result {
        Ok(_) => RpcReply::Success(ReplyBody::Status(RpcError::default())),
        Err(e) => RpcReply::BadRequest(RpcError::from_str(e.as_str())),
    }
}

/// The reply to a request that returns a mount point.
pub fn mount_reply(result: Result<String, String>) -> (r: RpcReply)
    ensures
        is_mount_reply(r, result),
{
    match result {
        Ok(mountpoint) => RpcReply::Success(
            ReplyBody::Mount(MountVolumeResponse { mountpoint, err: String::new() }),
        ),
        Err(e) => RpcReply::BadRequest(RpcError::from_str(e.as_str())),
    }
}

/// The reply to `VolumeDriver.Get`.
pub fn get_reply(result: Result<Volume, String>) -> (r: RpcReply)
    ensures
        is_get_reply(r, result),
{
    match result {
        Ok(vol) => RpcReply::Success(
            ReplyBody::Get(
                GetVolumeResponse {
                    volume: Volume { name: vol.name, mountpoint: vol.mountpoint },
                    err: String::new(),
                },
            ),
        ),
        Err(e) => RpcReply::BadRequest(RpcError::from_str(e.as_str())),
    }
}

/// The reply to `VolumeDriver.List`.
pub fn list_reply(result: Result<Vec<Volume>, String>) -> (r: RpcReply)
    ensures
        is_list_reply(r, result),
{
    match result {
        Ok(vols) => RpcReply::Success(
            ReplyBody::List(ListVolumesResponse { volumes: vols, err: String::new() }),
        ),
        Err(e) => RpcReply::BadRequest(RpcError::from_str(e.as_str())),
    }
}

/// Every reply fails its request exactly when the driver failed, and passes
/// the driver's message on unchanged.
pub proof fn lemma_replies_report_driver_errors(
    status: Result<(), String>,
    mount: Result<String, String>,
    get: Result<Volume, String>,
    list: Result<Vec<Volume>, String>,
    r1: RpcReply,
    r2: RpcReply,
    r3: RpcReply,
    r4: RpcReply,
)
    requires
        is_status_reply(r1, status),
        is_mount_reply(r2, mount),
        is_get_reply(r3, get),
        is_list_reply(r4, list),
    ensures
        reports_driver_error(r1, status),
        reports_driver_error(r2, mount),
        reports_driver_error(r3, get),
        reports_driver_error(r4, list),
{
}

/// A call of the volume driver that a request asks for; the server makes it
/// with the `VolumeDriver` method of the same name.
#[derive(Debug)]
pub enum DriverCall {
    Create { name: String, opts: Option<HashMap<String, String>> },
    Remove { name: String },
    Mount { name: String, id: String },
    Path { name: String },
    Unmount { name: String, id: String },
    Get { name: String },
    List,
}

/// What a driver call returned.
#[derive(Debug)]
pub enum DriverResult {
    /// From `create`, `remove` or `unmount`.
    Status(Result<(), String>),
    /// From `mount` or `path`.
    Mount(Result<String, String>),
    /// From `get`.
    Get(Result<Volume, String>),
    /// From `list`.
    List(Result<Vec<Volume>, String>),
}

/// The reply to what a driver call returned.
pub open spec fn is_driver_reply(reply: RpcReply, result: DriverResult) -> bool {
    match result {
        DriverResult::Status(res) => is_status_reply(reply, res),
        DriverResult::Mount(res) => is_mount_reply(reply, res),
        DriverResult::Get(res) => is_get_reply(reply, res),
        DriverResult::List(res) => is_list_reply(reply, res),
    }
}

/// Serves a volume driver to Docker on a unix socket.
pub struct VolumePlugin<T> {
    socket_path: String,
    volume_driver: Arc<T>,
}

impl<T: VolumeDriver> VolumePlugin<T> {
    /// Where the plugin listens.
    pub closed spec fn socket(&self) -> Seq<char> {
        self.socket_path@
    }

    /// The driver that the plugin serves.
    pub closed spec fn driver(&self) -> Arc<T> {
        self.volume_driver
    }

    pub fn new(socket: &str, driver: Arc<T>) -> (p: Self)
        ensures
            p.socket() == socket@,
            p.driver() == driver,
    {
        VolumePlugin { socket_path: socket.to_string(), volume_driver: driver }
    }

    /// The socket path, for the server that listens on it.
    pub fn socket_path(&self) -> (r: &str)
        ensures
            r@ == self.socket(),
    {
        self.socket_path.as_str()
    }

    /// The driver, for the server that hands it to the handlers.
    pub fn volume_driver(&self) -> (r: Arc<T>)
        ensures
            r == self.driver(),
    {
        self.volume_driver.clone()
    }

    /// `Plugin.Activate`: the plugin implements the volume driver protocol.
    pub fn handle_plugin_activate() -> (r: RpcReply)
        ensures
            r matches RpcReply::Success(ReplyBody::Activate(a)) && a.implements@ == seq![
                Protocol::VolumeDriver,
            ],
    {
        let plugin_implements = ActivateResponse { implements: vec![Protocol::VolumeDriver] };
        RpcReply::Success(ReplyBody::Activate(plugin_implements))
    }

    /// `VolumeDriver.Capabilities`: volumes are local to the host.
    pub fn handle_capabilities() -> (r: RpcReply)
        ensures
            r matches RpcReply::Success(ReplyBody::Capabilities(c)) && c.scope == Scope::Local,
    {
        RpcReply::Success(ReplyBody::Capabilities(Capabilities { scope: Scope::Local }))
    }

    /// `VolumeDriver.Create`: the driver call to make, with the request's
    /// name and options.
    pub fn handle_volume_create(create_request: CreateVolumeRequest) -> (c: DriverCall)
        ensures
            c matches DriverCall::Create { name, opts } && name == create_request.name && opts
                == create_request.opts,
    {
        DriverCall::Create { name: create_request.name, opts: create_request.opts }
    }

    /// `VolumeDriver.Remove`: the driver call to make.
    pub fn handle_volume_remove(name: String) -> (c: DriverCall)
        ensures
            c matches DriverCall::Remove { name: n } && n == name,
    {
        DriverCall::Remove { name }
    }

    /// `VolumeDriver.Mount`: the driver call to make, name first, then the
    /// caller's ID.
    pub fn handle_volume_mount(name: String, id: String) -> (c: DriverCall)
        ensures
            c matches DriverCall::Mount { name: n, id: i } && n == name && i == id,
    {
        DriverCall::Mount { name, id }
    }

    /// `VolumeDriver.Path`: the driver call to make.
    pub fn handle_volume_path(name: String) -> (c: DriverCall)
        ensures
            c matches DriverCall::Path { name: n } && n == name,
    {
        DriverCall::Path { name }
    }

    /// `VolumeDriver.Unmount`: the driver call to make, name first, then the
    /// caller's ID.
    pub fn handle_volume_unmount(name: String, id: String) -> (c: DriverCall)
        ensures
            c matches DriverCall::Unmount { name: n, id: i } && n == name && i == id,
    {
        DriverCall::Unmount { name, id }
    }

    /// `VolumeDriver.Get`: the driver call to make.
    pub fn handle_volume_get(name: String) -> (c: DriverCall)
        ensures
            c matches DriverCall::Get { name: n } && n == name,
    {
        DriverCall::Get { name }
    }

    /// `VolumeDriver.List`: the driver call to make.
    pub fn handle_volume_list() -> (c: DriverCall)
        ensures
            c is List,
    {
        DriverCall::List
    }

    /// The reply to a request, from what its driver call returned.
    pub fn handle_driver_result(result: DriverResult) -> (r: RpcReply)
        ensures
            is_driver_reply(r, result),
    {
        match result {
            DriverResult::Status(res) => status_reply(res),
            DriverResult::Mount(res) => mount_reply(res),
            DriverResult::Get(res) => get_reply(res),
            DriverResult::List(res) => list_reply(res),
        }
    }
}

} // verus!
