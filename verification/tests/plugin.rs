use luks_volume::plugin::{
    get_reply, list_reply, mount_reply, status_reply, ActivateResponse, DriverCall, DriverResult,
    Protocol, ReplyBody, RpcError, RpcReply, VolumeDriver, VolumePlugin,
};
use luks_volume::volume::{
    CreateVolumeRequest, MountVolumeRequest, RemoveVolumeRequest, Scope, Volume,
};
use std::collections::HashMap;
use std::sync::Arc;

/// A driver that fails every volume whose name starts with "bad".
struct FakeDriver;

fn check(name: &str) -> Result<(), String> {
    if name.starts_with("bad") {
        Err(format!("no such volume {}", name))
    } else {
        Ok(())
    }
}

impl VolumeDriver for FakeDriver {
    fn create(&self, name: String, _opts: Option<HashMap<String, String>>) -> Result<(), String> {
        check(&name)
    }
    fn remove(&self, name: String) -> Result<(), String> {
        check(&name)
    }
    fn mount(&self, name: String, id: String) -> Result<String, String> {
        check(&name).map(|_| format!("/mnt/{}/{}", name, id))
    }
    fn path(&self, name: String) -> Result<String, String> {
        check(&name).map(|_| format!("/mnt/{}", name))
    }
    fn unmount(&self, name: String, _id: String) -> Result<(), String> {
        check(&name)
    }
    fn get(&self, name: String) -> Result<Volume, String> {
        check(&name).map(|_| Volume { name: name.clone(), mountpoint: None })
    }
    fn list(&self) -> Result<Vec<Volume>, String> {
        Ok(vec![Volume { name: "a".to_string(), mountpoint: Some(String::new()) }])
    }
}

type Plugin = VolumePlugin<FakeDriver>;

fn bad_request(r: RpcReply) -> String {
    match r {
        RpcReply::BadRequest(e) => e.err,
        other => panic!("expected a bad request, got {:?}", other),
    }
}

fn empty_status() -> RpcReply {
    RpcReply::Success(ReplyBody::Status(RpcError { err: String::new() }))
}

#[test]
fn plugin_keeps_socket_and_driver() {
    let driver = Arc::new(FakeDriver);
    let p = Plugin::new("/run/docker/plugins/luks.sock", driver.clone());
    assert_eq!(p.socket_path(), "/run/docker/plugins/luks.sock");
    assert!(Arc::ptr_eq(&p.volume_driver(), &driver));
}

#[test]
fn activate_and_capabilities() {
    assert_eq!(
        Plugin::handle_plugin_activate(),
        RpcReply::Success(ReplyBody::Activate(ActivateResponse { implements: vec![Protocol::VolumeDriver] }))
    );
    match Plugin::handle_capabilities() {
        RpcReply::Success(ReplyBody::Capabilities(c)) => assert_eq!(c.scope, Scope::Local),
        other => panic!("{:?}", other),
    }
}

/// Makes a driver call, as the server does.
fn perform(d: &FakeDriver, call: DriverCall) -> RpcReply {
    let result = match call {
        DriverCall::Create { name, opts } => DriverResult::Status(d.create(name, opts)),
        DriverCall::Remove { name } => DriverResult::Status(d.remove(name)),
        DriverCall::Mount { name, id } => DriverResult::Mount(d.mount(name, id)),
        DriverCall::Path { name } => DriverResult::Mount(d.path(name)),
        DriverCall::Unmount { name, id } => DriverResult::Status(d.unmount(name, id)),
        DriverCall::Get { name } => DriverResult::Get(d.get(name)),
        DriverCall::List => DriverResult::List(d.list()),
    };
    Plugin::handle_driver_result(result)
}

#[test]
fn requests_become_driver_calls() {
    let mut opts = HashMap::new();
    opts.insert("size".to_string(), "1G".to_string());
    match Plugin::handle_volume_create(CreateVolumeRequest { name: "v".to_string(), opts: Some(opts.clone()) }) {
        DriverCall::Create { name, opts: o } => {
            assert_eq!(name, "v");
            assert_eq!(o, Some(opts));
        },
        other => panic!("{:?}", other),
    }
    match Plugin::handle_volume_mount("v".to_string(), "7".to_string()) {
        DriverCall::Mount { name, id } => assert_eq!((name.as_str(), id.as_str()), ("v", "7")),
        other => panic!("{:?}", other),
    }
    match Plugin::handle_volume_unmount("v".to_string(), "7".to_string()) {
        DriverCall::Unmount { name, id } => assert_eq!((name.as_str(), id.as_str()), ("v", "7")),
        other => panic!("{:?}", other),
    }
    assert!(matches!(Plugin::handle_volume_remove("v".to_string()), DriverCall::Remove { name } if name == "v"));
    assert!(matches!(Plugin::handle_volume_path("v".to_string()), DriverCall::Path { name } if name == "v"));
    assert!(matches!(Plugin::handle_volume_get("v".to_string()), DriverCall::Get { name } if name == "v"));
    assert!(matches!(Plugin::handle_volume_list(), DriverCall::List));
}

#[test]
fn create_and_remove_replies() {
    let d = FakeDriver;
    let req = CreateVolumeRequest { name: "v".to_string(), opts: None };
    assert_eq!(perform(&d, Plugin::handle_volume_create(req)), empty_status());
    let req = CreateVolumeRequest { name: "bad1".to_string(), opts: Some(HashMap::new()) };
    assert_eq!(bad_request(perform(&d, Plugin::handle_volume_create(req))), "no such volume bad1");
    assert_eq!(perform(&d, Plugin::handle_volume_remove("v".to_string())), empty_status());
    assert_eq!(bad_request(perform(&d, Plugin::handle_volume_remove("bad2".to_string()))), "no such volume bad2");
}

#[test]
fn mount_path_unmount_replies() {
    let d = FakeDriver;
    match perform(&d, Plugin::handle_volume_mount("v".to_string(), "7".to_string())) {
        RpcReply::Success(ReplyBody::Mount(m)) => {
            assert_eq!(m.mountpoint, "/mnt/v/7");
            assert_eq!(m.err, "");
        },
        other => panic!("{:?}", other),
    }
    match perform(&d, Plugin::handle_volume_path("v".to_string())) {
        RpcReply::Success(ReplyBody::Mount(m)) => assert_eq!(m.mountpoint, "/mnt/v"),
        other => panic!("{:?}", other),
    }
    assert_eq!(bad_request(perform(&d, Plugin::handle_volume_path("bad".to_string()))), "no such volume bad");
    assert_eq!(perform(&d, Plugin::handle_volume_unmount("v".to_string(), "7".to_string())), empty_status());
    assert_eq!(
        bad_request(perform(&d, Plugin::handle_volume_unmount("bad".to_string(), "7".to_string()))),
        "no such volume bad"
    );
}

#[test]
fn get_and_list_replies() {
    let d = FakeDriver;
    match perform(&d, Plugin::handle_volume_get("v".to_string())) {
        RpcReply::Success(ReplyBody::Get(g)) => {
            assert_eq!(g.volume, Volume { name: "v".to_string(), mountpoint: None });
            assert_eq!(g.err, "");
        },
        other => panic!("{:?}", other),
    }
    assert_eq!(bad_request(perform(&d, Plugin::handle_volume_get("bad".to_string()))), "no such volume bad");
    match perform(&d, Plugin::handle_volume_list()) {
        RpcReply::Success(ReplyBody::List(l)) => {
            assert_eq!(l.volumes.len(), 1);
            assert_eq!(l.err, "");
        },
        other => panic!("{:?}", other),
    }
}

#[test]
fn replies_carry_the_driver_message() {
    assert_eq!(bad_request(status_reply(Err("boom".to_string()))), "boom");
    assert_eq!(bad_request(mount_reply(Err("".to_string()))), "");
    assert_eq!(bad_request(get_reply(Err("x".to_string()))), "x");
    assert_eq!(bad_request(list_reply(Err("y".to_string()))), "y");
    assert_eq!(status_reply(Ok(())), empty_status());
    match list_reply(Ok(vec![])) {
        RpcReply::Success(ReplyBody::List(l)) => assert!(l.volumes.is_empty()),
        other => panic!("{:?}", other),
    }
}

#[test]
fn defaults_and_errors() {
    assert_eq!(RpcError::default().err, "");
    assert_eq!(RpcError::from_str("nope").err, "nope");
    assert!(ActivateResponse::default().implements.is_empty());
    let c = CreateVolumeRequest::default();
    assert_eq!(c.name, "");
    assert!(c.opts.is_none());
    assert_eq!(RemoveVolumeRequest::default().name, "");
    let m = MountVolumeRequest::default();
    assert_eq!((m.name.as_str(), m.id.as_str()), ("", ""));
}
