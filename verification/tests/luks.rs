use luks_volume::crypto::VirtualHSM;
use luks_volume::luks::{
    fresh_uuid, CreatePhase, DriverTask, ErrorText, GetPhase, LuksVolumeDriver, MountPhase, Outcome,
    RngSource, Stage, Step, UnmountPhase,
};

fn err(shown: &str, debug: &str) -> ErrorText {
    ErrorText { shown: shown.to_string(), debug: debug.to_string() }
}

fn driver() -> LuksVolumeDriver {
    LuksVolumeDriver::new("/var/lib/luks", "/mnt/luks", None)
}

/// Performs an HSM task with the driver's HSM, as a runner does.
fn run_hsm(d: &LuksVolumeDriver, task: DriverTask) -> Outcome {
    match d.own_hsm() {
        Some(h) => match task {
            DriverTask::GenerateKey => LuksVolumeDriver::hsm_outcome(h.random_bytes()),
            DriverTask::EncryptKey { key } => LuksVolumeDriver::hsm_outcome(h.encrypt(key)),
            DriverTask::DecryptKey { blob } => LuksVolumeDriver::hsm_outcome(h.decrypt(blob)),
            other => panic!("not an HSM task: {:?}", other),
        },
        None => LuksVolumeDriver::pass_through_task(task),
    }
}

fn is_hsm(t: &DriverTask) -> bool {
    matches!(t, DriverTask::GenerateKey | DriverTask::EncryptKey { .. } | DriverTask::DecryptKey { .. })
}

/// Runs creation of `name`, failing the `fail_at`-th disk task (counting from
/// 0) with `failure`; returns the disk tasks issued and the result.
fn run_create(
    d: &LuksVolumeDriver,
    name: &str,
    fail_at: Option<(usize, Stage, ErrorText)>,
) -> (Vec<DriverTask>, Result<(), String>) {
    let mut tasks = Vec::new();
    let mut step = d.create_start(name);
    let mut fail_at = fail_at;
    loop {
        match step {
            Step::Finish(r) => return (tasks, r),
            Step::Run(phase, task) => {
                let outcome = if is_hsm(&task) {
                    run_hsm(d, task)
                } else {
                    let index = tasks.len();
                    tasks.push(task);
                    match fail_at.take() {
                        Some((i, stage, e)) if i == index => Outcome::Failed(stage, e),
                        other => {
                            fail_at = other;
                            Outcome::Done
                        },
                    }
                };
                step = d.create_step(name, phase, outcome);
            },
        }
    }
}

#[test]
fn driver_paths() {
    let d = driver();
    assert_eq!(d.data_dir, "/var/lib/luks");
    assert_eq!(d.mount_dir, "/mnt/luks");
    match d.remove_task("vol") {
        DriverTask::RemoveDirAll { path } => assert_eq!(path, "/var/lib/luks/vol"),
        other => panic!("unexpected task {:?}", other),
    }
    match d.path_task("vol") {
        DriverTask::CheckExists { path } => assert_eq!(path, "/mnt/luks/vol"),
        other => panic!("unexpected task {:?}", other),
    }
}

#[test]
fn create_runs_every_step_then_stores_the_key() {
    let d = driver();
    let (tasks, r) = run_create(&d, "vol", None);
    assert_eq!(r, Ok(()));
    assert_eq!(tasks.len(), 7);
    match &tasks[0] {
        DriverTask::CreateDirAll { path } => assert_eq!(path, "/var/lib/luks/vol"),
        t => panic!("{:?}", t),
    }
    match &tasks[1] {
        DriverTask::RunCommand { program, args } => {
            assert_eq!(program, "dd");
            assert_eq!(
                args,
                &vec![
                    "if=/dev/zero".to_string(),
                    "of=/var/lib/luks/vol/volume.img".to_string(),
                    "bs=1G".to_string(),
                    "count=0".to_string(),
                    "seek=1".to_string()
                ]
            );
        },
        t => panic!("{:?}", t),
    }
    let key = match &tasks[2] {
        DriverTask::FormatLuks {
            image,
            key,
            header_uuid,
            rng,
            iteration_ms,
            cipher,
            cipher_mode,
            hash,
            key_bits,
        } => {
            assert_eq!(image, "/var/lib/luks/vol/volume.img");
            assert_eq!(key.len(), 1024);
            assert_eq!(header_uuid.len(), 36);
            assert_eq!(*rng, RngSource::Urandom);
            assert_eq!(*iteration_ms, 5000);
            assert_eq!(cipher, "aes");
            assert_eq!(cipher_mode, "xts-plain");
            assert_eq!(hash, "sha256");
            assert_eq!(*key_bits, 256);
            key.clone()
        },
        t => panic!("{:?}", t),
    };
    let mapping = match &tasks[3] {
        DriverTask::ActivateLuks { name, image, key: k } => {
            assert_eq!(name.len(), 36);
            assert_eq!(image, "/var/lib/luks/vol/volume.img");
            assert_eq!(k, &key);
            name.clone()
        },
        t => panic!("{:?}", t),
    };
    match &tasks[4] {
        DriverTask::FormatExt4 { device, inode_size, reserved_blocks_percentage } => {
            assert_eq!(device, &format!("/dev/mapper/{}", mapping));
            assert_eq!(*inode_size, 256);
            assert_eq!(*reserved_blocks_percentage, 5);
        },
        t => panic!("{:?}", t),
    }
    match &tasks[5] {
        DriverTask::DeactivateLuks { name, image } => {
            assert_eq!(name, &mapping);
            assert_eq!(image, "/var/lib/luks/vol/volume.img");
        },
        t => panic!("{:?}", t),
    }
    match &tasks[6] {
        // the pass-through HSM stores the key as it is
        DriverTask::WriteFile { path, data } => {
            assert_eq!(path, "/var/lib/luks/vol/keyfile");
            assert_eq!(data, &key);
        },
        t => panic!("{:?}", t),
    }
}

fn failed_create(fail_at: usize, stage: Stage) -> (Vec<DriverTask>, Result<(), String>) {
    run_create(&driver(), "vol", Some((fail_at, stage, err("SHOWN", "DEBUG"))))
}

fn assert_cleaned_up(tasks: &Vec<DriverTask>, failed: usize) {
    assert_eq!(tasks.len(), failed + 2);
    match &tasks[failed + 1] {
        DriverTask::RemoveDirAll { path } => assert_eq!(path, "/var/lib/luks/vol"),
        t => panic!("no clean up: {:?}", t),
    }
}

#[test]
fn create_directory_failure_cleans_up() {
    let (tasks, r) = failed_create(0, Stage::Call);
    assert_cleaned_up(&tasks, 0);
    assert_eq!(
        r.unwrap_err(),
        "Unable to create volume vol: Unable to create the volume directory /var/lib/luks/vol: SHOWN"
    );
}

#[test]
fn create_image_failure_cleans_up() {
    let (tasks, r) = failed_create(1, Stage::Call);
    assert_cleaned_up(&tasks, 1);
    assert_eq!(
        r.unwrap_err(),
        "Unable to create volume vol: Couldn't create the LUKS disk image for the volume vol: \
         Unable to create the disk image: SHOWN"
    );
}

#[test]
fn create_format_failures_clean_up() {
    let cases = [
        (Stage::Builder, "Unable to create a builder to format the LUKS image"),
        (Stage::Format, "Unable to format the LUKS image"),
        (Stage::Keyslot, "Unable to add key to LUKS keyslot"),
    ];
    for (stage, text) in cases.iter() {
        let (tasks, r) = failed_create(2, *stage);
        assert_cleaned_up(&tasks, 2);
        assert_eq!(
            r.unwrap_err(),
            format!(
                "Unable to create volume vol: Unable to format LUKS header on the disk image: \
                 Unable to format the LUKS device: {}",
                text
            )
        );
    }
}

#[test]
fn create_activate_failures_clean_up() {
    let (tasks, r) = failed_create(3, Stage::Open);
    assert_cleaned_up(&tasks, 3);
    assert_eq!(
        r.unwrap_err(),
        "Unable to create volume vol: Unable to activate the LUKS disk image: \
         Unable to open LUKS image /var/lib/luks/vol/volume.img: DEBUG"
    );
    let (_, r) = failed_create(3, Stage::Handle);
    assert_eq!(
        r.unwrap_err(),
        "Unable to create volume vol: Unable to activate the LUKS disk image: \
         Unable to get device handle for LUKS image /var/lib/luks/vol/volume.img: DEBUG"
    );
    let (_, r) = failed_create(3, Stage::Operation);
    assert_eq!(
        r.unwrap_err(),
        "Unable to create volume vol: Unable to activate the LUKS disk image: Unable to activate LUKS device"
    );
}

#[test]
fn create_ext4_failure_cleans_up() {
    let (tasks, r) = failed_create(4, Stage::Call);
    assert_cleaned_up(&tasks, 4);
    let device = match &tasks[4] {
        DriverTask::FormatExt4 { device, .. } => device.clone(),
        t => panic!("{:?}", t),
    };
    assert_eq!(
        r.unwrap_err(),
        format!("Unable to create volume vol: Unable to format the LUKS disk image {} as Ext4: DEBUG", device)
    );
}

#[test]
fn create_deactivate_failure_cleans_up() {
    let (tasks, r) = failed_create(5, Stage::Operation);
    assert_cleaned_up(&tasks, 5);
    assert_eq!(
        r.unwrap_err(),
        "Unable to create volume vol: Unable to deactive the LUKS disk image: Unable to deactivate LUKS device"
    );
}

#[test]
fn create_cleanup_failure_is_reported() {
    let d = driver();
    let step = d.create_step(
        "vol",
        CreatePhase::CleaningUp { why: "earlier".to_string() },
        Outcome::Failed(Stage::Call, err("busy", "Busy")),
    );
    match step {
        Step::Finish(Err(e)) => assert_eq!(e, "Unable to remove the volume directory for \"vol\": busy"),
        other => panic!("{:?}", other),
    }
}

#[test]
fn create_key_write_failure() {
    let (tasks, r) = failed_create(6, Stage::Call);
    // the volume stays; only writing the key failed
    assert_eq!(tasks.len(), 7);
    assert_eq!(r.unwrap_err(), "Unable to wite key file /var/lib/luks/vol/keyfile: DEBUG");
}

#[test]
fn create_hsm_failures() {
    let d = driver();
    let step = d.create_step(
        "vol",
        CreatePhase::GeneratingKey,
        Outcome::HsmFailed(luks_volume::crypto::CryptoError::InvalidKey),
    );
    match step {
        Step::Finish(Err(e)) => {
            assert_eq!(e, "Unable to generate random bytes for new LUKS key: Invalid Key")
        },
        other => panic!("{:?}", other),
    }
    let step = d.create_step(
        "vol",
        CreatePhase::EncryptingKey,
        Outcome::HsmFailed(luks_volume::crypto::CryptoError::UnableToEncrypt("x".to_string())),
    );
    match step {
        Step::Finish(Err(e)) => {
            assert_eq!(e, "Unable to encrypt key /var/lib/luks/vol/keyfile: Unknown")
        },
        other => panic!("{:?}", other),
    }
}

fn run_mount(
    d: &LuksVolumeDriver,
    name: &str,
    id: &str,
    fail_at: Option<(usize, Stage)>,
) -> (Vec<DriverTask>, Result<String, String>) {
    let mut tasks = Vec::new();
    let mut step = d.mount_start(name);
    loop {
        match step {
            Step::Finish(r) => return (tasks, r),
            Step::Run(phase, task) => {
                let outcome = if is_hsm(&task) {
                    run_hsm(d, task)
                } else {
                    let index = tasks.len();
                    let reading = matches!(task, DriverTask::ReadFile { .. });
                    tasks.push(task);
                    match fail_at {
                        Some((i, stage)) if i == index => Outcome::Failed(stage, err("SHOWN", "DEBUG")),
                        _ => {
                            if reading {
                                Outcome::Data(vec![7u8; 16])
                            } else {
                                Outcome::Done
                            }
                        },
                    }
                };
                step = d.mount_step(name, id, phase, outcome);
            },
        }
    }
}

#[test]
fn mount_then_path_agree() {
    let d = driver();
    let (tasks, r) = run_mount(&d, "vol", "c0ffee", None);
    assert_eq!(r.clone().unwrap(), "/mnt/luks/vol");
    assert_eq!(tasks.len(), 5);
    match &tasks[0] {
        DriverTask::CheckExists { path } => assert_eq!(path, "/var/lib/luks/vol/keyfile"),
        t => panic!("{:?}", t),
    }
    match &tasks[1] {
        DriverTask::ReadFile { path } => assert_eq!(path, "/var/lib/luks/vol/keyfile"),
        t => panic!("{:?}", t),
    }
    match &tasks[2] {
        DriverTask::CreateDirAll { path } => assert_eq!(path, "/mnt/luks/vol"),
        t => panic!("{:?}", t),
    }
    match &tasks[3] {
        DriverTask::ActivateLuks { name, image, key } => {
            assert_eq!(name, "c0ffee");
            assert_eq!(image, "/var/lib/luks/vol/volume.img");
            // the pass-through HSM gives the stored key back as it is
            assert_eq!(key, &vec![7u8; 16]);
        },
        t => panic!("{:?}", t),
    }
    match &tasks[4] {
        DriverTask::MountDevice { source, target } => {
            assert_eq!(source, "/dev/mapper/c0ffee");
            assert_eq!(target, "/mnt/luks/vol");
        },
        t => panic!("{:?}", t),
    }
    assert_eq!(d.path_result("vol", Outcome::Done).unwrap(), r.unwrap());
}

#[test]
fn mount_failures() {
    let d = driver();
    let (_, r) = run_mount(&d, "vol", "id", Some((0, Stage::Call)));
    assert_eq!(r.unwrap_err(), "Unable to get key for volume vol: DEBUG");
    let (_, r) = run_mount(&d, "vol", "id", Some((1, Stage::Call)));
    assert_eq!(r.unwrap_err(), "Unable to read key file /var/lib/luks/vol/keyfile: DEBUG");
    let (_, r) = run_mount(&d, "vol", "id", Some((2, Stage::Call)));
    assert_eq!(
        r.unwrap_err(),
        "Unable to mount the volume vol: Unable to create mount dir /mnt/luks/vol: SHOWN"
    );
    let (_, r) = run_mount(&d, "vol", "id", Some((3, Stage::Open)));
    assert_eq!(r.unwrap_err(), "Unable to mount the volume vol: Unable to open the LUKS volume");
    let (_, r) = run_mount(&d, "vol", "id", Some((4, Stage::Filesystems)));
    assert_eq!(
        r.unwrap_err(),
        "Unable to mount the volume vol: failed to get supported filesystems: SHOWN"
    );
    let (_, r) = run_mount(&d, "vol", "id", Some((4, Stage::Call)));
    assert_eq!(
        r.unwrap_err(),
        "Unable to mount the volume vol: failed to get mount /dev/mapper/id to /mnt/luks/vol: SHOWN"
    );
}

#[test]
fn mount_decrypt_failure() {
    let d = driver();
    match d.mount_step(
        "vol",
        "id",
        MountPhase::DecryptingKey,
        Outcome::HsmFailed(luks_volume::crypto::CryptoError::InvalidKey),
    ) {
        Step::Finish(Err(e)) => {
            assert_eq!(e, "Unable to decrypt key file /var/lib/luks/vol/keyfile: Invalid Key")
        },
        other => panic!("{:?}", other),
    }
}

fn run_unmount(d: &LuksVolumeDriver, fail_at: Option<(usize, Stage)>) -> (Vec<DriverTask>, Result<(), String>) {
    let mut tasks = Vec::new();
    let mut step = d.unmount_start("vol");
    loop {
        match step {
            Step::Finish(r) => return (tasks, r),
            Step::Run(phase, task) => {
                let index = tasks.len();
                tasks.push(task);
                let outcome = match fail_at {
                    Some((i, stage)) if i == index => Outcome::Failed(stage, err("SHOWN", "DEBUG")),
                    _ => Outcome::Done,
                };
                step = d.unmount_step("vol", "c0ffee", phase, outcome);
            },
        }
    }
}

#[test]
fn unmount_undoes_mount() {
    let d = driver();
    let (tasks, r) = run_unmount(&d, None);
    assert_eq!(r, Ok(()));
    assert_eq!(tasks.len(), 3);
    match &tasks[0] {
        DriverTask::Unmount { target, force } => {
            assert_eq!(target, "/mnt/luks/vol");
            assert!(*force);
        },
        t => panic!("{:?}", t),
    }
    match &tasks[1] {
        DriverTask::DeactivateLuks { name, image } => {
            assert_eq!(name, "c0ffee");
            assert_eq!(image, "/var/lib/luks/vol/volume.img");
        },
        t => panic!("{:?}", t),
    }
    match &tasks[2] {
        DriverTask::RemoveDirAll { path } => assert_eq!(path, "/mnt/luks/vol"),
        t => panic!("{:?}", t),
    }
}

#[test]
fn unmount_failures() {
    let d = driver();
    let (_, r) = run_unmount(&d, Some((0, Stage::Call)));
    assert_eq!(r.unwrap_err(), "Unable to unmount vol: Failed to unmount /mnt/luks/vol: SHOWN");
    let (_, r) = run_unmount(&d, Some((1, Stage::Open)));
    assert_eq!(
        r.unwrap_err(),
        "Unable to unmount vol: Unable to open LUKS image /var/lib/luks/vol/volume.img: DEBUG"
    );
    let (_, r) = run_unmount(&d, Some((1, Stage::Operation)));
    assert_eq!(r.unwrap_err(), "Unable to unmount vol: Unable to deactivate LUKS device");
    let (_, r) = run_unmount(&d, Some((2, Stage::Call)));
    assert_eq!(r.unwrap_err(), "Unable to unmount vol: Unable to remove mount dir /mnt/luks/vol: SHOWN");
    let _ = UnmountPhase::Unmounting;
}

#[test]
fn remove_and_path_results() {
    let d = driver();
    assert_eq!(d.remove_result("vol", Outcome::Done), Ok(()));
    assert_eq!(
        d.remove_result("vol", Outcome::Failed(Stage::Call, err("gone", "Gone"))).unwrap_err(),
        "Unable to remove volume dir /var/lib/luks/vol: gone"
    );
    assert_eq!(
        d.path_result("vol", Outcome::Failed(Stage::Call, err("no", "NotFound"))).unwrap_err(),
        "Unable to get path for volume vol: NotFound"
    );
}

#[test]
fn get_reports_mount_point_when_present() {
    let d = driver();
    let step = d.get_start("vol");
    let phase = match step {
        Step::Run(phase, DriverTask::CheckExists { path }) => {
            assert_eq!(path, "/var/lib/luks/vol/volume.img");
            phase
        },
        other => panic!("{:?}", other),
    };
    let step = d.get_step("vol", phase, Outcome::Done);
    match step {
        Step::Run(GetPhase::CheckingMountPoint, DriverTask::CheckExists { path }) => {
            assert_eq!(path, "/mnt/luks/vol")
        },
        other => panic!("{:?}", other),
    }
    match d.get_step("vol", GetPhase::CheckingMountPoint, Outcome::Done) {
        Step::Finish(Ok(v)) => {
            assert_eq!(v.name, "vol");
            assert_eq!(v.mountpoint, Some("/mnt/luks/vol".to_string()));
        },
        other => panic!("{:?}", other),
    }
    match d.get_step("vol", GetPhase::CheckingMountPoint, Outcome::Failed(Stage::Call, err("a", "b"))) {
        Step::Finish(Ok(v)) => {
            assert_eq!(v.name, "vol");
            assert_eq!(v.mountpoint, None);
        },
        other => panic!("{:?}", other),
    }
}

#[test]
fn get_without_image_fails() {
    let d = driver();
    match d.get_step("vol", GetPhase::CheckingImage, Outcome::Failed(Stage::Call, err("No such file", "x"))) {
        Step::Finish(Err(e)) => {
            assert_eq!(e, "Unable to get volume info: Unable to find volume image: No such file")
        },
        other => panic!("{:?}", other),
    }
}

#[test]
fn list_names_directories() {
    let d = driver();
    match d.list_task() {
        DriverTask::ListSubdirectories { path } => assert_eq!(path, "/var/lib/luks"),
        t => panic!("{:?}", t),
    }
    let vols = d.list_result(Outcome::Names(vec!["a".to_string(), "b".to_string()])).unwrap();
    assert_eq!(vols.len(), 2);
    assert_eq!(vols[0].name, "a");
    assert_eq!(vols[1].name, "b");
    assert_eq!(vols[0].mountpoint, Some(String::new()));
    assert!(d.list_result(Outcome::Names(vec![])).unwrap().is_empty());
}

#[test]
fn disk_image_command_and_format_task() {
    match LuksVolumeDriver::disk_image_command("/x/volume.img") {
        DriverTask::RunCommand { program, args } => {
            assert_eq!(program, "dd");
            assert_eq!(args[1], "of=/x/volume.img");
        },
        t => panic!("{:?}", t),
    }
    match LuksVolumeDriver::format_luks_task("/x", vec![1, 2], "u".to_string()) {
        DriverTask::FormatLuks {
            image,
            key,
            header_uuid,
            rng,
            iteration_ms,
            cipher,
            cipher_mode,
            hash,
            key_bits,
        } => {
            assert_eq!(image, "/x");
            assert_eq!(key, vec![1, 2]);
            assert_eq!(header_uuid, "u");
            assert_eq!(rng, RngSource::Urandom);
            assert_eq!(iteration_ms, 5000);
            assert_eq!(cipher, "aes");
            assert_eq!(cipher_mode, "xts-plain");
            assert_eq!(hash, "sha256");
            assert_eq!(key_bits, 256);
        },
        t => panic!("{:?}", t),
    }
}

#[test]
fn fresh_uuids_are_version_4_and_distinct() {
    let u1 = fresh_uuid().unwrap();
    let u2 = fresh_uuid().unwrap();
    assert_eq!(u1.len(), 36);
    assert_ne!(u1, u2);
    assert_eq!(u1.chars().filter(|c| *c == '-').count(), 4);
    assert_eq!(u1.chars().nth(14), Some('4'));
    assert!(matches!(u1.chars().nth(19), Some('8' | '9' | 'a' | 'b')));
}

/// An HSM of the test's own that marks what it seals.
struct MarkingHSM;

impl VirtualHSM for MarkingHSM {
    fn encrypt(&self, blob: Vec<u8>) -> luks_volume::crypto::CryptoResult<Vec<u8>> {
        let mut v = vec![0xAA];
        v.extend(blob);
        Ok(v)
    }
    fn decrypt(&self, blob: Vec<u8>) -> luks_volume::crypto::CryptoResult<Vec<u8>> {
        Ok(blob[1..].to_vec())
    }
    fn random_bytes(&self) -> luks_volume::crypto::CryptoResult<Vec<u8>> {
        Ok(vec![7; 8])
    }
}

#[test]
fn driver_uses_the_hsm_it_was_given() {
    let d = LuksVolumeDriver::new("/var/lib/luks", "/mnt/luks", Some(Box::new(MarkingHSM)));
    assert!(d.own_hsm().is_some());
    match run_hsm(&d, DriverTask::EncryptKey { key: vec![1, 2] }) {
        Outcome::Data(b) => assert_eq!(b, vec![0xAA, 1, 2]),
        other => panic!("{:?}", other),
    }
    match run_hsm(&d, DriverTask::GenerateKey) {
        Outcome::Data(b) => assert_eq!(b, vec![7; 8]),
        other => panic!("{:?}", other),
    }
    assert!(driver().own_hsm().is_none());
}

/// An in-memory host: files written are read back, everything else succeeds.
struct MemoryHost {
    files: std::collections::HashMap<String, Vec<u8>>,
    formatted_with: Option<Vec<u8>>,
    activated_with: Vec<Vec<u8>>,
}

impl MemoryHost {
    fn perform(&mut self, d: &LuksVolumeDriver, task: DriverTask) -> Outcome {
        match task {
            DriverTask::GenerateKey | DriverTask::EncryptKey { .. } | DriverTask::DecryptKey { .. } => {
                run_hsm(d, task)
            },
            DriverTask::WriteFile { path, data } => {
                self.files.insert(path, data);
                Outcome::Done
            },
            DriverTask::ReadFile { path } => match self.files.get(&path) {
                Some(bytes) => Outcome::Data(bytes.clone()),
                None => Outcome::Failed(Stage::Call, err("missing", "NotFound")),
            },
            DriverTask::CheckExists { path } => {
                if path.ends_with("keyfile") && !self.files.contains_key(&path) {
                    Outcome::Failed(Stage::Call, err("missing", "NotFound"))
                } else {
                    Outcome::Done
                }
            },
            DriverTask::FormatLuks { key, .. } => {
                self.formatted_with = Some(key);
                Outcome::Done
            },
            DriverTask::ActivateLuks { key, .. } => {
                self.activated_with.push(key);
                Outcome::Done
            },
            _ => Outcome::Done,
        }
    }
}

#[test]
fn mount_unlocks_with_the_created_key() {
    let d = driver();
    let mut host = MemoryHost { files: Default::default(), formatted_with: None, activated_with: vec![] };
    // mounting before the volume exists fails on the missing key
    let mut step = d.mount_start("vol");
    let r = loop {
        match step {
            Step::Finish(r) => break r,
            Step::Run(phase, task) => {
                let o = host.perform(&d, task);
                step = d.mount_step("vol", "id", phase, o);
            },
        }
    };
    assert_eq!(r.unwrap_err(), "Unable to get key for volume vol: NotFound");

    let mut step = d.create_start("vol");
    let r = loop {
        match step {
            Step::Finish(r) => break r,
            Step::Run(phase, task) => {
                let o = host.perform(&d, task);
                step = d.create_step("vol", phase, o);
            },
        }
    };
    assert_eq!(r, Ok(()));
    let mut step = d.mount_start("vol");
    let r = loop {
        match step {
            Step::Finish(r) => break r,
            Step::Run(phase, task) => {
                let o = host.perform(&d, task);
                step = d.mount_step("vol", "id", phase, o);
            },
        }
    };
    assert_eq!(r.unwrap(), "/mnt/luks/vol");
    let formatted = host.formatted_with.clone().unwrap();
    // creation activates once (to make the filesystem), mounting once more
    assert_eq!(host.activated_with.len(), 2);
    assert_eq!(host.activated_with[0], formatted);
    assert_eq!(host.activated_with[1], formatted);
}

#[test]
fn driver_without_hsm_keeps_keys_as_they_are() {
    let d = driver();
    match run_hsm(&d, DriverTask::EncryptKey { key: vec![1, 2, 3] }) {
        Outcome::Data(b) => assert_eq!(b, vec![1, 2, 3]),
        other => panic!("{:?}", other),
    }
    match run_hsm(&d, DriverTask::DecryptKey { blob: vec![9] }) {
        Outcome::Data(b) => assert_eq!(b, vec![9]),
        other => panic!("{:?}", other),
    }
    match run_hsm(&d, DriverTask::GenerateKey) {
        Outcome::Data(b) => assert_eq!(b.len(), 1024),
        other => panic!("{:?}", other),
    }
}

#[test]
fn hsm_outcomes() {
    match LuksVolumeDriver::hsm_outcome(Ok(vec![4, 5])) {
        Outcome::Data(b) => assert_eq!(b, vec![4, 5]),
        other => panic!("{:?}", other),
    }
    match LuksVolumeDriver::hsm_outcome(Err(luks_volume::crypto::CryptoError::InvalidKey)) {
        Outcome::HsmFailed(luks_volume::crypto::CryptoError::InvalidKey) => {},
        other => panic!("{:?}", other),
    }
}

#[test]
fn sealed_key_round_trips_through_the_given_hsm() {
    let d = LuksVolumeDriver::new("/var/lib/luks", "/mnt/luks", Some(Box::new(MarkingHSM)));
    let mut host = MemoryHost { files: Default::default(), formatted_with: None, activated_with: vec![] };
    let mut step = d.create_start("vol");
    let r = loop {
        match step {
            Step::Finish(r) => break r,
            Step::Run(phase, task) => {
                let o = host.perform(&d, task);
                step = d.create_step("vol", phase, o);
            },
        }
    };
    assert_eq!(r, Ok(()));
    // the key file holds the key as the HSM sealed it
    assert_eq!(host.files["/var/lib/luks/vol/keyfile"], vec![0xAA, 7, 7, 7, 7, 7, 7, 7, 7]);
    let mut step = d.mount_start("vol");
    let r = loop {
        match step {
            Step::Finish(r) => break r,
            Step::Run(phase, task) => {
                let o = host.perform(&d, task);
                step = d.mount_step("vol", "id", phase, o);
            },
        }
    };
    assert_eq!(r.unwrap(), "/mnt/luks/vol");
    assert_eq!(host.formatted_with, Some(vec![7; 8]));
    assert_eq!(host.activated_with, vec![vec![7; 8], vec![7; 8]]);
}
