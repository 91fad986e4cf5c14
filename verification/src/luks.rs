//! The LUKS volume driver. Each volume is a directory below the data
//! directory holding a sparse disk image (`volume.img`), formatted as LUKS1
//! and inside that as Ext4, and the volume's key sealed by the HSM
//! (`keyfile`); a mounted volume is mounted below the mount directory.
//!
//! The driver decides; a runner performs. Each operation starts with a step,
//! and each step is either the operation's result or a task for the runner
//! (a filesystem, device-mapper, mount or HSM task) together with the phase
//! to continue from once the runner reports the task's outcome.
use vstd::prelude::*;
use crate::crypto::{
    crypto_error_text, dummy_seal, dummy_unseal, error_stack_text, fill_random, Blob, CryptoError,
    CryptoResult, DummyHSM, VirtualHSM, DUMMY_KEY_LEN,
};
use crate::text::{concat, concat3, concat4, join_path, lemma_prefix_of_concat, path_join};
use crate::volume::Volume;

verus! {

pub type DriverHSM = dyn VirtualHSM;

/// The random source that LUKS formatting draws key material from.
#[derive(Debug, Clone, Copy, PartialEq, Eq, Structural)]
pub enum RngSource {
    Random,
    Urandom,
}

/// A task that the runner performs for the driver.
#[derive(Debug)]
pub enum DriverTask {
    /// Ask the driver's HSM for fresh key material.
    GenerateKey,
    /// Seal a key with the driver's HSM.
    EncryptKey { key: Vec<u8> },
    /// Unseal a key with the driver's HSM.
    DecryptKey { blob: Vec<u8> },
    /// Create a directory and its parents.
    CreateDirAll { path: String },
    /// Run a program and wait for it; only a failure to start it fails.
    RunCommand { program: String, args: Vec<String> },
    /// Format an image as LUKS1 and add the key to a key slot. Stages:
    /// `Builder`, `Format`, `Keyslot`.
    FormatLuks {
        image: String,
        key: Vec<u8>,
        header_uuid: String,
        rng: RngSource,
        iteration_ms: u64,
        cipher: String,
        cipher_mode: String,
        hash: String,
        key_bits: usize,
    },
    /// Open a LUKS1 image and map it as `/dev/mapper/<name>`. Stages: `Open`,
    /// `Handle`, `Operation`.
    ActivateLuks { name: String, image: String, key: Vec<u8> },
    /// Make an Ext4 filesystem on a device.
    FormatExt4 { device: String, inode_size: u64, reserved_blocks_percentage: u8 },
    /// Open a LUKS1 image and remove mapping `name`. Stages: `Open`, `Handle`,
    /// `Operation`.
    DeactivateLuks { name: String, image: String },
    /// Remove a directory and all it holds.
    RemoveDirAll { path: String },
    /// Write a file whole.
    WriteFile { path: String, data: Vec<u8> },
    /// Read a file whole.
    ReadFile { path: String },
    /// Look a path up.
    CheckExists { path: String },
    /// Mount a device on a directory with the filesystems the kernel
    /// supports. Stages: `Filesystems` (listing them), `Call` (mounting).
    MountDevice { source: String, target: String },
    /// Unmount a directory.
    Unmount { target: String, force: bool },
    /// The names of the entries of a directory that are directories.
    ListSubdirectories { path: String },
}

/// Which part of a task failed, where a task has several.
#[derive(Debug, Clone, Copy, PartialEq, Eq, Structural)]
pub enum Stage {
    Call,
    Open,
    Handle,
    Operation,
    Builder,
    Format,
    Keyslot,
    Filesystems,
}

/// An error as the runner met it: its `Display` text and its `Debug` text.
#[derive(Debug)]
pub struct ErrorText {
    pub shown: String,
    pub debug: String,
}

/// What became of a task.
#[derive(Debug)]
pub enum Outcome {
    /// It was done.
    Done,
    /// It was done and gave bytes (a key, a file's contents).
    Data(Vec<u8>),
    /// It was done and gave names (a directory listing).
    Names(Vec<String>),
    /// It failed.
    Failed(Stage, ErrorText),
    /// The HSM refused it.
    HsmFailed(CryptoError),
}

/// An outcome of a task on disk or devices.
pub open spec fn is_disk_outcome(o: Outcome) -> bool {
    o is Done || o is Failed
}

/// An outcome of an HSM task.
pub open spec fn is_hsm_outcome(o: Outcome) -> bool {
    o is Data || o is HsmFailed
}

/// The next thing an operation does.
#[derive(Debug)]
pub enum Step<P, R> {
    /// Perform the task, then continue from the phase with its outcome.
    Run(P, DriverTask),
    /// The operation is over.
    Finish(R),
}

/// The text that a cryptsetup failure of a LUKS formatting stage is reported as.
pub open spec fn format_stage_text(stage: Stage) -> Seq<char> {
    match stage {
        Stage::Builder => "Unable to create a builder to format the LUKS image"@,
        Stage::Format => "Unable to format the LUKS image"@,
        _ => "Unable to add key to LUKS keyslot"@,
    }
}

/// The text that a failure to open or map a LUKS image is reported as.
pub open spec fn activate_text(image: Seq<char>, stage: Stage, debug: Seq<char>) -> Seq<char> {
    match stage {
        Stage::Open => "Unable to open LUKS image "@ + image + ": "@ + debug,
        Stage::Handle => "Unable to get device handle for LUKS image "@ + image + ": "@ + debug,
        _ => "Unable to activate LUKS device"@,
    }
}

/// The text that a failure to open or unmap a LUKS image is reported as.
pub open spec fn deactivate_text(image: Seq<char>, stage: Stage, debug: Seq<char>) -> Seq<char> {
    match stage {
        Stage::Open => "Unable to open LUKS image "@ + image + ": "@ + debug,
        Stage::Handle => "Unable to get device handle for LUKS image "@ + image + ": "@ + debug,
        _ => "Unable to deactivate LUKS device"@,
    }
}

/// The device that LUKS mapping `name` appears as.
pub open spec fn mapper_device(name: Seq<char>) -> Seq<char> {
    "/dev/mapper/"@ + name
}

/// A step that ends the operation with error `msg`.
pub open spec fn fails_with<P, T>(s: Step<P, Result<T, String>>, msg: Seq<char>) -> bool {
    s matches Step::Finish(Err(e)) && e@ == msg
}

fn stage_text_for_format(stage: Stage) -> (r: String)
    ensures
        r@ == format_stage_text(stage),
{
    match stage {
        Stage::Builder => "Unable to create a builder to format the LUKS image".to_string(),
        Stage::Format => "Unable to format the LUKS image".to_string(),
        _ => "Unable to add key to LUKS keyslot".to_string(),
    }
}

fn luks_open_text(image: &str, stage: Stage, debug: &str, last: &str) -> (r: String)
    ensures
        stage == Stage::Open ==> r@ == "Unable to open LUKS image "@ + image@ + ": "@ + debug@,
        stage == Stage::Handle ==> r@ == "Unable to get device handle for LUKS image "@ + image@
            + ": "@ + debug@,
        stage != Stage::Open && stage != Stage::Handle ==> r@ == last@,
{
    match stage {
        Stage::Open => concat4("Unable to open LUKS image ", image, ": ", debug),
        Stage::Handle => concat4("Unable to get device handle for LUKS image ", image, ": ", debug),
        _ => last.to_string(),
    }
}

fn activate_failure(image: &str, stage: Stage, debug: &str) -> (r: String)
    ensures
        r@ == activate_text(image@, stage, debug@),
{
    luks_open_text(image, stage, debug, "Unable to activate LUKS device")
}

fn deactivate_failure(image: &str, stage: Stage, debug: &str) -> (r: String)
    ensures
        r@ == deactivate_text(image@, stage, debug@),
{
    luks_open_text(image, stage, debug, "Unable to deactivate LUKS device")
}

/// The hyphenated text of the version 4 UUID that
/// `uuid::Builder::from_random_bytes` makes of 16 bytes (it sets the version
/// and variant bits), shown with `Display`.
pub uninterp spec fn uuid_v4_text(bytes: Seq<u8>) -> Seq<char>;

/// Calls `uuid::Builder::from_random_bytes` on the 16 bytes and shows the
/// UUID (`into_uuid`, then `to_string`): the named text, which is hyphenated
/// and 36 characters long.
#[verifier::external_body]
fn uuid_from_random_bytes(bytes: Vec<u8>) -> (r: String)
    requires
        bytes@.len() == 16,
    ensures
        r@ == uuid_v4_text(bytes@),
        r@.len() == 36,
{
    let bytes: [u8; 16] = bytes.try_into().unwrap();
    uuid::Builder::from_random_bytes(bytes).into_uuid().to_string()
}

/// The error for a UUID that could not be made.
pub open spec fn is_uuid_failure(why: Seq<char>) -> bool {
    "Unable to generate a UUID: "@.is_prefix_of(why)
}

/// A fresh random (version 4) UUID, from 16 bytes of OpenSSL's generator;
/// an error where the generator fails.
pub fn fresh_uuid() -> (r: Result<String, String>)
    ensures
        r matches Ok(u) ==> u@.len() == 36,
        r matches Err(e) ==> is_uuid_failure(e@),
{
    let mut bytes: Vec<u8> = vec![0u8; 16];
    match fill_random(&mut bytes) {
        Ok(()) => Ok(uuid_from_random_bytes(bytes)),
        Err(why) => {
            let detail = error_stack_text(&why);
            proof {
                lemma_prefix_of_concat("Unable to generate a UUID: "@, detail@);
            }
            Err(concat("Unable to generate a UUID: ", detail.as_str()))
        },
    }
}

/// `u` is a UUID that a call of `fresh_uuid` gave: a possible outcome of
/// that call (`call_ensures`), which only making the call establishes.
pub open spec fn is_fresh_uuid(u: String) -> bool {
    call_ensures(fresh_uuid, (), Ok::<String, String>(u))
}

/// `e` is the error that a call of `fresh_uuid` gave, where OpenSSL's random
/// generator failed: only making the call establishes it, whatever the
/// volume.
pub open spec fn is_uuid_error(e: String) -> bool {
    call_ensures(fresh_uuid, (), Err::<String, String>(e))
}

/// The LUKS1 formatting of `image` with `key` under a fresh header UUID.
pub open spec fn is_fresh_luks_format_task(t: DriverTask, image: Seq<char>, key: Seq<u8>) -> bool {
    t matches DriverTask::FormatLuks { header_uuid, .. } && header_uuid@.len() == 36
        && is_fresh_uuid(header_uuid) && is_luks_format_task(t, image, key, header_uuid@)
}

/// The command that makes a sparse 1 GiB disk image at `image`.
pub open spec fn is_disk_image_command(t: DriverTask, image: Seq<char>) -> bool {
    t matches DriverTask::RunCommand { program, args } && program@ == "dd"@ && args@.len() == 5
        && args@[0]@ == "if=/dev/zero"@ && args@[1]@ == "of="@ + image && args@[2]@ == "bs=1G"@
        && args@[3]@ == "count=0"@ && args@[4]@ == "seek=1"@
}

/// The LUKS1 formatting of `image` with `key`: AES in XTS mode with a
/// 256-bit key, SHA-256, 5 s of key derivation, urandom, and the header UUID.
pub open spec fn is_luks_format_task(
    t: DriverTask,
    image: Seq<char>,
    key: Seq<u8>,
    header_uuid: Seq<char>,
) -> bool {
    t matches DriverTask::FormatLuks {
        image: i,
        key: k,
        header_uuid: u,
        rng,
        iteration_ms,
        cipher,
        cipher_mode,
        hash,
        key_bits,
    } && i@ == image && k@ == key && u@ == header_uuid && rng == RngSource::Urandom && iteration_ms
        == 5000 && cipher@ == "aes"@ && cipher_mode@ == "xts-plain"@ && hash@ == "sha256"@
        && key_bits == 256
}

/// Serves LUKS-encrypted volumes stored below `data_dir` and mounted below
/// `mount_dir`; the directories are given as absolute, resolved paths.
pub struct LuksVolumeDriver {
    pub data_dir: String,
    pub mount_dir: String,
    hsm: Option<Box<DriverHSM>>,
}

/// Where creating a volume stands.
#[derive(Debug)]
pub enum CreatePhase {
    GeneratingKey,
    MakingDirectory { key: Vec<u8> },
    MakingImage { key: Vec<u8> },
    FormattingLuks { key: Vec<u8> },
    Activating { key: Vec<u8>, mapping: String },
    FormattingExt4 { key: Vec<u8>, mapping: String },
    Deactivating { key: Vec<u8>, mapping: String },
    EncryptingKey,
    WritingKey,
    CleaningUp { why: String },
}

/// How far creating a volume has come: each step goes further.
pub open spec fn create_rank(p: CreatePhase) -> int {
    match p {
        CreatePhase::GeneratingKey => 0,
        CreatePhase::MakingDirectory { .. } => 1,
        CreatePhase::MakingImage { .. } => 2,
        CreatePhase::FormattingLuks { .. } => 3,
        CreatePhase::Activating { .. } => 4,
        CreatePhase::FormattingExt4 { .. } => 5,
        CreatePhase::Deactivating { .. } => 6,
        CreatePhase::CleaningUp { .. } => 7,
        CreatePhase::EncryptingKey => 7,
        CreatePhase::WritingKey => 8,
    }
}

/// The outcomes that a phase of creating a volume continues from.
pub open spec fn create_accepts(p: CreatePhase, o: Outcome) -> bool {
    match p {
        CreatePhase::GeneratingKey => is_hsm_outcome(o),
        CreatePhase::EncryptingKey => is_hsm_outcome(o),
        _ => is_disk_outcome(o),
    }
}

/// A phase of creating a volume between making its directory and storing its
/// key: a failure there undoes the directory.
pub open spec fn is_build_phase(p: CreatePhase) -> bool {
    match p {
        CreatePhase::MakingDirectory { .. } => true,
        CreatePhase::MakingImage { .. } => true,
        CreatePhase::FormattingLuks { .. } => true,
        CreatePhase::Activating { .. } => true,
        CreatePhase::FormattingExt4 { .. } => true,
        CreatePhase::Deactivating { .. } => true,
        _ => false,
    }
}

/// The reason that a failed build phase gives for the failure.
pub open spec fn build_failure(
    data_dir: Seq<char>,
    name: Seq<char>,
    p: CreatePhase,
    stage: Stage,
    shown: Seq<char>,
    debug: Seq<char>,
) -> Seq<char> {
    let dir = path_join(data_dir, name);
    let image = path_join(dir, "volume.img"@);
    match p {
        CreatePhase::MakingDirectory { .. } => "Unable to create the volume directory "@ + dir
            + ": "@ + shown,
        CreatePhase::MakingImage { .. } => "Couldn't create the LUKS disk image for the volume "@
            + name + ": "@ + ("Unable to create the disk image: "@ + shown),
        CreatePhase::FormattingLuks { .. } => "Unable to format LUKS header on the disk image: "@
            + ("Unable to format the LUKS device: "@ + format_stage_text(stage)),
        CreatePhase::Activating { .. } => "Unable to activate the LUKS disk image: "@
            + activate_text(image, stage, debug),
        CreatePhase::FormattingExt4 { mapping, .. } => "Unable to format the LUKS disk image "@
            + mapper_device(mapping@) + " as Ext4: "@ + debug,
        _ => "Unable to deactive the LUKS disk image: "@ + deactivate_text(image, stage, debug),
    }
}

impl LuksVolumeDriver {
    /// The directory that volumes are stored in.
    pub closed spec fn data_root(&self) -> Seq<char> {
        self.data_dir@
    }

    /// The directory that volumes are mounted in.
    pub closed spec fn mount_root(&self) -> Seq<char> {
        self.mount_dir@
    }

    /// The directory of volume `name`.
    pub open spec fn volume_dir(&self, name: Seq<char>) -> Seq<char> {
        path_join(self.data_root(), name)
    }

    /// The disk image of volume `name`.
    pub open spec fn volume_image(&self, name: Seq<char>) -> Seq<char> {
        path_join(self.volume_dir(name), "volume.img"@)
    }

    /// The sealed key of volume `name`.
    pub open spec fn key_file(&self, name: Seq<char>) -> Seq<char> {
        path_join(self.volume_dir(name), "keyfile"@)
    }

    /// Whether the driver was given an HSM of its own; without one, keys are
    /// kept as they are (the pass-through HSM, `pass_through_task`).
    pub closed spec fn has_own_hsm(&self) -> bool {
        self.hsm is Some
    }

    /// The HSM the driver was given.
    pub closed spec fn given_hsm(&self) -> Option<Box<DriverHSM>> {
        self.hsm
    }

    /// The HSM the driver was given, for the runner to perform HSM tasks
    /// with; `None` where HSM tasks are the pass-through HSM's
    /// (`pass_through_task`).
    pub fn own_hsm(&self) -> (r: Option<&Box<DriverHSM>>)
        ensures
            r is Some == self.has_own_hsm(),
            r matches Some(h) ==> self.given_hsm() == Some(*h),
    {
        match &self.hsm {
            Some(h) => Some(h),
            None => None,
        }
    }

    /// Performs an HSM task with the pass-through HSM, for a driver without
    /// an HSM of its own: keys are sealed and unsealed as they are, and fresh
    /// key material is 1024 random bytes.
    pub fn pass_through_task(task: DriverTask) -> (r: Outcome)
        requires
            task is GenerateKey || task is EncryptKey || task is DecryptKey,
        ensures
            match task {
                DriverTask::EncryptKey { key } => r matches Outcome::Data(b) && b@ == dummy_seal(
                    key@,
                ),
                DriverTask::DecryptKey { blob } => r matches Outcome::Data(b) && b@ == dummy_unseal(
                    blob@,
                ),
                _ => (r matches Outcome::Data(b) ==> b@.len() == DUMMY_KEY_LEN) && (r is HsmFailed
                    ==> r matches Outcome::HsmFailed(CryptoError::UnableToEncrypt(_))),
            },
    {
        let dummy = DummyHSM::new();
        let res = match task {
            DriverTask::GenerateKey => dummy.random_bytes(),
            DriverTask::EncryptKey { key } => dummy.encrypt(key),
            DriverTask::DecryptKey { blob } => dummy.decrypt(blob),
            _ => vstd::pervasive::unreached(),
        };
        Self::hsm_outcome(res)
    }

    /// Where volume `name` is mounted.
    pub open spec fn mount_point(&self, name: Seq<char>) -> Seq<char> {
        path_join(self.mount_root(), name)
    }

    /// A driver over the two directories; without an HSM, keys are kept as
    /// they are (`DummyHSM`).
    pub fn new(data_dir: &str, mount_dir: &str, hsm: Option<Box<DriverHSM>>) -> (d: Self)
        ensures
            d.data_root() == data_dir@,
            d.mount_root() == mount_dir@,
            d.has_own_hsm() == hsm is Some,
            d.given_hsm() == hsm,
    {
        LuksVolumeDriver { data_dir: data_dir.to_string(), mount_dir: mount_dir.to_string(), hsm }
    }

    fn dir_of(&self, name: &str) -> (r: String)
        ensures
            r@ == self.volume_dir(name@),
    {
        join_path(self.data_dir.as_str(), name)
    }

    fn image_of(&self, name: &str) -> (r: String)
        ensures
            r@ == self.volume_image(name@),
    {
        let dir = self.dir_of(name);
        join_path(dir.as_str(), "volume.img")
    }

    fn key_file_of(&self, name: &str) -> (r: String)
        ensures
            r@ == self.key_file(name@),
    {
        let dir = self.dir_of(name);
        join_path(dir.as_str(), "keyfile")
    }

    fn mount_point_of(&self, name: &str) -> (r: String)
        ensures
            r@ == self.mount_point(name@),
    {
        join_path(self.mount_dir.as_str(), name)
    }

    /// The outcome of an HSM task, from what the HSM returned: the key or
    /// blob it gave, or its refusal.
    pub fn hsm_outcome(res: CryptoResult<Blob>) -> (r: Outcome)
        ensures
            match res {
                Ok(b) => r == Outcome::Data(b),
                Err(e) => r == Outcome::HsmFailed(e),
            },
    {
        match res {
            Ok(bytes) => Outcome::Data(bytes),
            Err(e) => Outcome::HsmFailed(e),
        }
    }

    /// The command that makes a sparse 1 GiB disk image at `image`.
    pub fn disk_image_command(image: &str) -> (r: DriverTask)
        ensures
            is_disk_image_command(r, image@),
    {
        let mut args: Vec<String> = Vec::new();
        args.push("if=/dev/zero".to_string());
        args.push(concat("of=", image));
        args.push("bs=1G".to_string());
        args.push("count=0".to_string());
        args.push("seek=1".to_string());
        DriverTask::RunCommand { program: "dd".to_string(), args }
    }

    /// The formatting of a new image: LUKS1, AES in XTS mode with a 256-bit
    /// key, SHA-256, 5 s of key derivation, urandom, and the header UUID.
    pub fn format_luks_task(image: &str, key: Vec<u8>, header_uuid: String) -> (r: DriverTask)
        ensures
            is_luks_format_task(r, image@, key@, header_uuid@),
            r matches DriverTask::FormatLuks { header_uuid: u, .. } && u == header_uuid,
    {
        DriverTask::FormatLuks {
            image: image.to_string(),
            key,
            header_uuid,
            rng: RngSource::Urandom,
            iteration_ms: 5000,
            cipher: "aes".to_string(),
            cipher_mode: "xts-plain".to_string(),
            hash: "sha256".to_string(),
            key_bits: 256,
        }
    }

    /// The first step of creating volume `name`: fresh key material.
    pub fn create_start(&self, name: &str) -> (r: Step<CreatePhase, Result<(), String>>)
        ensures
            r matches Step::Run(p, t) && p is GeneratingKey && t is GenerateKey,
    {
        Step::Run(CreatePhase::GeneratingKey, DriverTask::GenerateKey)
    }

    /// What `create_step` promises of step `r`, taken after `phase` of creating
    /// volume `name` with `outcome`.
    pub open spec fn create_step_post(
        &self,
        name: Seq<char>,
        phase: CreatePhase,
        outcome: Outcome,
        r: Step<CreatePhase, Result<(), String>>,
    ) -> bool {
        // every step goes further, so creation ends
        &&& (r matches Step::Run(p, _) ==> create_rank(p) > create_rank(phase))
        // a failure while building undoes the volume's directory
        &&& (is_build_phase(phase) ==> (outcome matches Outcome::Failed(stage, t) ==> (r matches Step::Run(
                CreatePhase::CleaningUp { why },
                DriverTask::RemoveDirAll { path },
            ) && path@ == self.volume_dir(name) && why@ == build_failure(
                self.data_root(),
                name,
                phase,
                stage,
                t.shown@,
                t.debug@,
            ))))
        // the key is written, sealed, only once the volume is built
        &&& (r matches Step::Run(_, DriverTask::WriteFile { path, .. }) ==> (phase is EncryptingKey
                && path@ == self.key_file(name)))
        &&& (r matches Step::Run(_, DriverTask::EncryptKey { .. }) ==> phase is Deactivating)
        &&& (match phase {
                CreatePhase::GeneratingKey => match outcome {
                    Outcome::Data(key) => r matches Step::Run(
                        CreatePhase::MakingDirectory { key: k },
                        DriverTask::CreateDirAll { path },
                    ) && k == key && path@ == self.volume_dir(name),
                    Outcome::HsmFailed(e) => fails_with(
                        r,
                        "Unable to generate random bytes for new LUKS key: "@ + crypto_error_text(e),
                    ),
                    _ => true,
                },
                CreatePhase::MakingDirectory { key } => outcome is Done ==> (r matches Step::Run(
                    CreatePhase::MakingImage { key: k },
                    t,
                ) && k == key && is_disk_image_command(t, self.volume_image(name))),
                CreatePhase::MakingImage { key } => outcome is Done ==> ((r matches Step::Run(
                    CreatePhase::FormattingLuks { key: k },
                    t,
                ) && k == key && is_fresh_luks_format_task(t, self.volume_image(name), key@))
                    || self.undone_for_uuid(name, r)),
                CreatePhase::FormattingLuks { key } => outcome is Done ==> ((r matches Step::Run(
                    CreatePhase::Activating { key: k, mapping },
                    DriverTask::ActivateLuks { name: n, image, key: k2 },
                ) && k == key && k2@ == key@ && n == mapping && mapping@.len() == 36 && is_fresh_uuid(
                    mapping,
                ) && image@ == self.volume_image(name)) || self.undone_for_uuid(name, r)),
                CreatePhase::Activating { key, mapping } => outcome is Done ==> (r matches Step::Run(
                    CreatePhase::FormattingExt4 { key: k, mapping: m },
                    DriverTask::FormatExt4 { device, inode_size, reserved_blocks_percentage },
                ) && k == key && m == mapping && device@ == mapper_device(mapping@) && inode_size
                    == 256 && reserved_blocks_percentage == 5),
                CreatePhase::FormattingExt4 { key, mapping } => outcome is Done ==> (r matches Step::Run(
                    CreatePhase::Deactivating { key: k, mapping: m },
                    DriverTask::DeactivateLuks { name: n, image },
                ) && k == key && m == mapping && n == mapping && image@ == self.volume_image(name)),
                CreatePhase::Deactivating { key, .. } => outcome is Done ==> (r matches Step::Run(
                    CreatePhase::EncryptingKey,
                    DriverTask::EncryptKey { key: k },
                ) && k == key),
                CreatePhase::EncryptingKey => match outcome {
                    Outcome::Data(blob) => r matches Step::Run(
                        CreatePhase::WritingKey,
                        DriverTask::WriteFile { path, data },
                    ) && data == blob && path@ == self.key_file(name),
                    Outcome::HsmFailed(e) => fails_with(
                        r,
                        "Unable to encrypt key "@ + self.key_file(name) + ": "@ + crypto_error_text(e),
                    ),
                    _ => true,
                },
                CreatePhase::WritingKey => match outcome {
                    Outcome::Done => r matches Step::Finish(Ok(_)),
                    Outcome::Failed(_, t) => fails_with(
                        r,
                        "Unable to wite key file "@ + self.key_file(name) + ": "@ + t.debug@,
                    ),
                    _ => true,
                },
                CreatePhase::CleaningUp { why } => match outcome {
                    Outcome::Done => fails_with(
                        r,
                        "Unable to create volume "@ + name + ": "@ + why@,
                    ),
                    Outcome::Failed(_, t) => fails_with(
                        r,
                        "Unable to remove the volume directory for \""@ + name + "\": "@ + t.shown@,
                    ),
                    _ => true,
                },
            })
    }

    /// The step after `phase` of creating volume `name`, given the outcome of
    /// the phase's task.
    pub fn create_step(&self, name: &str, phase: CreatePhase, outcome: Outcome) -> (r: Step<
        CreatePhase,
        Result<(), String>,
    >)
        requires
            create_accepts(phase, outcome),
        ensures
            self.create_step_post(name@, phase, outcome, r),
    {
        match phase {
            CreatePhase::GeneratingKey => match outcome {
                Outcome::Data(key) => Step::Run(
                    CreatePhase::MakingDirectory { key },
                    DriverTask::CreateDirAll { path: self.dir_of(name) },
                ),
                Outcome::HsmFailed(e) => {
                    let why = e.to_string();
                    Step::Finish(
                        Err(
                            concat(
                                "Unable to generate random bytes for new LUKS key: ",
                                why.as_str(),
                            ),
                        ),
                    )
                },
                _ => vstd::pervasive::unreached(),
            },
            CreatePhase::MakingDirectory { key } => match outcome {
                Outcome::Done => {
                    let image = self.image_of(name);
                    Step::Run(
                        CreatePhase::MakingImage { key },
                        Self::disk_image_command(image.as_str()),
                    )
                },
                Outcome::Failed(_, t) => {
                    let dir = self.dir_of(name);
                    let why = concat4(
                        "Unable to create the volume directory ",
                        dir.as_str(),
                        ": ",
                        t.shown.as_str(),
                    );
                    self.clean_up(name, why)
                },
                _ => vstd::pervasive::unreached(),
            },
            CreatePhase::MakingImage { key } => match outcome {
                Outcome::Done => {
                    let make_uuid = fresh_uuid;
                    match make_uuid() {
                        Ok(header_uuid) => {
                            let image = self.image_of(name);
                            let k = key.clone();
                            Step::Run(
                                CreatePhase::FormattingLuks { key },
                                Self::format_luks_task(image.as_str(), k, header_uuid),
                            )
                        },
                        Err(why) => self.clean_up(name, why),
                    }
                },
                Outcome::Failed(_, t) => {
                    let inner = concat("Unable to create the disk image: ", t.shown.as_str());
                    let why = concat4(
                        "Couldn't create the LUKS disk image for the volume ",
                        name,
                        ": ",
                        inner.as_str(),
                    );
                    self.clean_up(name, why)
                },
                _ => vstd::pervasive::unreached(),
            },
            CreatePhase::FormattingLuks { key } => match outcome {
                Outcome::Done => {
                    let make_uuid = fresh_uuid;
                    match make_uuid() {
                        Ok(mapping) => {
                            let image = self.image_of(name);
                            let k = key.clone();
                            let n = mapping.clone();
                            Step::Run(
                                CreatePhase::Activating { key, mapping },
                                DriverTask::ActivateLuks { name: n, image, key: k },
                            )
                        },
                        Err(why) => self.clean_up(name, why),
                    }
                },
                Outcome::Failed(stage, _) => {
                    let stage_text = stage_text_for_format(stage);
                    let inner = concat("Unable to format the LUKS device: ", stage_text.as_str());
                    let why = concat(
                        "Unable to format LUKS header on the disk image: ",
                        inner.as_str(),
                    );
                    self.clean_up(name, why)
                },
                _ => vstd::pervasive::unreached(),
            },
            CreatePhase::Activating { key, mapping } => match outcome {
                Outcome::Done => {
                    let device = concat("/dev/mapper/", mapping.as_str());
                    Step::Run(
                        CreatePhase::FormattingExt4 { key, mapping },
                        DriverTask::FormatExt4 {
                            device,
                            inode_size: 256,
                            reserved_blocks_percentage: 5,
                        },
                    )
                },
                Outcome::Failed(stage, t) => {
                    let image = self.image_of(name);
                    let inner = activate_failure(image.as_str(), stage, t.debug.as_str());
                    let why = concat("Unable to activate the LUKS disk image: ", inner.as_str());
                    self.clean_up(name, why)
                },
                _ => vstd::pervasive::unreached(),
            },
            CreatePhase::FormattingExt4 { key, mapping } => match outcome {
                Outcome::Done => {
                    let image = self.image_of(name);
                    let n = mapping.clone();
                    Step::Run(
                        CreatePhase::Deactivating { key, mapping },
                        DriverTask::DeactivateLuks { name: n, image },
                    )
                },
                Outcome::Failed(_, t) => {
                    let device = concat("/dev/mapper/", mapping.as_str());
                    let why = concat4(
                        "Unable to format the LUKS disk image ",
                        device.as_str(),
                        " as Ext4: ",
                        t.debug.as_str(),
                    );
                    self.clean_up(name, why)
                },
                _ => vstd::pervasive::unreached(),
            },
            CreatePhase::Deactivating { key, .. } => match outcome {
                Outcome::Done => Step::Run(CreatePhase::EncryptingKey, DriverTask::EncryptKey { key }),
                Outcome::Failed(stage, t) => {
                    let image = self.image_of(name);
                    let inner = deactivate_failure(image.as_str(), stage, t.debug.as_str());
                    let why = concat("Unable to deactive the LUKS disk image: ", inner.as_str());
                    self.clean_up(name, why)
                },
                _ => vstd::pervasive::unreached(),
            },
            CreatePhase::EncryptingKey => match outcome {
                Outcome::Data(blob) => Step::Run(
                    CreatePhase::WritingKey,
                    DriverTask::WriteFile { path: self.key_file_of(name), data: blob },
                ),
                Outcome::HsmFailed(e) => {
                    let key_file = self.key_file_of(name);
                    let why = e.to_string();
                    Step::Finish(
                        Err(concat4("Unable to encrypt key ", key_file.as_str(), ": ", why.as_str())),
                    )
                },
                _ => vstd::pervasive::unreached(),
            },
            CreatePhase::WritingKey => match outcome {
                Outcome::Done => Step::Finish(Ok(())),
                Outcome::Failed(_, t) => {
                    let key_file = self.key_file_of(name);
                    Step::Finish(
                        Err(
                            concat4(
                                "Unable to wite key file ",
                                key_file.as_str(),
                                ": ",
                                t.debug.as_str(),
                            ),
                        ),
                    )
                },
                _ => vstd::pervasive::unreached(),
            },
            CreatePhase::CleaningUp { why } => match outcome {
                Outcome::Done => Step::Finish(
                    Err(concat4("Unable to create volume ", name, ": ", why.as_str())),
                ),
                Outcome::Failed(_, t) => Step::Finish(
                    Err(
                        concat4(
                            "Unable to remove the volume directory for \"",
                            name,
                            "\": ",
                            t.shown.as_str(),
                        ),
                    ),
                ),
                _ => vstd::pervasive::unreached(),
            },
        }
    }

    /// A creation step that undoes the half-built volume because no UUID
    /// could be made: the reason is the error a call of `fresh_uuid` gave.
    pub open spec fn undone_for_uuid(&self, name: Seq<char>, r: Step<CreatePhase, Result<(), String>>) -> bool {
        r matches Step::Run(CreatePhase::CleaningUp { why }, DriverTask::RemoveDirAll { path })
            && path@ == self.volume_dir(name) && is_uuid_failure(why@) && is_uuid_error(why)
    }

    /// Undoes a half-built volume: its directory goes.
    fn clean_up(&self, name: &str, why: String) -> (r: Step<CreatePhase, Result<(), String>>)
        ensures
            r matches Step::Run(CreatePhase::CleaningUp { why: w }, DriverTask::RemoveDirAll { path })
                && w == why && path@ == self.volume_dir(name@),
    {
        Step::Run(CreatePhase::CleaningUp { why }, DriverTask::RemoveDirAll { path: self.dir_of(name) })
    }
}


/// Where mounting a volume stands.
#[derive(Debug)]
pub enum MountPhase {
    CheckingKey,
    ReadingKey,
    DecryptingKey,
    MakingMountPoint { key: Vec<u8> },
    Activating,
    Mounting { source: String },
}

/// The outcomes that a phase of mounting a volume continues from.
pub open spec fn mount_accepts(p: MountPhase, o: Outcome) -> bool {
    match p {
        MountPhase::ReadingKey => o is Data || o is Failed,
        MountPhase::DecryptingKey => is_hsm_outcome(o),
        _ => is_disk_outcome(o),
    }
}

/// How far mounting a volume has come: each step goes further.
pub open spec fn mount_rank(p: MountPhase) -> int {
    match p {
        MountPhase::CheckingKey => 0,
        MountPhase::ReadingKey => 1,
        MountPhase::DecryptingKey => 2,
        MountPhase::MakingMountPoint { .. } => 3,
        MountPhase::Activating => 4,
        MountPhase::Mounting { .. } => 5,
    }
}

/// The error of a failed mount, once the key is at hand.
pub open spec fn mount_failure(name: Seq<char>, why: Seq<char>) -> Seq<char> {
    "Unable to mount the volume "@ + name + ": "@ + why
}

/// Where unmounting a volume stands.
#[derive(Debug)]
pub enum UnmountPhase {
    Unmounting,
    Deactivating,
    RemovingMountPoint,
}

/// How far unmounting a volume has come: each step goes further.
pub open spec fn unmount_rank(p: UnmountPhase) -> int {
    match p {
        UnmountPhase::Unmounting => 0,
        UnmountPhase::Deactivating => 1,
        UnmountPhase::RemovingMountPoint => 2,
    }
}

/// The error of a failed unmount.
pub open spec fn unmount_failure(name: Seq<char>, why: Seq<char>) -> Seq<char> {
    "Unable to unmount "@ + name + ": "@ + why
}

/// The mount point that listing gives every volume: present and empty.
pub open spec fn listed_mount_point(m: Option<String>) -> bool {
    m matches Some(p) && p@ == Seq::<char>::empty()
}

/// Where looking a volume up stands.
#[derive(Debug)]
pub enum GetPhase {
    CheckingImage,
    CheckingMountPoint,
}

impl LuksVolumeDriver {
    /// The first step of mounting volume `name`: its sealed key must exist.
    pub fn mount_start(&self, name: &str) -> (r: Step<MountPhase, Result<String, String>>)
        ensures
            r matches Step::Run(p, DriverTask::CheckExists { path }) && p is CheckingKey && path@
                == self.key_file(name@),
    {
        Step::Run(MountPhase::CheckingKey, DriverTask::CheckExists { path: self.key_file_of(name) })
    }

    /// What `mount_step` promises of step `r`, taken after `phase` of mounting
    /// volume `name` for caller `id` with `outcome`.
    pub open spec fn mount_step_post(
        &self,
        name: Seq<char>,
        id: Seq<char>,
        phase: MountPhase,
        outcome: Outcome,
        r: Step<MountPhase, Result<String, String>>,
    ) -> bool {
        &&& (r matches Step::Run(p, _) ==> mount_rank(p) > mount_rank(phase))
        // a mounted volume is where `path` looks for it
        &&& (r matches Step::Finish(Ok(m)) ==> m@ == self.mount_point(name))
        &&& (match phase {
                MountPhase::CheckingKey => match outcome {
                    Outcome::Done => r matches Step::Run(
                        MountPhase::ReadingKey,
                        DriverTask::ReadFile { path },
                    ) && path@ == self.key_file(name),
                    Outcome::Failed(_, t) => fails_with(
                        r,
                        "Unable to get key for volume "@ + name + ": "@ + t.debug@,
                    ),
                    _ => true,
                },
                MountPhase::ReadingKey => match outcome {
                    Outcome::Data(blob) => r matches Step::Run(
                        MountPhase::DecryptingKey,
                        DriverTask::DecryptKey { blob: b },
                    ) && b == blob,
                    Outcome::Failed(_, t) => fails_with(
                        r,
                        "Unable to read key file "@ + self.key_file(name) + ": "@ + t.debug@,
                    ),
                    _ => true,
                },
                MountPhase::DecryptingKey => match outcome {
                    Outcome::Data(key) => r matches Step::Run(
                        MountPhase::MakingMountPoint { key: k },
                        DriverTask::CreateDirAll { path },
                    ) && k == key && path@ == self.mount_point(name),
                    Outcome::HsmFailed(e) => fails_with(
                        r,
                        "Unable to decrypt key file "@ + self.key_file(name) + ": "@
                            + crypto_error_text(e),
                    ),
                    _ => true,
                },
                MountPhase::MakingMountPoint { key } => match outcome {
                    Outcome::Done => r matches Step::Run(
                        MountPhase::Activating,
                        DriverTask::ActivateLuks { name: n, image, key: k },
                    ) && k == key && n@ == id && image@ == self.volume_image(name),
                    Outcome::Failed(_, t) => fails_with(
                        r,
                        mount_failure(
                            name,
                            "Unable to create mount dir "@ + self.mount_point(name) + ": "@
                                + t.shown@,
                        ),
                    ),
                    _ => true,
                },
                MountPhase::Activating => match outcome {
                    Outcome::Done => r matches Step::Run(
                        MountPhase::Mounting { source: s },
                        DriverTask::MountDevice { source, target },
                    ) && s == source && source@ == mapper_device(id) && target@ == self.mount_point(
                        name,
                    ),
                    Outcome::Failed(_, _) => fails_with(
                        r,
                        mount_failure(name, "Unable to open the LUKS volume"@),
                    ),
                    _ => true,
                },
                MountPhase::Mounting { source } => match outcome {
                    Outcome::Done => r matches Step::Finish(Ok(m)) && m@ == self.mount_point(name),
                    Outcome::Failed(Stage::Filesystems, t) => fails_with(
                        r,
                        mount_failure(name, "failed to get supported filesystems: "@ + t.shown@),
                    ),
                    Outcome::Failed(_, t) => fails_with(
                        r,
                        mount_failure(
                            name,
                            "failed to get mount "@ + source@ + " to "@ + self.mount_point(name)
                                + ": "@ + t.shown@,
                        ),
                    ),
                    _ => true,
                },
            })
    }

    /// The step after `phase` of mounting volume `name` for caller `id`,
    /// given the outcome of the phase's task. The LUKS mapping is named by
    /// the caller's ID.
    pub fn mount_step(&self, name: &str, id: &str, phase: MountPhase, outcome: Outcome) -> (r: Step<
        MountPhase,
        Result<String, String>,
    >)
        requires
            mount_accepts(phase, outcome),
        ensures
            self.mount_step_post(name@, id@, phase, outcome, r),
    {
        match phase {
            MountPhase::CheckingKey => match outcome {
                Outcome::Done => Step::Run(
                    MountPhase::ReadingKey,
                    DriverTask::ReadFile { path: self.key_file_of(name) },
                ),
                Outcome::Failed(_, t) => Step::Finish(
                    Err(concat4("Unable to get key for volume ", name, ": ", t.debug.as_str())),
                ),
                _ => vstd::pervasive::unreached(),
            },
            MountPhase::ReadingKey => match outcome {
                Outcome::Data(blob) => Step::Run(MountPhase::DecryptingKey, DriverTask::DecryptKey { blob }),
                Outcome::Failed(_, t) => {
                    let key_file = self.key_file_of(name);
                    Step::Finish(
                        Err(concat4("Unable to read key file ", key_file.as_str(), ": ", t.debug.as_str())),
                    )
                },
                _ => vstd::pervasive::unreached(),
            },
            MountPhase::DecryptingKey => match outcome {
                Outcome::Data(key) => Step::Run(
                    MountPhase::MakingMountPoint { key },
                    DriverTask::CreateDirAll { path: self.mount_point_of(name) },
                ),
                Outcome::HsmFailed(e) => {
                    let key_file = self.key_file_of(name);
                    let why = e.to_string();
                    Step::Finish(
                        Err(concat4("Unable to decrypt key file ", key_file.as_str(), ": ", why.as_str())),
                    )
                },
                _ => vstd::pervasive::unreached(),
            },
            MountPhase::MakingMountPoint { key } => match outcome {
                Outcome::Done => Step::Run(
                    MountPhase::Activating,
                    DriverTask::ActivateLuks { name: id.to_string(), image: self.image_of(name), key },
                ),
                Outcome::Failed(_, t) => {
                    let mount_point = self.mount_point_of(name);
                    let why = concat4("Unable to create mount dir ", mount_point.as_str(), ": ", t.shown.as_str());
                    Step::Finish(Err(concat4("Unable to mount the volume ", name, ": ", why.as_str())))
                },
                _ => vstd::pervasive::unreached(),
            },
            MountPhase::Activating => match outcome {
                Outcome::Done => {
                    let source = concat("/dev/mapper/", id);
                    let s = source.clone();
                    Step::Run(
                        MountPhase::Mounting { source: s },
                        DriverTask::MountDevice { source, target: self.mount_point_of(name) },
                    )
                },
                Outcome::Failed(_, _) => Step::Finish(
                    Err(concat4("Unable to mount the volume ", name, ": ", "Unable to open the LUKS volume")),
                ),
                _ => vstd::pervasive::unreached(),
            },
            MountPhase::Mounting { source } => match outcome {
                Outcome::Done => Step::Finish(Ok(self.mount_point_of(name))),
                Outcome::Failed(stage, t) => {
                    let why = match stage {
                        Stage::Filesystems => concat(
                            "failed to get supported filesystems: ",
                            t.shown.as_str(),
                        ),
                        _ => {
                            let mount_point = self.mount_point_of(name);
                            let head = concat4("failed to get mount ", source.as_str(), " to ", mount_point.as_str());
                            concat3(head.as_str(), ": ", t.shown.as_str())
                        },
                    };
                    Step::Finish(Err(concat4("Unable to mount the volume ", name, ": ", why.as_str())))
                },
                _ => vstd::pervasive::unreached(),
            },
        }
    }

    /// What `unmount_start` promises of the first step `r` of unmounting volume
    /// `name`.
    pub open spec fn unmount_start_post(
        &self,
        name: Seq<char>,
        r: Step<UnmountPhase, Result<(), String>>,
    ) -> bool {
        r matches Step::Run(p, DriverTask::Unmount { target, force }) && p is Unmounting && target@
            == self.mount_point(name) && force
    }

    /// The first step of unmounting volume `name`: unmount, by force.
    pub fn unmount_start(&self, name: &str) -> (r: Step<UnmountPhase, Result<(), String>>)
        ensures
            self.unmount_start_post(name@, r),
    {
        Step::Run(
            UnmountPhase::Unmounting,
            DriverTask::Unmount { target: self.mount_point_of(name), force: true },
        )
    }

    /// What `unmount_step` promises of step `r`, taken after `phase` of
    /// unmounting volume `name` for caller `id` with `outcome`.
    pub open spec fn unmount_step_post(
        &self,
        name: Seq<char>,
        id: Seq<char>,
        phase: UnmountPhase,
        outcome: Outcome,
        r: Step<UnmountPhase, Result<(), String>>,
    ) -> bool {
        &&& (r matches Step::Run(p, _) ==> unmount_rank(p) > unmount_rank(phase))
        &&& (match phase {
                UnmountPhase::Unmounting => match outcome {
                    Outcome::Failed(_, t) => fails_with(
                        r,
                        unmount_failure(
                            name,
                            "Failed to unmount "@ + self.mount_point(name) + ": "@ + t.shown@,
                        ),
                    ),
                    _ => r matches Step::Run(
                        UnmountPhase::Deactivating,
                        DriverTask::DeactivateLuks { name: n, image },
                    ) && n@ == id && image@ == self.volume_image(name),
                },
                UnmountPhase::Deactivating => match outcome {
                    Outcome::Failed(stage, t) => fails_with(
                        r,
                        unmount_failure(
                            name,
                            deactivate_text(self.volume_image(name), stage, t.debug@),
                        ),
                    ),
                    _ => r matches Step::Run(
                        UnmountPhase::RemovingMountPoint,
                        DriverTask::RemoveDirAll { path },
                    ) && path@ == self.mount_point(name),
                },
                UnmountPhase::RemovingMountPoint => match outcome {
                    Outcome::Failed(_, t) => fails_with(
                        r,
                        unmount_failure(
                            name,
                            "Unable to remove mount dir "@ + self.mount_point(name) + ": "@ + t.shown@,
                        ),
                    ),
                    _ => r matches Step::Finish(Ok(())),
                },
            })
    }

    /// The step after `phase` of unmounting volume `name` for caller `id`:
    /// the LUKS mapping named by the ID goes, and so does the mount point.
    pub fn unmount_step(&self, name: &str, id: &str, phase: UnmountPhase, outcome: Outcome) -> (r: Step<
        UnmountPhase,
        Result<(), String>,
    >)
        requires
            is_disk_outcome(outcome),
        ensures
            self.unmount_step_post(name@, id@, phase, outcome, r),
    {
        match phase {
            UnmountPhase::Unmounting => match outcome {
                Outcome::Failed(_, t) => {
                    let mount_point = self.mount_point_of(name);
                    let why = concat4("Failed to unmount ", mount_point.as_str(), ": ", t.shown.as_str());
                    Step::Finish(Err(concat4("Unable to unmount ", name, ": ", why.as_str())))
                },
                _ => Step::Run(
                    UnmountPhase::Deactivating,
                    DriverTask::DeactivateLuks { name: id.to_string(), image: self.image_of(name) },
                ),
            },
            UnmountPhase::Deactivating => match outcome {
                Outcome::Failed(stage, t) => {
                    let image = self.image_of(name);
                    let why = deactivate_failure(image.as_str(), stage, t.debug.as_str());
                    Step::Finish(Err(concat4("Unable to unmount ", name, ": ", why.as_str())))
                },
                _ => Step::Run(
                    UnmountPhase::RemovingMountPoint,
                    DriverTask::RemoveDirAll { path: self.mount_point_of(name) },
                ),
            },
            UnmountPhase::RemovingMountPoint => match outcome {
                Outcome::Failed(_, t) => {
                    let mount_point = self.mount_point_of(name);
                    let why = concat4("Unable to remove mount dir ", mount_point.as_str(), ": ", t.shown.as_str());
                    Step::Finish(Err(concat4("Unable to unmount ", name, ": ", why.as_str())))
                },
                _ => Step::Finish(Ok(())),
            },
        }
    }

    /// Removing volume `name`: its directory goes, image and key with it.
    pub fn remove_task(&self, name: &str) -> (r: DriverTask)
        ensures
            r matches DriverTask::RemoveDirAll { path } && path@ == self.volume_dir(name@),
    {
        DriverTask::RemoveDirAll { path: self.dir_of(name) }
    }

    /// The result of removing volume `name`.
    pub fn remove_result(&self, name: &str, outcome: Outcome) -> (r: Result<(), String>)
        requires
            is_disk_outcome(outcome),
        ensures
            match outcome {
                Outcome::Failed(_, t) => r matches Err(e) && e@ == "Unable to remove volume dir "@
                    + self.volume_dir(name@) + ": "@ + t.shown@,
                _ => r is Ok,
            },
    {
        match outcome {
            Outcome::Failed(_, t) => {
                let dir = self.dir_of(name);
                Err(concat4("Unable to remove volume dir ", dir.as_str(), ": ", t.shown.as_str()))
            },
            _ => Ok(()),
        }
    }

    /// The path of volume `name`: its mount point, which must exist.
    pub fn path_task(&self, name: &str) -> (r: DriverTask)
        ensures
            r matches DriverTask::CheckExists { path } && path@ == self.mount_point(name@),
    {
        DriverTask::CheckExists { path: self.mount_point_of(name) }
    }

    /// The result of asking for the path of volume `name`.
    pub fn path_result(&self, name: &str, outcome: Outcome) -> (r: Result<String, String>)
        requires
            is_disk_outcome(outcome),
        ensures
            match outcome {
                Outcome::Failed(_, t) => r matches Err(e) && e@ == "Unable to get path for volume "@
                    + name@ + ": "@ + t.debug@,
                _ => r matches Ok(p) && p@ == self.mount_point(name@),
            },
    {
        match outcome {
            Outcome::Failed(_, t) => Err(concat4("Unable to get path for volume ", name, ": ", t.debug.as_str())),
            _ => Ok(self.mount_point_of(name)),
        }
    }

    /// The first step of looking volume `name` up: its image must exist.
    pub fn get_start(&self, name: &str) -> (r: Step<GetPhase, Result<Volume, String>>)
        ensures
            r matches Step::Run(p, DriverTask::CheckExists { path }) && p is CheckingImage && path@
                == self.volume_image(name@),
    {
        Step::Run(GetPhase::CheckingImage, DriverTask::CheckExists { path: self.image_of(name) })
    }

    /// The step after `phase` of looking volume `name` up: the volume has a
    /// mount point exactly where its mount point exists.
    pub fn get_step(&self, name: &str, phase: GetPhase, outcome: Outcome) -> (r: Step<
        GetPhase,
        Result<Volume, String>,
    >)
        requires
            is_disk_outcome(outcome),
        ensures
            match phase {
                GetPhase::CheckingImage => match outcome {
                    Outcome::Failed(_, t) => fails_with(
                        r,
                        "Unable to get volume info: "@ + ("Unable to find volume image: "@ + t.shown@),
                    ),
                    _ => r matches Step::Run(
                        GetPhase::CheckingMountPoint,
                        DriverTask::CheckExists { path },
                    ) && path@ == self.mount_point(name@),
                },
                GetPhase::CheckingMountPoint => r matches Step::Finish(Ok(v)) && v.name@ == name@
                    && match outcome {
                    Outcome::Failed(_, _) => v.mountpoint is None,
                    _ => v.mountpoint matches Some(m) && m@ == self.mount_point(name@),
                },
            },
    {
        match phase {
            GetPhase::CheckingImage => match outcome {
                Outcome::Failed(_, t) => {
                    let why = concat("Unable to find volume image: ", t.shown.as_str());
                    Step::Finish(Err(concat("Unable to get volume info: ", why.as_str())))
                },
                _ => Step::Run(
                    GetPhase::CheckingMountPoint,
                    DriverTask::CheckExists { path: self.mount_point_of(name) },
                ),
            },
            GetPhase::CheckingMountPoint => {
                let mountpoint = match outcome {
                    Outcome::Failed(_, _) => None,
                    _ => Some(self.mount_point_of(name)),
                };
                Step::Finish(Ok(Volume { mountpoint, name: name.to_string() }))
            },
        }
    }

    /// Listing the volumes: the directories in the data directory.
    pub fn list_task(&self) -> (r: DriverTask)
        ensures
            r matches DriverTask::ListSubdirectories { path } && path@ == self.data_root(),
    {
        DriverTask::ListSubdirectories { path: self.data_dir.clone() }
    }

    /// The volumes named by the directories in the data directory, each with
    /// an empty mount point.
    pub fn list_result(&self, outcome: Outcome) -> (r: Result<Vec<Volume>, String>)
        requires
            outcome is Names,
        ensures
            outcome matches Outcome::Names(names) && r matches Ok(vols) && vols@.len()
                == names@.len() && forall|i: int|
                0 <= i < names@.len() ==> (#[trigger] vols@[i].name@ == names@[i]@
                    && listed_mount_point(vols@[i].mountpoint)),
    {
        let names = match outcome {
            Outcome::Names(names) => names,
            _ => vstd::pervasive::unreached(),
        };
        let mut vols: Vec<Volume> = Vec::new();
        let mut i: usize = 0;
        while i < names.len()
            invariant
                outcome == Outcome::Names(names),
                i <= names@.len(),
                vols@.len() == i,
                forall|j: int|
                    0 <= j < i ==> (#[trigger] vols@[j].name@ == names@[j]@
                        && listed_mount_point(vols@[j].mountpoint)),
            decreases names@.len() - i,
        {
            vols.push(Volume { name: names[i].clone(), mountpoint: Some(String::new()) });
            i = i + 1;
        }
        Ok(vols)
    }
}


/// A volume is unlocked with the key it was made with. Take the steps of
/// creating volume `name` from its image on (`c`: each a phase, the
/// outcome of its task, and the step `create_step` gave) and the steps of
/// mounting it from reading its key file on (`m`, with `mount_step`). Let the
/// HSM unseal what it sealed, and the key file read back what was written to
/// it. Then the key that mounting activates the image with is the key that
/// creating it formatted the image with.
pub proof fn lemma_mount_unlocks_with_created_key(
    d: LuksVolumeDriver,
    name: Seq<char>,
    id: Seq<char>,
    c: Seq<(CreatePhase, Outcome, Step<CreatePhase, Result<(), String>>)>,
    m: Seq<(MountPhase, Outcome, Step<MountPhase, Result<String, String>>)>,
    seal: spec_fn(Seq<u8>) -> Seq<u8>,
    unseal: spec_fn(Seq<u8>) -> Seq<u8>,
)
    requires
        forall|k: Seq<u8>| #[trigger] unseal(seal(k)) == k,
        // creation: the image is made, then six steps as `create_step` gives
        // them, each from the phase the one before named
        c.len() == 6,
        c[0].0 is MakingImage,
        d.create_step_post(name, c[0].0, c[0].1, c[0].2),
        d.create_step_post(name, c[1].0, c[1].1, c[1].2),
        d.create_step_post(name, c[2].0, c[2].1, c[2].2),
        d.create_step_post(name, c[3].0, c[3].1, c[3].2),
        d.create_step_post(name, c[4].0, c[4].1, c[4].2),
        d.create_step_post(name, c[5].0, c[5].1, c[5].2),
        c[0].2 matches Step::Run(p, _) && p == c[1].0,
        c[1].2 matches Step::Run(p, _) && p == c[2].0,
        c[2].2 matches Step::Run(p, _) && p == c[3].0,
        c[3].2 matches Step::Run(p, _) && p == c[4].0,
        c[4].2 matches Step::Run(p, _) && p == c[5].0,
        c[0].1 is Done && c[1].1 is Done && c[2].1 is Done && c[3].1 is Done && c[4].1 is Done,
        // the HSM seals the key it is asked to seal
        c[4].2 matches Step::Run(_, DriverTask::EncryptKey { key }) ==> (c[5].1 matches Outcome::Data(
            b,
        ) && b@ == seal(key@)),
        // mounting: the key file is read, then three steps as `mount_step`
        // gives them
        m.len() == 3,
        m[0].0 is ReadingKey,
        d.mount_step_post(name, id, m[0].0, m[0].1, m[0].2),
        d.mount_step_post(name, id, m[1].0, m[1].1, m[1].2),
        d.mount_step_post(name, id, m[2].0, m[2].1, m[2].2),
        m[0].2 matches Step::Run(p, _) && p == m[1].0,
        m[1].2 matches Step::Run(p, _) && p == m[2].0,
        m[2].1 is Done,
        // the key file reads back what was written to it
        c[5].2 matches Step::Run(_, DriverTask::WriteFile { data, .. }) ==> (m[0].1 matches Outcome::Data(
            b,
        ) && b@ == data@),
        // the HSM unseals the blob it is asked to unseal
        m[0].2 matches Step::Run(_, DriverTask::DecryptKey { blob }) ==> (m[1].1 matches Outcome::Data(
            k,
        ) && k@ == unseal(blob@)),
    ensures
        c[0].2 matches Step::Run(_, DriverTask::FormatLuks { key: formatted, .. }) && m[2].2 matches Step::Run(
            _,
            DriverTask::ActivateLuks { key: activated, .. },
        ) && activated@ == formatted@,
{
}

/// Once the disk image of volume `name` is made, creation goes on to format
/// it as LUKS1 (AES in XTS mode, 256-bit key, SHA-256) with the key it made,
/// under a UUID that `fresh_uuid` gave, whatever the volume is called. It
/// undoes the volume's directory instead only with the error that a call of
/// `fresh_uuid` gave, that is where OpenSSL's random generator failed.
pub proof fn lemma_made_image_is_formatted(
    d: &LuksVolumeDriver,
    name: &str,
    key: Vec<u8>,
    r: Step<CreatePhase, Result<(), String>>,
)
    requires
        call_ensures(
            LuksVolumeDriver::create_step,
            (d, name, CreatePhase::MakingImage { key }, Outcome::Done),
            r,
        ),
    ensures
        r matches Step::Run(CreatePhase::CleaningUp { why }, t) ==> (is_uuid_error(why)
            && is_uuid_failure(why@) && (t matches DriverTask::RemoveDirAll { path } && path@
            == path_join(d.data_root(), name@))),
        !(r matches Step::Run(CreatePhase::CleaningUp { .. }, _)) ==> (r matches Step::Run(
            CreatePhase::FormattingLuks { key: k },
            DriverTask::FormatLuks {
                image,
                key: k2,
                header_uuid,
                rng,
                iteration_ms,
                cipher,
                cipher_mode,
                hash,
                key_bits,
            },
        ) && k == key && k2@ == key@ && image@ == path_join(
            path_join(d.data_root(), name@),
            "volume.img"@,
        ) && is_fresh_uuid(header_uuid) && header_uuid@.len() == 36 && rng == RngSource::Urandom
            && iteration_ms == 5000 && cipher@ == "aes"@ && cipher_mode@ == "xts-plain"@ && hash@
            == "sha256"@ && key_bits == 256),
{
}

/// Once the image of volume `name` is formatted, creation goes on to map it
/// with the key under a fresh 36-character name that `fresh_uuid` gave,
/// whatever the volume is called. It undoes the volume's directory instead
/// only with the error that a call of `fresh_uuid` gave.
pub proof fn lemma_formatted_image_is_mapped(
    d: &LuksVolumeDriver,
    name: &str,
    key: Vec<u8>,
    r: Step<CreatePhase, Result<(), String>>,
)
    requires
        call_ensures(
            LuksVolumeDriver::create_step,
            (d, name, CreatePhase::FormattingLuks { key }, Outcome::Done),
            r,
        ),
    ensures
        (r matches Step::Run(
            CreatePhase::Activating { key: k, mapping },
            DriverTask::ActivateLuks { name: n, image, key: k2 },
        ) && k == key && k2@ == key@ && n == mapping && is_fresh_uuid(mapping) && mapping@.len()
            == 36 && image@ == d.volume_image(name@)) || (r matches Step::Run(
            CreatePhase::CleaningUp { why },
            DriverTask::RemoveDirAll { path },
        ) && path@ == d.volume_dir(name@) && is_uuid_error(why) && is_uuid_failure(why@)),
{
}

/// With the pass-through HSM, a volume is unlocked with the key it was made
/// with, given that the key file reads back what was written to it.
pub proof fn lemma_dummy_mount_unlocks_with_created_key(formatted: Seq<u8>, read: Seq<u8>)
    requires
        read == crate::crypto::dummy_seal(formatted),
    ensures
        crate::crypto::dummy_unseal(read) == formatted,
{
    crate::crypto::lemma_dummy_round_trip(formatted);
}


/// Whether task `u` takes down what task `m` set up: the directory made is
/// removed, the LUKS mapping made is removed from the same image, the
/// directory mounted on is unmounted.
pub open spec fn undoes(u: DriverTask, m: DriverTask) -> bool {
    match (m, u) {
        (DriverTask::CreateDirAll { path: p }, DriverTask::RemoveDirAll { path: q }) => p@ == q@,
        (
            DriverTask::ActivateLuks { name: n, image: i, .. },
            DriverTask::DeactivateLuks { name: n2, image: i2 },
        ) => n@ == n2@ && i@ == i2@,
        (DriverTask::MountDevice { target: t, .. }, DriverTask::Unmount { target: t2, .. }) => t@
            == t2@,
        _ => false,
    }
}

/// Unmounting a volume for a caller undoes, task by task, what mounting it
/// for that caller set up. Take the steps of mounting volume `name` for
/// caller `id` from unsealing its key on (`m`: each a phase, the outcome of
/// its task, and the step `mount_step` gave; they make the mount point, map
/// the image, mount it), the first step of unmounting it (`u0`, from
/// `unmount_start`) and the next two (`u`, from `unmount_step` for the same
/// caller). Then the unmount undoes the mount, the unmapping undoes the
/// mapping (same name, same image), and the removal undoes the making of the
/// mount point.
pub proof fn lemma_unmount_undoes_mount(
    d: LuksVolumeDriver,
    name: Seq<char>,
    id: Seq<char>,
    m: Seq<(MountPhase, Outcome, Step<MountPhase, Result<String, String>>)>,
    u0: Step<UnmountPhase, Result<(), String>>,
    u: Seq<(UnmountPhase, Outcome, Step<UnmountPhase, Result<(), String>>)>,
)
    requires
        m.len() == 3,
        m[0].0 is DecryptingKey,
        m[0].1 is Data,
        m[1].1 is Done,
        m[2].1 is Done,
        d.mount_step_post(name, id, m[0].0, m[0].1, m[0].2),
        d.mount_step_post(name, id, m[1].0, m[1].1, m[1].2),
        d.mount_step_post(name, id, m[2].0, m[2].1, m[2].2),
        m[0].2 matches Step::Run(p, _) && p == m[1].0,
        m[1].2 matches Step::Run(p, _) && p == m[2].0,
        d.unmount_start_post(name, u0),
        u.len() == 2,
        u0 matches Step::Run(p, _) && p == u[0].0,
        u[0].2 matches Step::Run(p, _) && p == u[1].0,
        u[0].1 is Done && u[1].1 is Done,
        d.unmount_step_post(name, id, u[0].0, u[0].1, u[0].2),
        d.unmount_step_post(name, id, u[1].0, u[1].1, u[1].2),
    ensures
        u0 matches Step::Run(_, unmounted) && m[2].2 matches Step::Run(_, mounted) && undoes(
            unmounted,
            mounted,
        ),
        u[0].2 matches Step::Run(_, unmapped) && m[1].2 matches Step::Run(_, mapped) && undoes(
            unmapped,
            mapped,
        ),
        u[1].2 matches Step::Run(_, removed) && m[0].2 matches Step::Run(_, made) && undoes(
            removed,
            made,
        ),
{
}

} // verus!
