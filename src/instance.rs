use vstd::prelude::*;

use crate::error::{Error, ErrorKind};

verus! {

/// The longest instance name accepted, in characters.
pub const MAX_NAME_LEN: usize = 100;

/// The game type tag of the instances this core provisions.
pub const GAME_TYPE: &'static str = "minecraft";

/// The server variant an instance runs.
#[derive(Clone, Copy, Debug, PartialEq, Eq, Structural)]
pub enum Flavour {
    Vanilla,
    Fabric,
    Paper,
    Spigot,
}

/// The lower-case name of a flavour.
pub open spec fn flavour_name(f: Flavour) -> Seq<char> {
    match f {
        Flavour::Vanilla => "vanilla"@,
        Flavour::Fabric => "fabric"@,
        Flavour::Paper => "paper"@,
        Flavour::Spigot => "spigot"@,
    }
}

impl Flavour {
    pub fn name(&self) -> (r: &'static str)
        ensures
            r@ == flavour_name(*self),
    {
        match self {
            Flavour::Vanilla => "vanilla",
            Flavour::Fabric => "fabric",
            Flavour::Paper => "paper",
            Flavour::Spigot => "spigot",
        }
    }
}

/// The lifecycle state of a provisioned instance's server process.
#[derive(Clone, Copy, Debug, PartialEq, Eq, Structural)]
pub enum InstanceState {
    Starting,
    Running,
    Stopping,
    Stopped,
    Error,
}

/// The descriptive data of a registered instance.
#[derive(Debug)]
pub struct InstanceInfo {
    pub uuid: String,
    pub name: String,
    pub path: String,
    pub port: u32,
    pub flavour: Flavour,
    pub version: String,
    pub game_type: String,
    /// Milliseconds since the epoch at which provisioning finished.
    pub creation_time: u64,
    pub state: InstanceState,
    pub player_count: u32,
    pub max_player_count: u32,
}

/// A copy of a sequence of strings, element by element.
pub fn copy_strings(v: &Vec<String>) -> (r: Vec<String>)
    ensures
        r@ == v@,
{
    let mut r: Vec<String> = Vec::new();
    let mut i: usize = 0;
    while i < v.len()
        invariant
            0 <= i <= v@.len(),
            r@ == v@.subrange(0, i as int),
        decreases v@.len() - i,
    {
        r.push(v[i].clone());
        i = i + 1;
        assert(r@ =~= v@.subrange(0, i as int));
    }
    assert(v@.subrange(0, v@.len() as int) =~= v@);
    r
}

impl InstanceInfo {
    /// A field-by-field copy.
    pub fn copy(&self) -> (r: InstanceInfo)
        ensures
            r == *self,
    {
        InstanceInfo {
            uuid: self.uuid.clone(),
            name: self.name.clone(),
            path: self.path.clone(),
            port: self.port,
            flavour: self.flavour,
            version: self.version.clone(),
            game_type: self.game_type.clone(),
            creation_time: self.creation_time,
            state: self.state,
            player_count: self.player_count,
            max_player_count: self.max_player_count,
        }
    }
}

/// What a client supplies to create a server instance.
#[derive(Debug)]
pub struct MinecraftSetupConfigPrimitive {
    pub name: String,
    pub version: String,
    pub flavour: Flavour,
    pub port: u32,
    pub cmd_args: Option<Vec<String>>,
    pub description: Option<String>,
    pub fabric_loader_version: Option<String>,
    pub fabric_installer_version: Option<String>,
    pub min_ram: Option<u32>,
    pub max_ram: Option<u32>,
    pub auto_start: Option<bool>,
    pub restart_on_crash: Option<bool>,
    pub timeout_last_left: Option<u32>,
    pub timeout_no_activity: Option<u32>,
    pub start_on_connection: Option<bool>,
    pub backup_period: Option<u32>,
}

/// The immutable descriptor that provisioning works from.
#[derive(Debug)]
pub struct SetupConfig {
    pub name: String,
    pub version: String,
    pub flavour: Flavour,
    pub port: u32,
    pub cmd_args: Option<Vec<String>>,
    pub description: Option<String>,
    pub fabric_loader_version: Option<String>,
    pub fabric_installer_version: Option<String>,
    pub min_ram: Option<u32>,
    pub max_ram: Option<u32>,
    pub auto_start: Option<bool>,
    pub restart_on_crash: Option<bool>,
    pub timeout_last_left: Option<u32>,
    pub timeout_no_activity: Option<u32>,
    pub start_on_connection: Option<bool>,
    pub backup_period: Option<u32>,
    pub game_type: String,
    pub uuid: String,
    /// The install directory.
    pub path: String,
}

/// The part of a uuid that goes into an install directory name: its first
/// eight characters, or all of it when it is shorter.
pub open spec fn uuid_prefix(uuid: Seq<char>) -> Seq<char> {
    if uuid.len() >= 8 {
        uuid.subrange(0, 8)
    } else {
        uuid
    }
}

/// The install directory of an instance named `name` with `uuid`, under the
/// instances directory `root`.
pub open spec fn install_path(root: Seq<char>, name: Seq<char>, uuid: Seq<char>) -> Seq<char> {
    root + "/"@ + name + "-"@ + uuid_prefix(uuid)
}

/// Builds the install directory of an instance named `name` with `uuid`
/// under `root`.
pub fn make_install_path(root: &String, name: &String, uuid: &String) -> (r: String)
    ensures
        r@ == install_path(root@, name@, uuid@),
{
    let u = uuid.as_str();
    let prefix = if u.unicode_len() >= 8 {
        u.substring_char(0, 8)
    } else {
        u
    };
    let mut p = root.clone();
    p.append("/");
    p.append(name.as_str());
    p.append("-");
    p.append(prefix);
    p
}

/// Whether `name` is acceptable as an instance name.
pub open spec fn name_is_valid(name: Seq<char>) -> bool {
    0 < name.len() <= MAX_NAME_LEN
}

/// Checks an (already sanitized) instance name: it must be non-empty and at
/// most `MAX_NAME_LEN` characters long.
pub fn validate_name(name: &String) -> (r: Result<(), Error>)
    ensures
        r is Ok <==> name_is_valid(name@),
        r is Err ==> r->Err_0.kind == ErrorKind::MalformedRequest,
{
    let n = name.as_str().unicode_len();
    if n == 0 {
        return Err(Error::new(ErrorKind::MalformedRequest, "Name must not be empty"));
    }
    if n > MAX_NAME_LEN {
        return Err(
            Error::new(ErrorKind::MalformedRequest, "Name must not be longer than 100 characters"),
        );
    }
    Ok(())
}

/// What the filename sanitizer makes of a name.
pub uninterp spec fn sanitized_of(name: Seq<char>) -> Seq<char>;

/// `name` is made of ASCII letters and digits only, and fits the
/// sanitizer's 255-byte limit.
pub open spec fn plain_name(name: Seq<char>) -> bool {
    &&& name.len() <= 255
    &&& forall|i: int|
        0 <= i < name.len() ==> ('a' <= #[trigger] name[i] <= 'z') || ('A' <= name[i] <= 'Z') || (
        '0' <= name[i] <= '9')
}

/// Relies on sanitize_filename::sanitize_with_options, with the Unix rules
/// (no Windows reserved names), truncation on, and removal of what is
/// unsafe: the result depends on the name alone, and a name of ASCII letters
/// and digits within the length limit matches none of its patterns and
/// comes back unchanged.
#[verifier::external_body]
fn sanitize(name: &String) -> (r: String)
    ensures
        r@ == sanitized_of(name@),
        plain_name(name@) ==> r@ == name@,
{
    let options = sanitize_filename::Options { windows: false, truncate: true, replacement: "" };
    sanitize_filename::sanitize_with_options(name, options)
}

/// Strips from `name` what is unsafe in a file name.
pub fn sanitize_name(name: &String) -> (r: String)
    ensures
        r@ == sanitized_of(name@),
        plain_name(name@) ==> r@ == name@,
{
    sanitize(name)
}

impl SetupConfig {
    /// The descriptor that `config` yields for an instance with `uuid`,
    /// installed under `root`.
    pub fn from_primitive(config: MinecraftSetupConfigPrimitive, uuid: String, root: &String) -> (r:
        SetupConfig)
        ensures
            r.name == config.name,
            r.version == config.version,
            r.flavour == config.flavour,
            r.port == config.port,
            r.cmd_args == config.cmd_args,
            r.description == config.description,
            r.fabric_loader_version == config.fabric_loader_version,
            r.fabric_installer_version == config.fabric_installer_version,
            r.min_ram == config.min_ram,
            r.max_ram == config.max_ram,
            r.auto_start == config.auto_start,
            r.restart_on_crash == config.restart_on_crash,
            r.timeout_last_left == config.timeout_last_left,
            r.timeout_no_activity == config.timeout_no_activity,
            r.start_on_connection == config.start_on_connection,
            r.backup_period == config.backup_period,
            r.game_type@ == GAME_TYPE@,
            r.uuid == uuid,
            r.path@ == install_path(root@, config.name@, uuid@),
    {
        let path = make_install_path(root, &config.name, &uuid);
        SetupConfig {
            name: config.name,
            version: config.version,
            flavour: config.flavour,
            port: config.port,
            cmd_args: config.cmd_args,
            description: config.description,
            fabric_loader_version: config.fabric_loader_version,
            fabric_installer_version: config.fabric_installer_version,
            min_ram: config.min_ram,
            max_ram: config.max_ram,
            auto_start: config.auto_start,
            restart_on_crash: config.restart_on_crash,
            timeout_last_left: config.timeout_last_left,
            timeout_no_activity: config.timeout_no_activity,
            start_on_connection: config.start_on_connection,
            backup_period: config.backup_period,
            game_type: String::from_str(GAME_TYPE),
            uuid,
            path,
        }
    }
}

} // verus!
