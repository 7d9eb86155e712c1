//! Start-up decisions: which directory is the work directory, completing
//! the project descriptor with a uuid, and naming the data directory. The
//! file system and the process environment stay with the caller.
use vstd::prelude::*;
use vstd::string::*;

verus! {

/// The project descriptor: its name, and the uuid that keys its data
/// directory.
#[derive(Debug, Clone)]
pub struct Config {
    pub name: String,
    pub uuid: Option<String>,
}

/// The resolved environment of a running project.
#[derive(Debug, Clone)]
pub struct Environment {
    pub project_name: String,
    pub project_uuid: String,
    pub work_dir: String,
    pub temp_dir: String,
    pub data_dir: String,
    pub config: Config,
}

/// Start-up failures decided here.
#[derive(Debug, Clone, Copy, PartialEq, Eq, Structural)]
pub enum EnvError {
    /// The work directory given on the command line is not an existing
    /// directory.
    NotADirectory,
}

impl EnvError {
    pub fn message(&self) -> (r: &'static str)
        ensures
            r@ == "Custom path is not a directory or not exists"@,
    {
        match self {
            EnvError::NotADirectory => "Custom path is not a directory or not exists",
        }
    }
}

/// Where the work directory comes from.
#[derive(Debug, Clone)]
pub enum WorkDirSource {
    /// The first command-line argument, relative to the current directory.
    Argument(String),
    /// The directory of the running executable.
    ExecutableDir,
}

/// The lowercase hexadecimal digits, by value.
pub open spec fn hex_digits() -> Seq<char> {
    "0123456789abcdef"@
}

/// Byte `j` of the version-4 uuid made of `b`: byte 6 carries the version
/// (4) in its high nibble, byte 8 the RFC 4122 variant in its two high bits.
pub open spec fn v4_byte(b: Seq<u8>, j: int) -> int {
    if j == 6 {
        b[6] % 16 + 0x40
    } else if j == 8 {
        b[8] % 64 + 0x80
    } else {
        b[j] as int
    }
}

/// Where byte `j` starts in the hyphenated text: two digits per byte, with
/// a `-` after bytes 3, 5, 7 and 9.
pub open spec fn text_pos(j: int) -> int {
    2 * j + dashes_before(j)
}

/// How many `-` come before byte `j` in the hyphenated text.
pub open spec fn dashes_before(j: int) -> int {
    if j >= 10 {
        4
    } else if j >= 8 {
        3
    } else if j >= 6 {
        2
    } else if j >= 4 {
        1
    } else {
        0
    }
}

/// `s` is the hyphenated lowercase text of the version-4 uuid made of the
/// 16 bytes `b`.
pub open spec fn is_uuid_text_of(s: Seq<char>, b: Seq<u8>) -> bool {
    &&& s.len() == 36
    &&& s[8] == '-' && s[13] == '-' && s[18] == '-' && s[23] == '-'
    &&& forall|j: int| 0 <= j < 16 ==> #[trigger] byte_text_at(s, b, j)
}

/// The two hex digits of byte `j` stand where that byte starts in `s`.
pub open spec fn byte_text_at(s: Seq<char>, b: Seq<u8>, j: int) -> bool {
    let p = text_pos(j);
    &&& s[p] == hex_digits()[v4_byte(b, j) / 16]
    &&& s[p + 1] == hex_digits()[v4_byte(b, j) % 16]
}

/// Relies on uuid::Builder::from_random_bytes, which sets the version and
/// variant bits of the 16 bytes, and on `Display` for uuid::Uuid, which writes
/// the bytes as hyphenated lowercase hex.
#[verifier::external_body]
fn uuid_text(random: [u8; 16]) -> (r: String)
    ensures
        is_uuid_text_of(r@, random@),
{
    uuid::Builder::from_random_bytes(random).into_uuid().to_string()
}

/// The text of a version-4 uuid names the version at position 14 and one
/// of the RFC 4122 variants (`8`, `9`, `a`, `b`) at position 19.
pub proof fn lemma_uuid_text_is_v4(s: Seq<char>, b: Seq<u8>)
    requires
        b.len() == 16,
        is_uuid_text_of(s, b),
    ensures
        s[14] == '4',
        s[19] == '8' || s[19] == '9' || s[19] == 'a' || s[19] == 'b',
{
    reveal_strlit("0123456789abcdef");
    assert(byte_text_at(s, b, 6) && byte_text_at(s, b, 8));
    assert(text_pos(6) == 14 && text_pos(8) == 19);
    let hi = v4_byte(b, 8) / 16;
    assert(8 <= hi <= 11);
}

/// The name a new project descriptor gets.
pub open spec fn default_project_name() -> Seq<char> {
    "tauri-lite-project"@
}

/// The descriptor written when none exists: the default name, and the uuid
/// made of the 16 random bytes.
pub fn fresh_config(random: [u8; 16]) -> (r: Config)
    ensures
        r.name@ == default_project_name(),
        r.uuid matches Some(u) && is_uuid_text_of(u@, random@),
{
    Config { name: String::from_str("tauri-lite-project"), uuid: Some(uuid_text(random)) }
}

/// `done` is `config` with a uuid, and `write` says whether it must be
/// written back: a uuid already there is kept, and nothing is written;
/// a missing one becomes the uuid made of `random`, and the descriptor is
/// written.
pub open spec fn completes(config: Config, random: Seq<u8>, done: Config, write: bool) -> bool {
    &&& done.name == config.name
    &&& done.uuid is Some
    &&& match config.uuid {
        Some(u) => done.uuid == Some(u) && !write,
        None => is_uuid_text_of(done.uuid->0@, random) && write,
    }
}

/// Gives the descriptor a uuid, made of the 16 random bytes, if it has
/// none; the flag says whether the result must be persisted.
pub fn complete_config(config: Config, random: [u8; 16]) -> (r: (Config, bool))
    ensures
        completes(config, random@, r.0, r.1),
{
    match config.uuid {
        Some(_) => (config, false),
        None => (Config { name: config.name, uuid: Some(uuid_text(random)) }, true),
    }
}

/// Completing a descriptor a second time (the next start against the same
/// directory) keeps the very uuid of the first, whatever bytes are drawn,
/// writes nothing, and leaves the name as it was.
pub proof fn lemma_uuid_is_stable(
    config: Config,
    r1: Seq<u8>,
    first: Config,
    w1: bool,
    r2: Seq<u8>,
    second: Config,
    w2: bool,
)
    requires
        completes(config, r1, first, w1),
        completes(first, r2, second, w2),
    ensures
        second == first,
        !w2,
        second.name == config.name,
        config.uuid is Some ==> second.uuid == config.uuid,
{
}

/// The first command-line argument after the program name names the work
/// directory; without one it is the executable's directory.
pub fn work_dir_source(args: &Vec<String>) -> (r: WorkDirSource)
    ensures
        args@.len() > 1 ==> (r matches WorkDirSource::Argument(a) && a@ == args@[1]@),
        args@.len() <= 1 ==> r is ExecutableDir,
{
    if args.len() > 1 {
        WorkDirSource::Argument(args[1].clone())
    } else {
        WorkDirSource::ExecutableDir
    }
}

/// A work directory taken from the command line is accepted only if it is
/// an existing directory.
pub fn accept_work_dir(candidate: String, is_dir: bool) -> (r: Result<String, EnvError>)
    ensures
        is_dir ==> (r matches Ok(d) && d@ == candidate@),
        !is_dir ==> r matches Err(EnvError::NotADirectory),
{
    if is_dir {
        Ok(candidate)
    } else {
        Err(EnvError::NotADirectory)
    }
}

/// The name of the project's data directory: `<name>.<uuid>`.
pub fn data_dir_name(name: &str, uuid: &str) -> (r: String)
    ensures
        r@ == name@ + "."@ + uuid@,
{
    let mut r = String::from_str(name);
    r.append(".");
    r.append(uuid);
    r
}

impl Environment {
    /// The environment of a project whose descriptor has its uuid.
    pub fn new(config: Config, work_dir: String, temp_dir: String, data_dir: String) -> (r:
        Environment)
        requires
            config.uuid is Some,
        ensures
            r.project_name@ == config.name@,
            r.project_uuid@ == config.uuid->0@,
            r.work_dir@ == work_dir@,
            r.temp_dir@ == temp_dir@,
            r.data_dir@ == data_dir@,
            r.config == config,
    {
        let project_name = config.name.clone();
        let project_uuid = match &config.uuid {
            Some(u) => u.clone(),
            None => String::new(),
        };
        Environment { project_name, project_uuid, work_dir, temp_dir, data_dir, config }
    }
}

} // verus!
