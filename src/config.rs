use vstd::prelude::*;
use std::path::PathBuf;

verus! {

/// `std::path::PathBuf`, carried opaque through the configuration.
#[verifier::external_type_specification]
#[verifier::external_body]
pub struct ExPathBuf(std::path::PathBuf);

/// Relies on `std::path::PathBuf::from`: the path with the given text.
/// A path is opaque here, so nothing is said of it.
#[verifier::external_body]
fn path_from(s: &str) -> PathBuf {
    PathBuf::from(s)
}

/// Relies on `std::path::Path::join`: `base` extended by `segment`.
#[verifier::external_body]
fn path_join(base: &PathBuf, segment: &str) -> PathBuf {
    base.join(segment)
}

/// Relies on `dirs::data_dir`: the user's data directory, which depends on
/// the platform and the environment; it may be absent.
#[verifier::external_body]
fn platform_data_dir() -> Option<PathBuf> {
    dirs::data_dir()
}

/// Whether every character is an ASCII decimal digit.
pub open spec fn all_digits(d: Seq<char>) -> bool {
    forall|i: int| 0 <= i < d.len() ==> '0' <= #[trigger] d[i] <= '9'
}

/// The number that a string of decimal digits spells.
pub open spec fn digits_value(d: Seq<char>) -> nat
    decreases d.len(),
{
    if d.len() == 0 {
        0
    } else {
        digits_value(d.drop_last()) * 10 + ((d.last() as u32) - ('0' as u32)) as nat
    }
}

/// A port number as text: an optional `+`, then one or more decimal digits
/// spelling a number no larger than `u16::MAX`.
pub open spec fn parsed_port(s: Seq<char>) -> Option<u16> {
    let d = if s.len() > 0 && s[0] == '+' {
        s.drop_first()
    } else {
        s
    };
    if d.len() > 0 && all_digits(d) && digits_value(d) <= u16::MAX {
        Some(digits_value(d) as u16)
    } else {
        None
    }
}

/// Relies on `str::parse::<u16>` (`u16::from_str`): it accepts exactly an
/// optional `+` followed by one or more decimal digits whose value fits.
#[verifier::external_body]
fn parse_port(s: &str) -> (r: Option<u16>)
    ensures
        r == parsed_port(s@),
{
    s.parse::<u16>().ok()
}

/// Errors of configuration handling.
#[derive(Debug, Clone, Copy, PartialEq, Eq, Structural)]
pub enum ConfigError {
    /// The port override is not a number in `0..=65535`.
    InvalidPort,
    /// The database library directory holds no `.jar` file.
    NoJarFiles,
}

/// A file of the database library directory: its path as text, and its
/// extension, if it has one.
#[derive(Debug, Clone)]
pub struct LibraryFile {
    pub path: String,
    pub extension: Option<String>,
}

pub open spec fn is_jar(f: LibraryFile) -> bool {
    f.extension matches Some(e) && e@ == "jar"@
}

/// The paths of the `.jar` files among `files`, in order.
pub open spec fn jar_paths(files: Seq<LibraryFile>) -> Seq<Seq<char>>
    decreases files.len(),
{
    if files.len() == 0 {
        Seq::empty()
    } else if is_jar(files.last()) {
        jar_paths(files.drop_last()).push(files.last().path@)
    } else {
        jar_paths(files.drop_last())
    }
}

/// `parts` joined with `;` between neighbours.
pub open spec fn joined(parts: Seq<Seq<char>>) -> Seq<char>
    decreases parts.len(),
{
    if parts.len() == 0 {
        Seq::empty()
    } else if parts.len() == 1 {
        parts[0]
    } else {
        joined(parts.drop_last()) + ";"@ + parts.last()
    }
}

/// The class path made of the library directory's `.jar` files, joined
/// with `;` in the order given; none when there is no `.jar` file.
pub fn datomic_classpath(files: &Vec<LibraryFile>) -> (r: Result<String, ConfigError>)
    ensures
        jar_paths(files@).len() == 0 ==> r == Err::<String, ConfigError>(ConfigError::NoJarFiles),
        jar_paths(files@).len() > 0 ==> (r matches Ok(cp) && cp@ == joined(jar_paths(files@))),
{
    let jar = "jar".to_owned();
    let mut out = String::new();
    let mut count: usize = 0;
    let mut i: usize = 0;
    while i < files.len()
        invariant
            i <= files@.len(),
            jar@ == "jar"@,
            count == jar_paths(files@.subrange(0, i as int)).len(),
            out@ == joined(jar_paths(files@.subrange(0, i as int))),
        decreases files@.len() - i,
    {
        let ghost pre = files@.subrange(0, i as int);
        let ghost next = files@.subrange(0, i as int + 1);
        assert(next.drop_last() =~= pre);
        assert(next.last() == files@[i as int]);
        let f = &files[i];
        let matches_jar = match &f.extension {
            Some(e) => *e == jar,
            None => false,
        };
        if matches_jar {
            assert(jar_paths(pre).len() <= pre.len()) by {
                lemma_jar_paths_len(pre);
            }
            let ghost parts = jar_paths(pre).push(f.path@);
            assert(jar_paths(next) == parts);
            assert(parts.drop_last() =~= jar_paths(pre));
            if count > 0 {
                out.append(";");
            } else {
                assert(out@ =~= Seq::<char>::empty());
            }
            out.append(f.path.as_str());
            assert(out@ =~= joined(parts));
            count = count + 1;
        }
        i = i + 1;
    }
    assert(files@.subrange(0, files@.len() as int) =~= files@);
    if count == 0 {
        Err(ConfigError::NoJarFiles)
    } else {
        Ok(out)
    }
}

proof fn lemma_jar_paths_len(files: Seq<LibraryFile>)
    ensures
        jar_paths(files).len() <= files.len(),
    decreases files.len(),
{
    if files.len() > 0 {
        lemma_jar_paths_len(files.drop_last());
    }
}

/// Values that take precedence over the configuration file, each one that
/// is present replacing its setting.
#[derive(Debug)]
pub struct ConfigOverrides {
    pub db_uri: Option<String>,
    pub db_host: Option<String>,
    pub db_port: Option<String>,
    pub lib_path: Option<String>,
    pub log_level: Option<String>,
}

/// `value` if present, else `current`.
pub open spec fn overridden(current: Seq<char>, value: Option<String>) -> Seq<char> {
    match value {
        Some(v) => v@,
        None => current,
    }
}

/// How to reach the note database.
#[derive(Debug)]
pub struct DatomicConfig {
    pub db_uri: String,
    pub transactor_host: String,
    pub transactor_port: u16,
    pub database_name: String,
    pub datomic_lib_path: Option<PathBuf>,
    pub jvm_opts: Vec<String>,
    pub connection_timeout_ms: u64,
    pub retry_attempts: u32,
}

/// Where and how recordings are made.
#[derive(Debug)]
pub struct AudioConfig {
    pub recordings_dir: PathBuf,
    pub max_recording_duration_minutes: u32,
    pub sample_rate: u32,
    pub channels: u16,
}

/// The application's configuration.
#[derive(Debug)]
pub struct AppConfig {
    pub datomic: DatomicConfig,
    pub audio: AudioConfig,
    pub log_level: String,
    pub data_dir: PathBuf,
}

/// The database settings every fresh configuration starts from.
pub open spec fn is_default_datomic(c: DatomicConfig) -> bool {
    &&& c.db_uri@ == "datomic:dev://localhost:8998/gita"@
    &&& c.transactor_host@ == "localhost"@
    &&& c.transactor_port == 8998
    &&& c.database_name@ == "gita"@
    &&& c.datomic_lib_path is None
    &&& c.jvm_opts@.len() == 3
    &&& c.jvm_opts@[0]@ == "-Xmx4g"@
    &&& c.jvm_opts@[1]@ == "-Xms1g"@
    &&& c.jvm_opts@[2]@ == "-XX:+UseG1GC"@
    &&& c.connection_timeout_ms == 30000
    &&& c.retry_attempts == 3
}

/// The recording settings every fresh configuration starts from (the
/// directory aside).
pub open spec fn has_default_audio_settings(c: AudioConfig) -> bool {
    &&& c.max_recording_duration_minutes == 120
    &&& c.sample_rate == 44100
    &&& c.channels == 2
}

impl Default for DatomicConfig {
    fn default() -> (r: DatomicConfig)
        ensures
            is_default_datomic(r),
    {
        let mut jvm_opts: Vec<String> = Vec::new();
        jvm_opts.push("-Xmx4g".to_owned());
        jvm_opts.push("-Xms1g".to_owned());
        jvm_opts.push("-XX:+UseG1GC".to_owned());
        DatomicConfig {
            db_uri: "datomic:dev://localhost:8998/gita".to_owned(),
            transactor_host: "localhost".to_owned(),
            transactor_port: 8998,
            database_name: "gita".to_owned(),
            datomic_lib_path: None,
            jvm_opts,
            connection_timeout_ms: 30000,
            retry_attempts: 3,
        }
    }
}

impl Default for AudioConfig {
    /// Recordings go to `recordings` under the working directory.
    fn default() -> (r: AudioConfig)
        ensures
            has_default_audio_settings(r),
    {
        AudioConfig {
            recordings_dir: path_from("recordings"),
            max_recording_duration_minutes: 120,
            sample_rate: 44100,
            channels: 2,
        }
    }
}

impl Default for AppConfig {
    /// Data under `gita` in the user's data directory (the working directory
    /// when there is none), recordings under `recordings` there.
    fn default() -> (r: AppConfig)
        ensures
            is_default_datomic(r.datomic),
            has_default_audio_settings(r.audio),
            r.log_level@ == "info"@,
    {
        let base = match platform_data_dir() {
            Some(d) => d,
            None => path_from("."),
        };
        let data_dir = path_join(&base, "gita");
        let recordings_dir = path_join(&data_dir, "recordings");
        let defaults = AudioConfig::default();
        AppConfig {
            datomic: DatomicConfig::default(),
            audio: AudioConfig { recordings_dir, ..defaults },
            log_level: "info".to_owned(),
            data_dir,
        }
    }
}

impl AppConfig {
    /// Applies the overrides. A port override that is not a valid port
    /// number fails with `InvalidPort`; otherwise every present value
    /// replaces its setting and the rest is kept.
    pub fn apply_overrides(&mut self, o: ConfigOverrides) -> (r: Result<(), ConfigError>)
        ensures
            (o.db_port matches Some(p) && parsed_port(p@) is None) ==> r == Err::<(), ConfigError>(
                ConfigError::InvalidPort,
            ),
            !(o.db_port matches Some(p) && parsed_port(p@) is None) ==> {
                &&& r is Ok
                &&& final(self).datomic.db_uri@ == overridden(old(self).datomic.db_uri@, o.db_uri)
                &&& final(self).datomic.transactor_host@ == overridden(
                    old(self).datomic.transactor_host@,
                    o.db_host,
                )
                &&& final(self).datomic.transactor_port == match o.db_port {
                    Some(p) => parsed_port(p@)->Some_0,
                    None => old(self).datomic.transactor_port,
                }
                &&& o.lib_path is Some ==> final(self).datomic.datomic_lib_path is Some
                &&& o.lib_path is None ==> final(self).datomic.datomic_lib_path == old(
                    self,
                ).datomic.datomic_lib_path
                &&& final(self).log_level@ == overridden(old(self).log_level@, o.log_level)
                &&& final(self).datomic.database_name == old(self).datomic.database_name
                &&& final(self).datomic.jvm_opts == old(self).datomic.jvm_opts
                &&& final(self).datomic.connection_timeout_ms == old(
                    self,
                ).datomic.connection_timeout_ms
                &&& final(self).datomic.retry_attempts == old(self).datomic.retry_attempts
                &&& final(self).audio == old(self).audio
                &&& final(self).data_dir == old(self).data_dir
            },
    {
        let port = match &o.db_port {
            Some(p) => match parse_port(p.as_str()) {
                Some(n) => Some(n),
                None => {
                    return Err(ConfigError::InvalidPort);
                },
            },
            None => None,
        };
        if let Some(uri) = o.db_uri {
            self.datomic.db_uri = uri;
        }
        if let Some(host) = o.db_host {
            self.datomic.transactor_host = host;
        }
        if let Some(n) = port {
            self.datomic.transactor_port = n;
        }
        if let Some(lib) = o.lib_path {
            self.datomic.datomic_lib_path = Some(path_from(lib.as_str()));
        }
        if let Some(level) = o.log_level {
            self.log_level = level;
        }
        Ok(())
    }
}

} // verus!
