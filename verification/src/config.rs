//! The resolved configuration: the two documents as they were loaded, and one
//! accessor per setting, each with its own order of precedence.

use vstd::prelude::*;
use clap::ArgMatches;
use crate::cli::{arg_values, cli_or, lookup};
use crate::document::{as_text, first_of, single_key, str_text, text, BobbinConfig, CargoConfig};

verus! {

/// One of the two configuration files.
#[derive(Debug, Clone, Copy, PartialEq, Eq)]
pub enum ConfigFile {
    /// The tool's own file, `./.bobbin/config`.
    Bobbin,
    /// The build system's file, `./.cargo/config`.
    Cargo,
}

impl ConfigFile {
    /// The file's fixed place, relative to the working directory.
    pub open spec fn spec_path(self) -> Seq<char> {
        match self {
            ConfigFile::Bobbin => "./.bobbin/config"@,
            ConfigFile::Cargo => "./.cargo/config"@,
        }
    }

    /// The path that the file is read from.
    pub fn path(&self) -> (r: &'static str)
        ensures
            r@ == self.spec_path(),
    {
        match self {
            ConfigFile::Bobbin => "./.bobbin/config",
            ConfigFile::Cargo => "./.cargo/config",
        }
    }
}

/// Why loading failed, and on which file.
#[derive(Debug, Clone, Copy, PartialEq, Eq)]
pub enum ConfigError {
    /// The file exists but could not be read.
    Io(ConfigFile),
    /// The file was read but is not a document of the expected shape.
    Parse(ConfigFile),
}

impl ConfigError {
    /// The file that the error is about.
    pub fn file(&self) -> (r: ConfigFile)
        ensures
            r == match *self {
                ConfigError::Io(f) => f,
                ConfigError::Parse(f) => f,
            },
    {
        match self {
            ConfigError::Io(f) => *f,
            ConfigError::Parse(f) => *f,
        }
    }
}

/// What came of reading one configuration file.
#[derive(Debug, Clone)]
pub enum Source<T> {
    /// There is no such file.
    Missing,
    /// The file exists but could not be read.
    Unreadable,
    /// The file was read but could not be parsed.
    Malformed,
    /// The file was read and parsed.
    Loaded(T),
}

/// The tool's and the build system's configuration, each present or absent.
#[derive(Debug, Clone)]
pub struct Config {
    pub bobbin: Option<BobbinConfig>,
    pub cargo: Option<CargoConfig>,
}

/// The error that one file's outcome stands for, if it stands for one.
pub open spec fn failure<T>(file: ConfigFile, source: Source<T>) -> Option<ConfigError> {
    match source {
        Source::Unreadable => Some(ConfigError::Io(file)),
        Source::Malformed => Some(ConfigError::Parse(file)),
        _ => None,
    }
}

/// The document that one file's outcome yields, if it yields one.
pub open spec fn document<T>(source: Source<T>) -> Option<T> {
    match source {
        Source::Loaded(d) => Some(d),
        _ => None,
    }
}

/// What loading returns for the outcomes of the two files.
pub open spec fn loaded(bobbin: Source<BobbinConfig>, cargo: Source<CargoConfig>) -> Result<
    Config,
    ConfigError,
> {
    match failure(ConfigFile::Bobbin, bobbin) {
        Some(e) => Err(e),
        None => match failure(ConfigFile::Cargo, cargo) {
            Some(e) => Err(e),
            None => Ok(Config { bobbin: document(bobbin), cargo: document(cargo) }),
        },
    }
}

/// Settles one file: its document, nothing where the file is missing, or the
/// error for a file that could not be read or parsed.
fn settle<T>(file: ConfigFile, source: Source<T>) -> (r: Result<Option<T>, ConfigError>)
    ensures
        r == match failure(file, source) {
            Some(e) => Err::<Option<T>, ConfigError>(e),
            None => Ok(document(source)),
        },
{
    match source {
        Source::Missing => Ok(None),
        Source::Unreadable => Err(ConfigError::Io(file)),
        Source::Malformed => Err(ConfigError::Parse(file)),
        Source::Loaded(d) => Ok(Some(d)),
    }
}

/// Builds the configuration from what came of reading the two files.
///
/// A missing file is no failure: its document is absent. A file that could
/// not be read or parsed fails the whole load with an error that names the
/// file and the kind of failure; the tool's file is judged first. Nothing is
/// returned in part.
pub fn config(bobbin: Source<BobbinConfig>, cargo: Source<CargoConfig>) -> (r: Result<
    Config,
    ConfigError,
>)
    ensures
        r == loaded(bobbin, cargo),
{
    let bobbin = match settle(ConfigFile::Bobbin, bobbin) {
        Ok(d) => d,
        Err(e) => {
            return Err(e);
        },
    };
    let cargo = match settle(ConfigFile::Cargo, cargo) {
        Ok(d) => d,
        Err(e) => {
            return Err(e);
        },
    };
    Ok(Config { bobbin, cargo })
}

impl Config {
    /// The build target: the tool's `builder.target`, else what the build
    /// configuration names.
    pub open spec fn spec_target(self) -> Option<Seq<char>> {
        first_of(
            match self.bobbin {
                Some(b) => b.builder_target(),
                None => None,
            },
            match self.cargo {
                Some(c) => c.target_choice(),
                None => None,
            },
        )
    }

    /// The tool's `filter.host`.
    pub open spec fn spec_filter_host(self) -> Option<Seq<char>> {
        match self.bobbin {
            Some(b) => b.filter_host(),
            None => None,
        }
    }

    /// The tool's `filter.device`.
    pub open spec fn spec_filter_device(self) -> Option<Seq<char>> {
        match self.bobbin {
            Some(b) => b.filter_device(),
            None => None,
        }
    }

    /// The tool's `console.path`.
    pub open spec fn spec_cfg_console(self) -> Option<Seq<char>> {
        match self.bobbin {
            Some(b) => b.console_path(),
            None => None,
        }
    }

    /// The tool's `itm.targetClock`.
    pub open spec fn spec_itm_target_clock(self) -> Option<u32> {
        match self.bobbin {
            Some(b) => b.itm_target_clock(),
            None => None,
        }
    }

    /// The tool's `loader.jlinkDevice`.
    pub open spec fn spec_cfg_jlink_device(self) -> Option<Seq<char>> {
        match self.bobbin {
            Some(b) => b.loader_jlink_device(),
            None => None,
        }
    }

    /// The tool's `loader.teensyMcu`.
    pub open spec fn spec_cfg_teensy_mcu(self) -> Option<Seq<char>> {
        match self.bobbin {
            Some(b) => b.loader_teensy_mcu(),
            None => None,
        }
    }

    /// The tool's `loader.blackmagicMode`.
    pub open spec fn spec_cfg_blackmagic_mode(self) -> Option<Seq<char>> {
        match self.bobbin {
            Some(b) => b.loader_blackmagic_mode(),
            None => None,
        }
    }

    /// The device: the `device` override, else `filter.device`.
    pub open spec fn spec_device(self, cli: Map<Seq<char>, Seq<char>>) -> Option<Seq<char>> {
        first_of(lookup(cli, "device"@), self.spec_filter_device())
    }

    /// The console: the `console` override, else `console.path`.
    pub open spec fn spec_console(self, cli: Map<Seq<char>, Seq<char>>) -> Option<Seq<char>> {
        first_of(lookup(cli, "console"@), self.spec_cfg_console())
    }

    /// The J-Link device: the `jlink-device` override, else
    /// `loader.jlinkDevice`.
    pub open spec fn spec_jlink_device(self, cli: Map<Seq<char>, Seq<char>>) -> Option<Seq<char>> {
        first_of(lookup(cli, "jlink-device"@), self.spec_cfg_jlink_device())
    }

    /// The Teensy MCU: the `teensy-mcu` override, else `loader.teensyMcu`.
    pub open spec fn spec_teensy_mcu(self, cli: Map<Seq<char>, Seq<char>>) -> Option<Seq<char>> {
        first_of(lookup(cli, "teensy-mcu"@), self.spec_cfg_teensy_mcu())
    }

    /// The Black Magic mode: the `blackmagic-mode` override, else
    /// `loader.blackmagicMode`.
    pub open spec fn spec_blackmagic_mode(self, cli: Map<Seq<char>, Seq<char>>) -> Option<
        Seq<char>,
    > {
        first_of(lookup(cli, "blackmagic-mode"@), self.spec_cfg_blackmagic_mode())
    }

    /// Resolves the build target. The tool's `builder.target` wins; then the
    /// build configuration's `build.target`; then the key of its `target`
    /// table, but only where the table has exactly one key.
    pub fn target(&self) -> (r: Option<&str>)
        ensures
            str_text(r) == self.spec_target(),
    {
        if let Some(bobbin) = &self.bobbin {
            if let Some(builder) = &bobbin.builder {
                if let Some(target) = &builder.target {
                    return Some(target.as_str());
                }
            }
        }
        if let Some(cargo) = &self.cargo {
            if let Some(build) = &cargo.build {
                if let Some(target) = &build.target {
                    return Some(target.as_str());
                }
            }
            if let Some(names) = &cargo.target {
                return single_key(names);
            }
        }
        None
    }

    /// The host filter, from the tool's `filter.host` alone.
    pub fn filter_host(&self) -> (r: Option<&str>)
        ensures
            str_text(r) == self.spec_filter_host(),
    {
        if let Some(bobbin) = &self.bobbin {
            if let Some(filter) = &bobbin.filter {
                return as_text(&filter.host);
            }
        }
        None
    }

    /// Resolves the device: the `device` override of the command line wins
    /// over the tool's `filter.device`.
    pub fn device(&self, args: &ArgMatches<'_>) -> (r: Option<String>)
        ensures
            text(r) == self.spec_device(arg_values(*args)),
    {
        cli_or(args, "device", self.filter_device())
    }

    /// The device filter, from the tool's `filter.device` alone.
    pub fn filter_device(&self) -> (r: Option<&str>)
        ensures
            str_text(r) == self.spec_filter_device(),
    {
        if let Some(bobbin) = &self.bobbin {
            if let Some(filter) = &bobbin.filter {
                return as_text(&filter.device);
            }
        }
        None
    }

    /// Resolves the console: the `console` override of the command line wins
    /// over the tool's `console.path`.
    pub fn console(&self, args: &ArgMatches<'_>) -> (r: Option<String>)
        ensures
            text(r) == self.spec_console(arg_values(*args)),
    {
        cli_or(args, "console", self.cfg_console())
    }

    /// The console path, from the tool's `console.path` alone.
    pub fn cfg_console(&self) -> (r: Option<&str>)
        ensures
            str_text(r) == self.spec_cfg_console(),
    {
        if let Some(bobbin) = &self.bobbin {
            if let Some(console) = &bobbin.console {
                return as_text(&console.path);
            }
        }
        None
    }

    /// The ITM target clock, from the tool's `itm.targetClock` alone, as the
    /// number that the document gives.
    pub fn itm_target_clock(&self) -> (r: Option<u32>)
        ensures
            r == self.spec_itm_target_clock(),
    {
        if let Some(bobbin) = &self.bobbin {
            if let Some(itm) = &bobbin.itm {
                return itm.target_clock;
            }
        }
        None
    }

    /// Resolves the J-Link device: the `jlink-device` override of the command
    /// line wins over the tool's `loader.jlinkDevice`.
    pub fn jlink_device(&self, args: &ArgMatches<'_>) -> (r: Option<String>)
        ensures
            text(r) == self.spec_jlink_device(arg_values(*args)),
    {
        cli_or(args, "jlink-device", self.cfg_jlink_device())
    }

    /// The J-Link device, from the tool's `loader.jlinkDevice` alone.
    pub fn cfg_jlink_device(&self) -> (r: Option<&str>)
        ensures
            str_text(r) == self.spec_cfg_jlink_device(),
    {
        if let Some(bobbin) = &self.bobbin {
            if let Some(loader) = &bobbin.loader {
                return as_text(&loader.jlink_device);
            }
        }
        None
    }

    /// Resolves the Teensy MCU: the `teensy-mcu` override of the command line
    /// wins over the tool's `loader.teensyMcu`.
    pub fn teensy_mcu(&self, args: &ArgMatches<'_>) -> (r: Option<String>)
        ensures
            text(r) == self.spec_teensy_mcu(arg_values(*args)),
    {
        cli_or(args, "teensy-mcu", self.cfg_teensy_mcu())
    }

    /// The Teensy MCU, from the tool's `loader.teensyMcu` alone.
    pub fn cfg_teensy_mcu(&self) -> (r: Option<&str>)
        ensures
            str_text(r) == self.spec_cfg_teensy_mcu(),
    {
        if let Some(bobbin) = &self.bobbin {
            if let Some(loader) = &bobbin.loader {
                return as_text(&loader.teensy_mcu);
            }
        }
        None
    }

    /// Resolves the Black Magic mode: the `blackmagic-mode` override of the
    /// command line wins over the tool's `loader.blackmagicMode`.
    pub fn blackmagic_mode(&self, args: &ArgMatches<'_>) -> (r: Option<String>)
        ensures
            text(r) == self.spec_blackmagic_mode(arg_values(*args)),
    {
        cli_or(args, "blackmagic-mode", self.cfg_blackmagic_mode())
    }

    /// The Black Magic mode, from the tool's `loader.blackmagicMode` alone.
    pub fn cfg_blackmagic_mode(&self) -> (r: Option<&str>)
        ensures
            str_text(r) == self.spec_cfg_blackmagic_mode(),
    {
        if let Some(bobbin) = &self.bobbin {
            if let Some(loader) = &bobbin.loader {
                return as_text(&loader.blackmagic_mode);
            }
        }
        None
    }
}

} // verus!
