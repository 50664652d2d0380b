//! What holds of the resolution rules in general, proved from the
//! definitions that the accessors' contracts are stated in.

use vstd::prelude::*;
use crate::cli::lookup;
use crate::config::{failure, loaded, Config, ConfigError, ConfigFile, Source};
use crate::document::{sole_key, target_keys, BobbinConfig, CargoConfig};

verus! {

/// With neither document present, no setting is resolved from configuration:
/// every setting that only the documents can give is absent, and every setting
/// that the command line may override is exactly what the command line gives,
/// so absent too where the command line lacks it.
pub proof fn absent_documents_resolve_nothing(c: Config, cli: Map<Seq<char>, Seq<char>>)
    requires
        c.bobbin is None,
        c.cargo is None,
    ensures
        c.spec_target() is None,
        c.spec_filter_host() is None,
        c.spec_filter_device() is None,
        c.spec_cfg_console() is None,
        c.spec_itm_target_clock() is None,
        c.spec_cfg_jlink_device() is None,
        c.spec_cfg_teensy_mcu() is None,
        c.spec_cfg_blackmagic_mode() is None,
        c.spec_device(cli) == lookup(cli, "device"@),
        c.spec_console(cli) == lookup(cli, "console"@),
        c.spec_jlink_device(cli) == lookup(cli, "jlink-device"@),
        c.spec_teensy_mcu(cli) == lookup(cli, "teensy-mcu"@),
        c.spec_blackmagic_mode(cli) == lookup(cli, "blackmagic-mode"@),
{
}

/// A `builder.target` in the tool's document is the target, whatever the
/// build configuration holds and whether it is present at all.
pub proof fn tool_target_wins(c: Config, x: Seq<char>)
    requires
        c.bobbin is Some,
        c.bobbin->0.builder_target() == Some(x),
    ensures
        c.spec_target() == Some(x),
{
}

/// Where the tool's document names no target, the build configuration
/// decides, and an absent build configuration leaves the target absent.
pub proof fn build_config_decides_target(c: Config)
    requires
        c.bobbin is None || c.bobbin->0.builder_target() is None,
    ensures
        c.cargo is None ==> c.spec_target() is None,
        c.cargo is Some ==> c.spec_target() == c.cargo->0.target_choice(),
{
}

/// In the build configuration `build.target` comes before the `target` table.
pub proof fn build_target_before_table(c: CargoConfig, x: Seq<char>)
    requires
        c.build_target() == Some(x),
    ensures
        c.target_choice() == Some(x),
{
}

/// A table with no entry names no target.
pub proof fn empty_table_names_nothing(names: Seq<String>)
    requires
        names.len() == 0,
    ensures
        sole_key(target_keys(names)) is None,
{
    assert forall|k: Seq<char>| target_keys(names) != set![k] by {
        assert(set![k].contains(k));
    }
}

/// A table with one entry names that entry's key as the target.
pub proof fn single_entry_names_target(names: Seq<String>)
    requires
        names.len() == 1,
    ensures
        sole_key(target_keys(names)) == Some(names[0]@),
{
    let only = names[0]@;
    assert(target_keys(names).contains(only));
    assert(target_keys(names) =~= set![only]);
    let k = choose|k: Seq<char>| target_keys(names) == set![k];
    assert(set![k].contains(only));
}

/// A table with two different keys is ambiguous and names no target.
pub proof fn several_entries_name_nothing(names: Seq<String>, i: int, j: int)
    requires
        0 <= i < names.len(),
        0 <= j < names.len(),
        names[i]@ != names[j]@,
    ensures
        sole_key(target_keys(names)) is None,
{
    assert forall|k: Seq<char>| target_keys(names) != set![k] by {
        assert(target_keys(names).contains(names[i]@));
        assert(target_keys(names).contains(names[j]@));
        if target_keys(names) == set![k] {
            assert(set![k].contains(names[i]@));
            assert(set![k].contains(names[j]@));
        }
    }
}

/// A table names a target exactly when the number of its keys is one.
pub proof fn target_named_iff_one_key(names: Seq<String>)
    ensures
        sole_key(target_keys(names)) is Some <==> target_keys(names).finite() && target_keys(
            names,
        ).len() == 1,
{
    let keys = target_keys(names);
    if exists|k: Seq<char>| keys == set![k] {
        let k = choose|k: Seq<char>| keys == set![k];
        assert(set![k].finite());
        assert(set![k].len() == 1);
    }
    if keys.finite() && keys.len() == 1 {
        Set::lemma_is_singleton(keys);
        let k = keys.choose();
        assert(keys.contains(k));
        assert(keys =~= set![k]);
    }
}

/// An override on the command line wins over the tool's document, whatever
/// the document holds and whatever the override holds.
pub proof fn override_wins(c: Config, cli: Map<Seq<char>, Seq<char>>)
    ensures
        cli.contains_key("device"@) ==> c.spec_device(cli) == Some(cli["device"@]),
        cli.contains_key("console"@) ==> c.spec_console(cli) == Some(cli["console"@]),
        cli.contains_key("jlink-device"@) ==> c.spec_jlink_device(cli) == Some(
            cli["jlink-device"@],
        ),
        cli.contains_key("teensy-mcu"@) ==> c.spec_teensy_mcu(cli) == Some(cli["teensy-mcu"@]),
        cli.contains_key("blackmagic-mode"@) ==> c.spec_blackmagic_mode(cli) == Some(
            cli["blackmagic-mode"@],
        ),
{
}

/// Without an override on the command line the tool's document decides.
pub proof fn without_override_document_decides(c: Config, cli: Map<Seq<char>, Seq<char>>)
    ensures
        !cli.contains_key("device"@) ==> c.spec_device(cli) == c.spec_filter_device(),
        !cli.contains_key("console"@) ==> c.spec_console(cli) == c.spec_cfg_console(),
        !cli.contains_key("jlink-device"@) ==> c.spec_jlink_device(cli)
            == c.spec_cfg_jlink_device(),
        !cli.contains_key("teensy-mcu"@) ==> c.spec_teensy_mcu(cli) == c.spec_cfg_teensy_mcu(),
        !cli.contains_key("blackmagic-mode"@) ==> c.spec_blackmagic_mode(cli)
            == c.spec_cfg_blackmagic_mode(),
{
}

/// The build configuration bears on the target alone: two configurations with
/// the same tool document agree on every other setting.
pub proof fn build_config_bears_on_target_only(
    a: Config,
    b: Config,
    cli: Map<Seq<char>, Seq<char>>,
)
    requires
        a.bobbin == b.bobbin,
    ensures
        a.spec_filter_host() == b.spec_filter_host(),
        a.spec_itm_target_clock() == b.spec_itm_target_clock(),
        a.spec_device(cli) == b.spec_device(cli),
        a.spec_console(cli) == b.spec_console(cli),
        a.spec_jlink_device(cli) == b.spec_jlink_device(cli),
        a.spec_teensy_mcu(cli) == b.spec_teensy_mcu(cli),
        a.spec_blackmagic_mode(cli) == b.spec_blackmagic_mode(cli),
{
}

/// A tool document that was loaded reads back field by field: each setting
/// that only the document gives is exactly what the document holds for it,
/// strings and numbers alike, and the build configuration changes none of
/// them.
pub proof fn loaded_document_reads_back(doc: BobbinConfig, cargo: Source<CargoConfig>)
    requires
        failure(ConfigFile::Cargo, cargo) is None,
    ensures
        loaded(Source::Loaded(doc), cargo) is Ok,
        ({
            let c = loaded(Source::Loaded(doc), cargo)->Ok_0;
            &&& c.bobbin == Some(doc)
            &&& c.spec_filter_host() == doc.filter_host()
            &&& c.spec_filter_device() == doc.filter_device()
            &&& c.spec_cfg_console() == doc.console_path()
            &&& c.spec_itm_target_clock() == doc.itm_target_clock()
            &&& c.spec_cfg_jlink_device() == doc.loader_jlink_device()
            &&& c.spec_cfg_teensy_mcu() == doc.loader_teensy_mcu()
            &&& c.spec_cfg_blackmagic_mode() == doc.loader_blackmagic_mode()
            &&& doc.builder_target() is Some ==> c.spec_target() == doc.builder_target()
        }),
{
}

/// A build configuration that was loaded gives the target wherever the tool's
/// file is missing.
pub proof fn loaded_build_config_reads_back(doc: CargoConfig)
    ensures
        loaded(Source::Missing, Source::Loaded(doc)) is Ok,
        loaded(Source::Missing, Source::Loaded(doc))->Ok_0.cargo == Some(doc),
        loaded(Source::Missing, Source::Loaded(doc))->Ok_0.spec_target() == doc.target_choice(),
{
}

/// Two missing files load as a configuration with both documents absent.
pub proof fn missing_files_load_empty()
    ensures
        loaded(Source::Missing, Source::Missing) == Ok::<Config, ConfigError>(
            Config { bobbin: None, cargo: None },
        ),
{
}

/// A file that could not be parsed fails the load with a parse error that
/// names it, and a file that could not be read with an I/O error that names
/// it; the load succeeds only where neither file failed. A failed file is
/// never taken for a missing one.
pub proof fn failed_file_fails_load(bobbin: Source<BobbinConfig>, cargo: Source<CargoConfig>)
    ensures
        bobbin is Malformed ==> loaded(bobbin, cargo) == Err::<Config, ConfigError>(
            ConfigError::Parse(ConfigFile::Bobbin),
        ),
        bobbin is Unreadable ==> loaded(bobbin, cargo) == Err::<Config, ConfigError>(
            ConfigError::Io(ConfigFile::Bobbin),
        ),
        (bobbin is Missing || bobbin is Loaded) && cargo is Malformed ==> loaded(bobbin, cargo)
            == Err::<Config, ConfigError>(ConfigError::Parse(ConfigFile::Cargo)),
        (bobbin is Missing || bobbin is Loaded) && cargo is Unreadable ==> loaded(bobbin, cargo)
            == Err::<Config, ConfigError>(ConfigError::Io(ConfigFile::Cargo)),
        loaded(bobbin, cargo) is Ok <==> (bobbin is Missing || bobbin is Loaded) && (cargo
            is Missing || cargo is Loaded),
{
}

} // verus!
