use bobbin_cli::cli::{cli_or, first_present};
use bobbin_cli::config::Config;
use bobbin_cli::document::{
    as_text, single_key, BobbinConfig, BuilderConfig, CargoBuild, CargoConfig, ConsoleConfig,
    FilterConfig, ItmConfig, LoaderConfig,
};
use clap::{App, Arg, ArgMatches};

fn command_line(argv: &[&str]) -> ArgMatches<'static> {
    App::new("bobbin")
        .arg(Arg::with_name("device").long("device").takes_value(true))
        .arg(Arg::with_name("console").long("console").takes_value(true))
        .arg(Arg::with_name("jlink-device").long("jlink-device").takes_value(true))
        .arg(Arg::with_name("teensy-mcu").long("teensy-mcu").takes_value(true))
        .arg(Arg::with_name("blackmagic-mode").long("blackmagic-mode").takes_value(true))
        .arg(Arg::with_name("verbose").long("verbose"))
        .get_matches_from_safe(argv)
        .unwrap()
}

fn empty_tool() -> BobbinConfig {
    BobbinConfig { builder: None, filter: None, console: None, itm: None, loader: None }
}

fn full_tool() -> BobbinConfig {
    BobbinConfig {
        builder: Some(BuilderConfig { target: Some("thumbv7em-none-eabihf".to_string()) }),
        filter: Some(FilterConfig {
            host: Some("lab-host".to_string()),
            device: Some("dev1".to_string()),
        }),
        console: Some(ConsoleConfig { path: Some("/dev/ttyACM0".to_string()) }),
        itm: Some(ItmConfig { target_clock: Some(8000000) }),
        loader: Some(LoaderConfig {
            jlink_device: Some("S32K144".to_string()),
            teensy_mcu: Some("mk20dx256".to_string()),
            blackmagic_mode: Some("swd".to_string()),
        }),
    }
}

fn names(list: &[&str]) -> Vec<String> {
    list.iter().map(|s| s.to_string()).collect()
}

fn build_only(target: Option<&str>, table: Option<Vec<String>>) -> Config {
    Config {
        bobbin: None,
        cargo: Some(CargoConfig {
            build: Some(CargoBuild { target: target.map(|s| s.to_string()) }),
            target: table,
        }),
    }
}

#[test]
fn nothing_loaded_resolves_nothing() {
    let c = Config { bobbin: None, cargo: None };
    let args = command_line(&["bobbin"]);
    assert_eq!(c.target(), None);
    assert_eq!(c.filter_host(), None);
    assert_eq!(c.filter_device(), None);
    assert_eq!(c.cfg_console(), None);
    assert_eq!(c.itm_target_clock(), None);
    assert_eq!(c.cfg_jlink_device(), None);
    assert_eq!(c.cfg_teensy_mcu(), None);
    assert_eq!(c.cfg_blackmagic_mode(), None);
    assert_eq!(c.device(&args), None);
    assert_eq!(c.console(&args), None);
    assert_eq!(c.jlink_device(&args), None);
    assert_eq!(c.teensy_mcu(&args), None);
    assert_eq!(c.blackmagic_mode(&args), None);
}

#[test]
fn empty_documents_resolve_nothing() {
    let c = Config {
        bobbin: Some(empty_tool()),
        cargo: Some(CargoConfig { build: None, target: None }),
    };
    let args = command_line(&["bobbin"]);
    assert_eq!(c.target(), None);
    assert_eq!(c.filter_host(), None);
    assert_eq!(c.itm_target_clock(), None);
    assert_eq!(c.device(&args), None);
    assert_eq!(c.blackmagic_mode(&args), None);
}

#[test]
fn empty_sections_resolve_nothing() {
    let c = Config {
        bobbin: Some(BobbinConfig {
            builder: Some(BuilderConfig { target: None }),
            filter: Some(FilterConfig { host: None, device: None }),
            console: Some(ConsoleConfig { path: None }),
            itm: Some(ItmConfig { target_clock: None }),
            loader: Some(LoaderConfig {
                jlink_device: None,
                teensy_mcu: None,
                blackmagic_mode: None,
            }),
        }),
        cargo: Some(CargoConfig { build: Some(CargoBuild { target: None }), target: None }),
    };
    assert_eq!(c.target(), None);
    assert_eq!(c.filter_host(), None);
    assert_eq!(c.filter_device(), None);
    assert_eq!(c.cfg_console(), None);
    assert_eq!(c.itm_target_clock(), None);
    assert_eq!(c.cfg_jlink_device(), None);
    assert_eq!(c.cfg_teensy_mcu(), None);
    assert_eq!(c.cfg_blackmagic_mode(), None);
}

#[test]
fn tool_target_wins_without_build_config() {
    let mut tool = empty_tool();
    tool.builder = Some(BuilderConfig { target: Some("X".to_string()) });
    let c = Config { bobbin: Some(tool), cargo: None };
    assert_eq!(c.target(), Some("X"));
}

#[test]
fn tool_target_wins_over_build_config() {
    let mut tool = empty_tool();
    tool.builder = Some(BuilderConfig { target: Some("X".to_string()) });
    let c = Config {
        bobbin: Some(tool),
        cargo: Some(CargoConfig {
            build: Some(CargoBuild { target: Some("Y".to_string()) }),
            target: Some(names(&["Z"])),
        }),
    };
    assert_eq!(c.target(), Some("X"));
}

#[test]
fn build_target_comes_before_the_table() {
    let c = build_only(Some("Y"), Some(names(&["Z"])));
    assert_eq!(c.target(), Some("Y"));
}

#[test]
fn build_target_is_used_under_a_tool_document_without_one() {
    let mut c = build_only(Some("Y"), None);
    c.bobbin = Some(empty_tool());
    assert_eq!(c.target(), Some("Y"));
}

#[test]
fn table_with_one_key_names_the_target() {
    let c = Config {
        bobbin: None,
        cargo: Some(CargoConfig { build: None, target: Some(names(&["only-key"])) }),
    };
    assert_eq!(c.target(), Some("only-key"));
}

#[test]
fn table_with_one_key_names_the_target_under_an_empty_build_section() {
    let c = build_only(None, Some(names(&["only-key"])));
    assert_eq!(c.target(), Some("only-key"));
}

#[test]
fn table_with_two_keys_names_nothing() {
    let c = Config {
        bobbin: None,
        cargo: Some(CargoConfig { build: None, target: Some(names(&["a", "b"])) }),
    };
    assert_eq!(c.target(), None);
}

#[test]
fn table_with_three_keys_names_nothing() {
    let c = build_only(None, Some(names(&["a", "a", "b"])));
    assert_eq!(c.target(), None);
}

#[test]
fn table_without_keys_names_nothing() {
    let c = build_only(None, Some(Vec::new()));
    assert_eq!(c.target(), None);
}

#[test]
fn single_key_of_a_list() {
    assert_eq!(single_key(&names(&[])), None);
    assert_eq!(single_key(&names(&["k"])), Some("k"));
    assert_eq!(single_key(&names(&["k", "k"])), Some("k"));
    assert_eq!(single_key(&names(&["k", "l"])), None);
    assert_eq!(single_key(&names(&["k", "k", "l"])), None);
}

#[test]
fn as_text_borrows_the_string() {
    assert_eq!(as_text(&Some("abc".to_string())), Some("abc"));
    assert_eq!(as_text(&Some(String::new())), Some(""));
    assert_eq!(as_text(&None), None);
}

#[test]
fn override_wins_for_device() {
    let mut tool = empty_tool();
    tool.filter = Some(FilterConfig { host: None, device: Some("dev1".to_string()) });
    let c = Config { bobbin: Some(tool), cargo: None };
    let args = command_line(&["bobbin", "--device", "dev0"]);
    assert_eq!(c.device(&args), Some("dev0".to_string()));
    assert_eq!(c.filter_device(), Some("dev1"));
}

#[test]
fn document_gives_device_without_override() {
    let mut tool = empty_tool();
    tool.filter = Some(FilterConfig { host: None, device: Some("dev1".to_string()) });
    let c = Config { bobbin: Some(tool), cargo: None };
    let args = command_line(&["bobbin"]);
    assert_eq!(c.device(&args), Some("dev1".to_string()));
}

#[test]
fn override_alone_gives_device() {
    let c = Config { bobbin: None, cargo: None };
    let args = command_line(&["bobbin", "--device", "dev0"]);
    assert_eq!(c.device(&args), Some("dev0".to_string()));
}

#[test]
fn empty_override_still_wins() {
    let c = Config { bobbin: Some(full_tool()), cargo: None };
    let args = command_line(&["bobbin", "--device="]);
    assert_eq!(c.device(&args), Some(String::new()));
}

#[test]
fn every_override_wins() {
    let c = Config { bobbin: Some(full_tool()), cargo: None };
    let args = command_line(&[
        "bobbin",
        "--device",
        "d",
        "--console",
        "/dev/ttyUSB1",
        "--jlink-device",
        "j",
        "--teensy-mcu",
        "t",
        "--blackmagic-mode",
        "jtag",
    ]);
    assert_eq!(c.device(&args), Some("d".to_string()));
    assert_eq!(c.console(&args), Some("/dev/ttyUSB1".to_string()));
    assert_eq!(c.jlink_device(&args), Some("j".to_string()));
    assert_eq!(c.teensy_mcu(&args), Some("t".to_string()));
    assert_eq!(c.blackmagic_mode(&args), Some("jtag".to_string()));
}

#[test]
fn overrides_are_looked_up_by_their_own_names() {
    let c = Config { bobbin: Some(full_tool()), cargo: None };
    let args = command_line(&["bobbin", "--console", "/dev/ttyUSB1"]);
    assert_eq!(c.device(&args), Some("dev1".to_string()));
    assert_eq!(c.console(&args), Some("/dev/ttyUSB1".to_string()));
    assert_eq!(c.jlink_device(&args), Some("S32K144".to_string()));
    assert_eq!(c.teensy_mcu(&args), Some("mk20dx256".to_string()));
    assert_eq!(c.blackmagic_mode(&args), Some("swd".to_string()));
}

#[test]
fn document_gives_every_setting_it_holds() {
    let c = Config { bobbin: Some(full_tool()), cargo: None };
    let args = command_line(&["bobbin"]);
    assert_eq!(c.target(), Some("thumbv7em-none-eabihf"));
    assert_eq!(c.filter_host(), Some("lab-host"));
    assert_eq!(c.filter_device(), Some("dev1"));
    assert_eq!(c.cfg_console(), Some("/dev/ttyACM0"));
    assert_eq!(c.itm_target_clock(), Some(8000000));
    assert_eq!(c.cfg_jlink_device(), Some("S32K144"));
    assert_eq!(c.cfg_teensy_mcu(), Some("mk20dx256"));
    assert_eq!(c.cfg_blackmagic_mode(), Some("swd"));
    assert_eq!(c.device(&args), Some("dev1".to_string()));
    assert_eq!(c.console(&args), Some("/dev/ttyACM0".to_string()));
    assert_eq!(c.jlink_device(&args), Some("S32K144".to_string()));
    assert_eq!(c.teensy_mcu(&args), Some("mk20dx256".to_string()));
    assert_eq!(c.blackmagic_mode(&args), Some("swd".to_string()));
}

#[test]
fn target_clock_keeps_its_full_range() {
    let mut tool = empty_tool();
    tool.itm = Some(ItmConfig { target_clock: Some(u32::MAX) });
    let c = Config { bobbin: Some(tool), cargo: None };
    assert_eq!(c.itm_target_clock(), Some(4294967295));
    let mut tool = empty_tool();
    tool.itm = Some(ItmConfig { target_clock: Some(0) });
    let c = Config { bobbin: Some(tool), cargo: None };
    assert_eq!(c.itm_target_clock(), Some(0));
}

#[test]
fn build_config_gives_no_other_setting() {
    let c = build_only(Some("Y"), Some(names(&["Z"])));
    let args = command_line(&["bobbin"]);
    assert_eq!(c.filter_host(), None);
    assert_eq!(c.itm_target_clock(), None);
    assert_eq!(c.device(&args), None);
    assert_eq!(c.console(&args), None);
}

#[test]
fn command_line_that_defines_no_option_overrides_nothing() {
    let args = App::new("bare").get_matches_from_safe(&["bare"]).unwrap();
    let c = Config { bobbin: Some(full_tool()), cargo: None };
    assert_eq!(c.device(&args), Some("dev1".to_string()));
    assert_eq!(cli_or(&args, "device", None), None);
}

#[test]
fn flag_without_a_value_is_no_override() {
    let args = command_line(&["bobbin", "--verbose"]);
    assert_eq!(cli_or(&args, "verbose", Some("fallback")), Some("fallback".to_string()));
}

#[test]
fn cli_or_reads_the_named_option() {
    let args = command_line(&["bobbin", "--device", "dev0"]);
    assert_eq!(cli_or(&args, "device", Some("dev1")), Some("dev0".to_string()));
    assert_eq!(cli_or(&args, "console", Some("dev1")), Some("dev1".to_string()));
    assert_eq!(cli_or(&args, "console", None), None);
}

#[test]
fn first_present_prefers_the_override() {
    assert_eq!(first_present(Some("a".to_string()), Some("b")), Some("a".to_string()));
    assert_eq!(first_present(Some("a".to_string()), None), Some("a".to_string()));
    assert_eq!(first_present(Some(String::new()), Some("b")), Some(String::new()));
    assert_eq!(first_present(None, Some("b")), Some("b".to_string()));
    assert_eq!(first_present(None, None), None);
}
