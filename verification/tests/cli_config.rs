use std::path::{Path, PathBuf};

const BINARY: &str = "/usr/bin/statime-metrics-exporter";

#[test]
fn cli_config() {
    let config_str = "/foo/bar/statime.toml";
    let config = Path::new(config_str);
    let arguments = &[BINARY, "-c", config_str];

    let command = clap::Command::new("statime-metrics-exporter").arg(
        clap::Arg::new("config")
            .long("config")
            .short('c')
            .value_parser(clap::builder::PathBufValueParser::new())
            .default_value("/etc/statime/statime.toml"),
    );
    let matches = command.try_get_matches_from(arguments).unwrap();
    let options: &PathBuf = matches.get_one("config").unwrap();
    assert_eq!(options.as_path(), config);
}
