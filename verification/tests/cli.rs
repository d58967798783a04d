use pico_de_gallo::args::{
    parse_byte, parse_byte_list, parse_hex_string, parse_i2c_address, parse_i2c_batch_ops,
    parse_spi_batch_ops,
};
use pico_de_gallo::batch::{I2cBatchOp, SpiBatchOp};
use pico_de_gallo::cli::{
    AdcCommands, Cli, Commands, GpioCommands, GpioDirectionArg, GpioEdgeArg, GpioPullArg,
    I2cCommands, I2cFrequencyArg, OneWireCommands, PwmCommands, SpiCommands, UartCommands,
};
use pico_de_gallo::display::{hex_dump_lines, OutputFormat};
use pico_de_gallo::numbers::IntErrorKind;
use pico_de_gallo::scan::CliErrorKind;

// ----------------------------- parse_byte tests -----------------------------

#[test]
fn parse_byte_decimal() {
    assert_eq!(parse_byte("0").unwrap(), 0);
    assert_eq!(parse_byte("255").unwrap(), 255);
    assert_eq!(parse_byte("42").unwrap(), 42);
}

#[test]
fn parse_byte_hex() {
    assert_eq!(parse_byte("0x00").unwrap(), 0x00);
    assert_eq!(parse_byte("0xFF").unwrap(), 0xFF);
    assert_eq!(parse_byte("0x48").unwrap(), 0x48);
    assert_eq!(parse_byte("0xab").unwrap(), 0xAB);
}

#[test]
fn parse_byte_binary() {
    assert_eq!(parse_byte("0b00000000").unwrap(), 0);
    assert_eq!(parse_byte("0b11111111").unwrap(), 255);
    assert_eq!(parse_byte("0b10101010").unwrap(), 0xAA);
}

#[test]
fn parse_byte_overflow_fails() {
    assert!(parse_byte("256").is_err());
    assert!(parse_byte("0x100").is_err());
    assert!(parse_byte("0b100000000").is_err());
}

#[test]
fn parse_byte_invalid_fails() {
    assert!(parse_byte("xyz").is_err());
    assert!(parse_byte("0xGG").is_err());
    assert!(parse_byte("0b2").is_err());
    assert!(parse_byte("").is_err());
}

#[test]
fn parse_byte_error_kinds() {
    assert_eq!(parse_byte(""), Err(IntErrorKind::Empty));
    assert_eq!(parse_byte("0x"), Err(IntErrorKind::Empty));
    assert_eq!(parse_byte("256"), Err(IntErrorKind::PosOverflow));
    assert_eq!(parse_byte("12a"), Err(IntErrorKind::InvalidDigit));
    assert_eq!(parse_byte("+7"), Ok(7));
    assert_eq!(parse_byte("0X10"), Err(IntErrorKind::InvalidDigit));
}

// ----------------------------- CLI parsing tests -----------------------------

#[test]
fn cli_no_args_requires_help() {
    let result = Cli::try_parse_from(&["gallo"]);
    assert!(result.is_err());
}

#[test]
fn cli_version_subcommand() {
    let cli = Cli::try_parse_from(&["gallo", "version"]).unwrap();
    assert!(matches!(cli.command, Commands::Version));
    assert!(cli.serial_number.is_none());
}

#[test]
fn cli_list_subcommand() {
    let cli = Cli::try_parse_from(&["gallo", "list"]).unwrap();
    assert!(matches!(cli.command, Commands::List));
}

#[test]
fn cli_version_with_serial() {
    let cli = Cli::try_parse_from(&["gallo", "-s", "ABCD1234", "version"]).unwrap();
    assert_eq!(cli.serial_number.as_deref(), Some("ABCD1234"));
    assert!(matches!(cli.command, Commands::Version));
}

#[test]
fn cli_i2c_read() {
    let cli = Cli::try_parse_from(&["gallo", "i2c", "read", "-a", "0x48", "-c", "4"]).unwrap();
    match cli.command {
        Commands::I2c {
            command: I2cCommands::Read { address, count },
        } => {
            assert_eq!(address, 0x48);
            assert_eq!(count, 4);
        }
        _ => panic!("expected I2c Read command"),
    }
}

#[test]
fn cli_i2c_write() {
    let cli = Cli::try_parse_from(&["gallo", "i2c", "write", "-a", "0x50", "-b", "0xDE", "0xAD"]).unwrap();
    match cli.command {
        Commands::I2c {
            command: I2cCommands::Write { address, bytes },
        } => {
            assert_eq!(address, 0x50);
            assert_eq!(bytes, vec![0xDE, 0xAD]);
        }
        _ => panic!("expected I2c Write command"),
    }
}

#[test]
fn cli_i2c_write_read() {
    let cli =
        Cli::try_parse_from(&["gallo", "i2c", "write-read", "-a", "0x68", "-b", "0x01", "-c", "6"]).unwrap();
    match cli.command {
        Commands::I2c {
            command: I2cCommands::WriteRead { address, bytes, count },
        } => {
            assert_eq!(address, 0x68);
            assert_eq!(bytes, vec![0x01]);
            assert_eq!(count, 6);
        }
        _ => panic!("expected I2c WriteRead command"),
    }
}

#[test]
fn cli_i2c_scan() {
    let cli = Cli::try_parse_from(&["gallo", "i2c", "scan"]).unwrap();
    match cli.command {
        Commands::I2c {
            command: I2cCommands::Scan { reserved },
        } => {
            assert!(!reserved);
        }
        _ => panic!("expected I2c Scan command"),
    }
}

#[test]
fn cli_i2c_scan_reserved() {
    let cli = Cli::try_parse_from(&["gallo", "i2c", "scan", "-r"]).unwrap();
    match cli.command {
        Commands::I2c {
            command: I2cCommands::Scan { reserved },
        } => {
            assert!(reserved);
        }
        _ => panic!("expected I2c Scan command"),
    }
}

#[test]
fn cli_spi_read() {
    let cli = Cli::try_parse_from(&["gallo", "spi", "read", "-c", "16"]).unwrap();
    match cli.command {
        Commands::Spi {
            command: SpiCommands::Read { count },
        } => {
            assert_eq!(count, 16);
        }
        _ => panic!("expected Spi Read command"),
    }
}

#[test]
fn cli_spi_write() {
    let cli = Cli::try_parse_from(&["gallo", "spi", "write", "-b", "0xCA", "0xFE"]).unwrap();
    match cli.command {
        Commands::Spi {
            command: SpiCommands::Write { bytes },
        } => {
            assert_eq!(bytes, vec![0xCA, 0xFE]);
        }
        _ => panic!("expected Spi Write command"),
    }
}

#[test]
fn cli_spi_transfer() {
    let cli = Cli::try_parse_from(&["gallo", "spi", "transfer", "-b", "0x01", "0x02", "0x03"]).unwrap();
    match cli.command {
        Commands::Spi {
            command: SpiCommands::Transfer { bytes },
        } => {
            assert_eq!(bytes, vec![0x01, 0x02, 0x03]);
        }
        _ => panic!("expected Spi Transfer command"),
    }
}

#[test]
fn cli_i2c_set_config() {
    let cli = Cli::try_parse_from(&["gallo", "i2c", "set-config", "--frequency", "fast"]).unwrap();
    match cli.command {
        Commands::I2c {
            command: I2cCommands::SetConfig { frequency },
        } => {
            assert_eq!(frequency, I2cFrequencyArg::Fast);
        }
        _ => panic!("expected I2c SetConfig command"),
    }
}

#[test]
fn cli_i2c_set_config_fast_plus() {
    let cli = Cli::try_parse_from(&["gallo", "i2c", "set-config", "--frequency", "fast-plus"]).unwrap();
    match cli.command {
        Commands::I2c {
            command: I2cCommands::SetConfig { frequency },
        } => {
            assert_eq!(frequency, I2cFrequencyArg::FastPlus);
        }
        _ => panic!("expected I2c SetConfig command"),
    }
}

#[test]
fn cli_i2c_set_config_invalid_frequency_fails() {
    let result = Cli::try_parse_from(&["gallo", "i2c", "set-config", "--frequency", "ultra-fast"]);
    assert!(result.is_err());
}

#[test]
fn cli_spi_set_config() {
    let cli = Cli::try_parse_from(&[
        "gallo",
        "spi",
        "set-config",
        "--frequency",
        "1000000",
        "--first-transition",
        "--idle-low",
    ])
    .unwrap();
    match cli.command {
        Commands::Spi {
            command:
                SpiCommands::SetConfig {
                    frequency,
                    first_transition,
                    idle_low,
                },
        } => {
            assert_eq!(frequency, 1_000_000);
            assert!(first_transition);
            assert!(idle_low);
        }
        _ => panic!("expected Spi SetConfig command"),
    }
}

#[test]
fn cli_spi_set_config_defaults() {
    let cli = Cli::try_parse_from(&["gallo", "spi", "set-config", "--frequency", "500000"]).unwrap();
    match cli.command {
        Commands::Spi {
            command:
                SpiCommands::SetConfig {
                    first_transition,
                    idle_low,
                    ..
                },
        } => {
            assert!(!first_transition);
            assert!(!idle_low);
        }
        _ => panic!("expected Spi SetConfig command"),
    }
}

#[test]
fn cli_i2c_set_config_missing_frequency_fails() {
    let result = Cli::try_parse_from(&["gallo", "i2c", "set-config"]);
    assert!(result.is_err());
}

#[test]
fn cli_spi_set_config_missing_frequency_fails() {
    let result = Cli::try_parse_from(&["gallo", "spi", "set-config"]);
    assert!(result.is_err());
}

#[test]
fn cli_i2c_read_missing_address_fails() {
    let result = Cli::try_parse_from(&["gallo", "i2c", "read", "-c", "4"]);
    assert!(result.is_err());
}

#[test]
fn cli_unknown_subcommand_fails() {
    let result = Cli::try_parse_from(&["gallo", "uart"]);
    assert!(result.is_err());
}

#[test]
fn cli_i2c_without_subcommand_fails() {
    let result = Cli::try_parse_from(&["gallo", "i2c"]);
    assert!(result.is_err());
}

#[test]
fn cli_spi_without_subcommand_fails() {
    let result = Cli::try_parse_from(&["gallo", "spi"]);
    assert!(result.is_err());
}

// ----------------------------- batch CLI tests -----------------------------

#[test]
fn cli_i2c_batch() {
    let cli = Cli::try_parse_from(&[
        "gallo",
        "i2c",
        "batch",
        "-a",
        "0x50",
        "--op",
        "write:0x00,0x10",
        "--op",
        "read:16",
    ])
    .unwrap();
    match cli.command {
        Commands::I2c {
            command: I2cCommands::Batch { address, op },
        } => {
            assert_eq!(address, 0x50);
            assert_eq!(op, vec!["write:0x00,0x10", "read:16"]);
        }
        _ => panic!("expected I2c Batch command"),
    }
}

#[test]
fn cli_i2c_batch_requires_ops() {
    let result = Cli::try_parse_from(&["gallo", "i2c", "batch", "-a", "0x50"]);
    assert!(result.is_err());
}

#[test]
fn cli_spi_batch() {
    let cli = Cli::try_parse_from(&[
        "gallo",
        "spi",
        "batch",
        "--cs",
        "0",
        "--op",
        "write:0x9F",
        "--op",
        "read:3",
    ])
    .unwrap();
    match cli.command {
        Commands::Spi {
            command: SpiCommands::Batch { cs, op },
        } => {
            assert_eq!(cs, 0);
            assert_eq!(op, vec!["write:0x9F", "read:3"]);
        }
        _ => panic!("expected Spi Batch command"),
    }
}

#[test]
fn cli_spi_batch_with_transfer_and_delay() {
    let cli = Cli::try_parse_from(&[
        "gallo",
        "spi",
        "batch",
        "--cs",
        "1",
        "--op",
        "transfer:0x01,0x02",
        "--op",
        "delay:1000",
    ])
    .unwrap();
    match cli.command {
        Commands::Spi {
            command: SpiCommands::Batch { cs, op },
        } => {
            assert_eq!(cs, 1);
            assert_eq!(op, vec!["transfer:0x01,0x02", "delay:1000"]);
        }
        _ => panic!("expected Spi Batch command"),
    }
}

#[test]
fn cli_spi_batch_requires_ops() {
    let result = Cli::try_parse_from(&["gallo", "spi", "batch", "--cs", "0"]);
    assert!(result.is_err());
}

// ----------------------------- batch op parser tests -----------------------------

#[test]
fn parse_i2c_batch_ops_read() {
    let ops = vec!["read:16".to_string()];
    let parsed = parse_i2c_batch_ops(&ops).unwrap();
    assert_eq!(parsed.len(), 1);
    assert!(matches!(parsed[0], I2cBatchOp::Read { len: 16 }));
}

#[test]
fn parse_i2c_batch_ops_write() {
    let ops = vec!["write:0xDE,0xAD".to_string()];
    let parsed = parse_i2c_batch_ops(&ops).unwrap();
    assert_eq!(parsed.len(), 1);
    assert!(matches!(parsed[0], I2cBatchOp::Write { .. }));
    assert_eq!(parsed[0], I2cBatchOp::Write { data: vec![0xDE, 0xAD] });
}

#[test]
fn parse_i2c_batch_ops_mixed() {
    let ops = vec!["write:0x00,0x10".to_string(), "read:32".to_string()];
    let parsed = parse_i2c_batch_ops(&ops).unwrap();
    assert_eq!(parsed.len(), 2);
}

#[test]
fn parse_i2c_batch_ops_invalid() {
    let ops = vec!["transfer:0x01".to_string()];
    assert!(parse_i2c_batch_ops(&ops).is_err());
}

#[test]
fn parse_spi_batch_ops_all_types() {
    let ops = vec![
        "read:4".to_string(),
        "write:0x9F".to_string(),
        "transfer:0x01,0x02".to_string(),
        "delay:1000".to_string(),
    ];
    let parsed = parse_spi_batch_ops(&ops).unwrap();
    assert_eq!(parsed.len(), 4);
}

#[test]
fn parse_spi_batch_ops_invalid() {
    let ops = vec!["nope:1".to_string()];
    assert!(parse_spi_batch_ops(&ops).is_err());
}

#[test]
fn parse_byte_list_hex_and_decimal() {
    let result = parse_byte_list("0x0A,20,0xFF").unwrap();
    assert_eq!(result, vec![0x0A, 20, 0xFF]);
}

#[test]
fn print_hex_dump_does_not_panic() {
    let lines = hex_dump_lines(&[0x00, 0x41, 0x42, 0x7F, 0x80, 0xFF]);
    assert_eq!(lines.len(), 1);
}

// ----------------------------- further cases -----------------------------

#[test]
fn spi_batch_ops_values() {
    let ops = vec![
        "read:4".to_string(),
        "write:0x9F".to_string(),
        "transfer:0x01,0x02".to_string(),
        "delay:1000".to_string(),
    ];
    let parsed = parse_spi_batch_ops(&ops).unwrap();
    assert_eq!(parsed[0], SpiBatchOp::Read { len: 4 });
    assert_eq!(parsed[1], SpiBatchOp::Write { data: vec![0x9F] });
    assert_eq!(parsed[2], SpiBatchOp::Transfer { data: vec![0x01, 0x02] });
    assert_eq!(parsed[3], SpiBatchOp::DelayNs { ns: 1000 });
}

#[test]
fn batch_op_errors_name_the_op() {
    let ops = vec!["read:16".to_string(), "transfer:0x01".to_string()];
    let err = parse_i2c_batch_ops(&ops).unwrap_err();
    assert!(err.contains("transfer:0x01"));
    let bad_len = vec!["read:70000".to_string()];
    assert!(parse_i2c_batch_ops(&bad_len).is_err());
    assert!(parse_spi_batch_ops(&["delay:x".to_string()]).is_err());
}

#[test]
fn byte_list_trims_and_rejects() {
    assert_eq!(parse_byte_list(" 1 , 0x02 ,0b11").unwrap(), vec![1, 2, 3]);
    assert!(parse_byte_list("1,,2").is_err());
    assert!(parse_byte_list("300").is_err());
}

#[test]
fn i2c_address_range() {
    assert_eq!(parse_i2c_address("0x48"), Ok(0x48));
    assert_eq!(parse_i2c_address("127"), Ok(127));
    assert!(parse_i2c_address("0x80").is_err());
    assert!(parse_i2c_address("zz").is_err());
}

#[test]
fn hex_string_parsing() {
    assert_eq!(parse_hex_string("DEADbeef"), Ok(vec![0xDE, 0xAD, 0xBE, 0xEF]));
    assert_eq!(parse_hex_string("0x0102"), Ok(vec![0x01, 0x02]));
    assert_eq!(parse_hex_string(""), Ok(vec![]));
    assert!(parse_hex_string("abc").is_err());
    assert!(parse_hex_string("zz").is_err());
}

#[test]
fn hex_dump_exact_line() {
    let lines = hex_dump_lines(&[0x00, 0x41, 0x42, 0x7F, 0x80, 0xFF]);
    let expected = format!("  0000: {:<48}  {}", "00 41 42 7f 80 ff", ".AB...");
    assert_eq!(lines[0], expected);
    let long: Vec<u8> = (0u8..20).collect();
    let lines = hex_dump_lines(&long);
    assert_eq!(lines.len(), 2);
    assert!(lines[1].starts_with("  0010: 10 11 12 13"));
    assert!(hex_dump_lines(&[]).is_empty());
}

#[test]
fn cli_global_format_and_long_serial() {
    let cli = Cli::try_parse_from(&["gallo", "--serial-number", "X1", "-f", "ascii", "list"]).unwrap();
    assert_eq!(cli.serial_number.as_deref(), Some("X1"));
    assert_eq!(cli.format, OutputFormat::Ascii);
    let cli = Cli::try_parse_from(&["gallo", "list"]).unwrap();
    assert_eq!(cli.format, OutputFormat::Hex);
}

#[test]
fn cli_error_kinds() {
    assert_eq!(Cli::try_parse_from(&["gallo"]).unwrap_err(), CliErrorKind::DisplayHelp);
    assert_eq!(Cli::try_parse_from(&["gallo", "frobnicate"]).unwrap_err(), CliErrorKind::UnknownSubcommand);
    assert_eq!(
        Cli::try_parse_from(&["gallo", "i2c", "read", "-c", "4"]).unwrap_err(),
        CliErrorKind::MissingArgument
    );
    assert_eq!(
        Cli::try_parse_from(&["gallo", "i2c", "read", "-a", "0x48", "-c", "x"]).unwrap_err(),
        CliErrorKind::InvalidValue
    );
    assert_eq!(
        Cli::try_parse_from(&["gallo", "i2c", "read", "-a"]).unwrap_err(),
        CliErrorKind::MissingValue
    );
    assert_eq!(Cli::try_parse_from(&["gallo", "--help"]).unwrap_err(), CliErrorKind::DisplayHelp);
    assert_eq!(Cli::try_parse_from(&["gallo", "-V"]).unwrap_err(), CliErrorKind::DisplayVersion);
}

#[test]
fn cli_gpio_commands() {
    let cli = Cli::try_parse_from(&["gallo", "gpio", "put", "-p", "2", "-h"]).unwrap();
    assert_eq!(cli.command, Commands::Gpio { command: GpioCommands::Put { pin: 2, high: true } });
    let cli = Cli::try_parse_from(&[
        "gallo", "gpio", "set-config", "-p", "1", "--direction", "output", "--pull", "none",
    ])
    .unwrap();
    assert_eq!(
        cli.command,
        Commands::Gpio {
            command: GpioCommands::SetConfig {
                pin: 1,
                direction: GpioDirectionArg::Output,
                pull: GpioPullArg::NoPull
            }
        }
    );
    let cli = Cli::try_parse_from(&["gallo", "gpio", "monitor", "-p", "0", "--edge", "falling"]).unwrap();
    assert_eq!(
        cli.command,
        Commands::Gpio { command: GpioCommands::Monitor { pin: 0, edge: GpioEdgeArg::Falling } }
    );
}

#[test]
fn cli_other_groups() {
    let cli = Cli::try_parse_from(&["gallo", "adc", "info"]).unwrap();
    assert_eq!(cli.command, Commands::Adc { command: AdcCommands::Info });
    let cli = Cli::try_parse_from(&["gallo", "pwm", "get-duty", "--channel", "3"]).unwrap();
    assert_eq!(cli.command, Commands::Pwm { command: PwmCommands::GetDuty { channel: 3 } });
    let cli = Cli::try_parse_from(&["gallo", "onewire", "search"]).unwrap();
    assert_eq!(cli.command, Commands::OneWire { command: OneWireCommands::Search });
    let cli = Cli::try_parse_from(&["gallo", "uart", "flush"]).unwrap();
    assert_eq!(cli.command, Commands::Uart { command: UartCommands::Flush });
}
