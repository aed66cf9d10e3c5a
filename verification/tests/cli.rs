use zb_install::installer_cli::{parse_args, CliAction, CliError};
use zb_install::system::PiModule;

fn args(list: &[&str]) -> Vec<String> {
    list.iter().map(|s| s.to_string()).collect()
}

fn run(list: &[&str]) -> Result<CliAction, CliError> {
    parse_args(&args(list))
}

#[test]
fn no_arguments_leave_everything_to_prompts() {
    match run(&[]).unwrap() {
        CliAction::Run(ia) => {
            assert!(ia.use_hw.is_none());
            assert!(ia.zb_version.is_none());
            assert!(ia.rpi_model.is_none());
        }
        CliAction::Help => panic!("no help was asked for"),
    }
}

#[test]
fn help_wins_immediately() {
    assert!(matches!(run(&["-h"]).unwrap(), CliAction::Help));
    assert!(matches!(run(&["--help", "--bogus"]).unwrap(), CliAction::Help));
}

#[test]
fn signing_flags_set_the_choice() {
    match run(&["--with-hardware-signing"]).unwrap() {
        CliAction::Run(ia) => assert_eq!(ia.use_hw, Some(true)),
        CliAction::Help => panic!(),
    }
    match run(&["--with-software-signing"]).unwrap() {
        CliAction::Run(ia) => assert_eq!(ia.use_hw, Some(false)),
        CliAction::Help => panic!(),
    }
    // A later flag overrides an earlier one.
    match run(&["--with-hardware-signing", "--with-software-signing"]).unwrap() {
        CliAction::Run(ia) => assert_eq!(ia.use_hw, Some(false)),
        CliAction::Help => panic!(),
    }
}

#[test]
fn version_flag_takes_its_value() {
    match run(&["--zb-version", "1.0.0"]).unwrap() {
        CliAction::Run(ia) => assert_eq!(ia.zb_version.as_deref(), Some("1.0.0")),
        CliAction::Help => panic!(),
    }
}

#[test]
fn version_flag_needs_a_value() {
    assert_eq!(run(&["--zb-version"]).unwrap_err(), CliError::MissingZbVersionValue);
    // The next flag is not mistaken for the value.
    assert_eq!(
        run(&["--zb-version", "--with-hardware-signing"]).unwrap_err(),
        CliError::MissingZbVersionValue
    );
}

#[test]
fn model_flag_names_a_module() {
    match run(&["--rpi-model", "Pi4"]).unwrap() {
        CliAction::Run(ia) => assert_eq!(ia.rpi_model, Some(PiModule::Rpi4_64)),
        CliAction::Help => panic!(),
    }
    match run(&["--rpi-model", "pi5"]).unwrap() {
        CliAction::Run(ia) => assert_eq!(ia.rpi_model, Some(PiModule::Rpi5_64)),
        CliAction::Help => panic!(),
    }
    match run(&["--rpi-model", "PiZero2W"]).unwrap() {
        CliAction::Run(ia) => assert_eq!(ia.rpi_model, Some(PiModule::Rpi0_64)),
        CliAction::Help => panic!(),
    }
}

#[test]
fn model_flag_followed_by_a_flag_is_ignored() {
    // A flag standing where the model should be is consumed and ignored,
    // leaving detection to decide.
    match run(&["--rpi-model", "--with-hardware-signing"]).unwrap() {
        CliAction::Run(ia) => {
            assert!(ia.rpi_model.is_none());
            assert!(ia.use_hw.is_none());
        }
        CliAction::Help => panic!(),
    }
}

#[test]
fn model_flag_needs_an_argument() {
    assert_eq!(run(&["--rpi-model"]).unwrap_err(), CliError::MissingRpiModelValue);
}

#[test]
fn unknown_model_fails() {
    assert_eq!(run(&["--rpi-model", "Banana"]).unwrap_err(), CliError::UnknownModelSpec);
}

#[test]
fn unexpected_argument_fails() {
    assert_eq!(run(&["--bogus"]).unwrap_err(), CliError::UnexpectedArgument);
    assert_eq!(run(&["1.0.0"]).unwrap_err(), CliError::UnexpectedArgument);
}

#[test]
fn flags_combine() {
    match run(&["--with-hardware-signing", "--zb-version", "latest", "--rpi-model", "Pi5"]).unwrap()
    {
        CliAction::Run(ia) => {
            assert_eq!(ia.use_hw, Some(true));
            assert_eq!(ia.zb_version.as_deref(), Some("latest"));
            assert_eq!(ia.rpi_model, Some(PiModule::Rpi5_64));
        }
        CliAction::Help => panic!(),
    }
}
