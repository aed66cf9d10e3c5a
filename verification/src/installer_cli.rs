//! Command-line argument handling: the flags the installer understands,
//! parsed from the plain argument strings the surrounding program was
//! started with (the program name already stripped).

use vstd::prelude::*;
use crate::strutil::{seq_contains, str_contains, str_eq};
use crate::system::PiModule;

verus! {

/// The flag overrides given on the command line. A `None` means the flag
/// was absent and the installer prompts or detects instead.
#[derive(Debug)]
pub struct InstallerArgs {
    /// Hardware-backed signing wanted; `None` prompts interactively.
    pub use_hw: Option<bool>,
    /// Explicit version or "latest"; `None` prompts from a list.
    pub zb_version: Option<String>,
    /// Explicit Pi module, bypassing detection.
    pub rpi_model: Option<PiModule>,
}

/// The ghost image of [`InstallerArgs`]: the same choices over character
/// sequences.
pub struct SpecArgs {
    pub use_hw: Option<bool>,
    pub zb_version: Option<Seq<char>>,
    pub rpi_model: Option<PiModule>,
}

impl View for InstallerArgs {
    type V = SpecArgs;

    open spec fn view(&self) -> SpecArgs {
        SpecArgs {
            use_hw: self.use_hw,
            zb_version: match self.zb_version {
                Some(s) => Some(s@),
                None => None,
            },
            rpi_model: self.rpi_model,
        }
    }
}

/// What argument parsing asks the program to do: show the usage text, or
/// run with the parsed flags.
#[derive(Debug)]
pub enum CliAction {
    Help,
    Run(InstallerArgs),
}

/// The ways argument parsing can fail.
#[derive(Debug, PartialEq, Eq, Structural, Clone, Copy)]
pub enum CliError {
    /// `--zb-version` stood last or before another flag.
    MissingZbVersionValue,
    /// `--rpi-model` stood last.
    MissingRpiModelValue,
    /// The model argument names no known Pi platform.
    UnknownModelSpec,
    /// An argument that is no flag of this program.
    UnexpectedArgument,
}

/// An argument that looks like a flag: it starts with a dash.
pub open spec fn arg_is_flag(a: Seq<char>) -> bool {
    a.len() > 0 && a[0] == '-'
}

/// The Pi module a model argument names: anything holding a "4" names the
/// Pi 4, then anything holding a "5" the Pi 5, then anything holding
/// "Zero" the Pi Zero 2 W.
pub open spec fn model_of(v: Seq<char>) -> Option<PiModule> {
    if seq_contains(v, "4"@) {
        Some(PiModule::Rpi4_64)
    } else if seq_contains(v, "5"@) {
        Some(PiModule::Rpi5_64)
    } else if seq_contains(v, "Zero"@) {
        Some(PiModule::Rpi0_64)
    } else {
        None
    }
}

/// What parsing can come to.
pub enum SpecParse {
    Help,
    Run(SpecArgs),
    Fail(CliError),
}

/// What parsing the remaining arguments yields, flag by flag, starting from
/// the choices gathered so far. A help flag wins immediately; a value flag
/// consumes the argument after it; `--rpi-model` followed by another flag
/// consumes and ignores it.
pub open spec fn parse_from(args: Seq<Seq<char>>, acc: SpecArgs) -> SpecParse
    decreases args.len(),
{
    if args.len() == 0 {
        SpecParse::Run(acc)
    } else {
        let a = args[0];
        if a == "-h"@ || a == "--help"@ {
            SpecParse::Help
        } else if a == "--with-hardware-signing"@ {
            parse_from(args.skip(1), SpecArgs { use_hw: Some(true), ..acc })
        } else if a == "--with-software-signing"@ {
            parse_from(args.skip(1), SpecArgs { use_hw: Some(false), ..acc })
        } else if a == "--zb-version"@ {
            if args.len() >= 2 && !arg_is_flag(args[1]) {
                parse_from(args.skip(2), SpecArgs { zb_version: Some(args[1]), ..acc })
            } else {
                SpecParse::Fail(CliError::MissingZbVersionValue)
            }
        } else if a == "--rpi-model"@ {
            if args.len() < 2 {
                SpecParse::Fail(CliError::MissingRpiModelValue)
            } else if arg_is_flag(args[1]) {
                parse_from(args.skip(2), acc)
            } else if model_of(args[1]) is Some {
                parse_from(args.skip(2), SpecArgs { rpi_model: model_of(args[1]), ..acc })
            } else {
                SpecParse::Fail(CliError::UnknownModelSpec)
            }
        } else {
            SpecParse::Fail(CliError::UnexpectedArgument)
        }
    }
}

/// The choices before any argument is read: everything absent.
pub open spec fn no_args() -> SpecArgs {
    SpecArgs { use_hw: None, zb_version: None, rpi_model: None }
}

/// The views of the argument strings.
pub open spec fn arg_views(args: Seq<String>) -> Seq<Seq<char>> {
    args.map_values(|a: String| a@)
}

/// Whether the argument looks like a flag.
fn is_flag_arg(a: &str) -> (b: bool)
    ensures
        b == arg_is_flag(a@),
{
    a.unicode_len() > 0 && a.get_char(0) == '-'
}

/// Parses the command-line arguments (without the program name) into the
/// action to take: the usage text, or a run with the gathered flag
/// overrides; or the error the arguments deserve.
pub fn parse_args(args: &Vec<String>) -> (r: Result<CliAction, CliError>)
    ensures
        match r {
            Ok(a) => match a {
                CliAction::Help => parse_from(arg_views(args@), no_args()) == SpecParse::Help,
                CliAction::Run(ia) => parse_from(arg_views(args@), no_args()) == SpecParse::Run(
                    ia@,
                ),
            },
            Err(e) => parse_from(arg_views(args@), no_args()) == SpecParse::Fail(e),
        },
{
    let ghost full = arg_views(args@);
    let n: usize = args.len();
    let mut use_hw: Option<bool> = None;
    let mut zb_version: Option<String> = None;
    let mut rpi_model: Option<PiModule> = None;
    let mut i: usize = 0;
    proof {
        assert(full.skip(0) =~= full);
    }
    while i < n
        invariant
            n == args@.len(),
            i <= n,
            full == arg_views(args@),
            parse_from(full, no_args()) == parse_from(
                full.skip(i as int),
                SpecArgs {
                    use_hw: use_hw,
                    zb_version: match zb_version {
                        Some(s) => Some(s@),
                        None => None,
                    },
                    rpi_model: rpi_model,
                },
            ),
        decreases n - i,
    {
        proof {
            assert(full[i as int] == args@[i as int]@);
            assert(full.skip(i as int)[0] == full[i as int]);
            assert(full.skip(i as int).skip(1) =~= full.skip(i as int + 1));
        }
        let arg = &args[i];
        if str_eq(arg.as_str(), "-h") || str_eq(arg.as_str(), "--help") {
            return Ok(CliAction::Help);
        } else if str_eq(arg.as_str(), "--with-hardware-signing") {
            use_hw = Some(true);
            i = i + 1;
        } else if str_eq(arg.as_str(), "--with-software-signing") {
            use_hw = Some(false);
            i = i + 1;
        } else if str_eq(arg.as_str(), "--zb-version") {
            if i + 1 < n {
                proof {
                    assert(full.skip(i as int)[1] == full[i as int + 1]);
                    assert(full.skip(i as int).skip(2) =~= full.skip(i as int + 2));
                }
                let val = &args[i + 1];
                if !is_flag_arg(val.as_str()) {
                    zb_version = Some(val.clone());
                    i = i + 2;
                    continue ;
                }
            }
            return Err(CliError::MissingZbVersionValue);
        } else if str_eq(arg.as_str(), "--rpi-model") {
            if i + 1 >= n {
                return Err(CliError::MissingRpiModelValue);
            }
            proof {
                assert(full.skip(i as int)[1] == full[i as int + 1]);
                assert(full.skip(i as int).skip(2) =~= full.skip(i as int + 2));
            }
            let val = &args[i + 1];
            if is_flag_arg(val.as_str()) {
                i = i + 2;
            } else if str_contains(val.as_str(), "4") {
                rpi_model = Some(PiModule::Rpi4_64);
                i = i + 2;
            } else if str_contains(val.as_str(), "5") {
                rpi_model = Some(PiModule::Rpi5_64);
                i = i + 2;
            } else if str_contains(val.as_str(), "Zero") {
                rpi_model = Some(PiModule::Rpi0_64);
                i = i + 2;
            } else {
                return Err(CliError::UnknownModelSpec);
            }
        } else {
            return Err(CliError::UnexpectedArgument);
        }
    }
    proof {
        assert(full.skip(n as int).len() == 0);
    }
    Ok(CliAction::Run(InstallerArgs { use_hw, zb_version, rpi_model }))
}

} // verus!
