//! The published asset names of the tool being installed: one per pairing
//! of Pi module and signing mode, kept as an explicit table. The name is
//! what asset resolution matches, exactly, against a release's asset set.

use vstd::prelude::*;
use vstd::string::*;
use crate::system::PiModule;

verus! {

/// A published asset variant of the tool: a Pi module paired with a signing
/// mode. The hardware variants expect hardware-backed signing support.
#[derive(PartialEq, Eq, Structural, Clone, Copy, Debug)]
pub enum ZbcliAsset {
    Rpi0,
    Rpi0Hardware,
    Rpi4,
    Rpi4Hardware,
    Rpi5,
    Rpi5Hardware,
}

/// The asset variant published for a Pi module and a signing mode.
pub open spec fn asset_for(pi_module: PiModule, use_hardware: bool) -> ZbcliAsset {
    match pi_module {
        PiModule::Rpi0_64 => if use_hardware {
            ZbcliAsset::Rpi0Hardware
        } else {
            ZbcliAsset::Rpi0
        },
        PiModule::Rpi4_64 => if use_hardware {
            ZbcliAsset::Rpi4Hardware
        } else {
            ZbcliAsset::Rpi4
        },
        PiModule::Rpi5_64 => if use_hardware {
            ZbcliAsset::Rpi5Hardware
        } else {
            ZbcliAsset::Rpi5
        },
    }
}

impl ZbcliAsset {
    /// Picks the asset variant for a Pi module and a signing mode.
    pub fn get(pi_module: &PiModule, use_hardware: bool) -> (a: ZbcliAsset)
        ensures
            a == asset_for(*pi_module, use_hardware),
    {
        match pi_module {
            PiModule::Rpi0_64 => if use_hardware {
                ZbcliAsset::Rpi0Hardware
            } else {
                ZbcliAsset::Rpi0
            },
            PiModule::Rpi4_64 => if use_hardware {
                ZbcliAsset::Rpi4Hardware
            } else {
                ZbcliAsset::Rpi4
            },
            PiModule::Rpi5_64 => if use_hardware {
                ZbcliAsset::Rpi5Hardware
            } else {
                ZbcliAsset::Rpi5
            },
        }
    }

    /// The published name of this asset variant.
    pub fn name(&self) -> (s: String)
        ensures
            s@ == self.spec_name(),
    {
        match self {
            ZbcliAsset::Rpi0 => String::from_str("zbcli-rpizero2w"),
            ZbcliAsset::Rpi0Hardware => String::from_str("zbcli-rpizero2w-hardware"),
            ZbcliAsset::Rpi4 => String::from_str("zbcli-rpi4"),
            ZbcliAsset::Rpi4Hardware => String::from_str("zbcli-rpi4-hardware"),
            ZbcliAsset::Rpi5 => String::from_str("zbcli-rpi5"),
            ZbcliAsset::Rpi5Hardware => String::from_str("zbcli-rpi5-hardware"),
        }
    }

    /// The published name of this asset variant.
    pub open spec fn spec_name(self) -> Seq<char> {
        match self {
            ZbcliAsset::Rpi0 => "zbcli-rpizero2w"@,
            ZbcliAsset::Rpi0Hardware => "zbcli-rpizero2w-hardware"@,
            ZbcliAsset::Rpi4 => "zbcli-rpi4"@,
            ZbcliAsset::Rpi4Hardware => "zbcli-rpi4-hardware"@,
            ZbcliAsset::Rpi5 => "zbcli-rpi5"@,
            ZbcliAsset::Rpi5Hardware => "zbcli-rpi5-hardware"@,
        }
    }
}

} // verus!
