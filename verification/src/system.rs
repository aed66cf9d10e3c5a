//! Host platform identity: operating system, Pi module and Zymbit module,
//! each detected by ordered substring checks over identity strings that the
//! surrounding program reads from fixed system locations, with the most
//! specific identifiers checked first.

use vstd::prelude::*;
use vstd::string::*;
use crate::strutil::{
    fields_of,
    seq_contains,
    split_on,
    split_str_on,
    str_contains,
    str_fields,
    views_of,
};
use crate::InstallError;

verus! {

/// The host operating system, told apart from the OS release file.
#[derive(PartialEq, Eq, Structural, Clone, Copy, Debug)]
pub enum OperatingSystem {
    Ubuntu,
    RpiBullseye,
    RpiBookworm,
}

/// The Raspberry Pi module, told apart from the device-tree model string.
#[derive(PartialEq, Eq, Structural, Clone, Copy, Debug)]
pub enum PiModule {
    /// Pi Zero 2 W
    Rpi0_64,
    /// Pi 4 or CM 4
    Rpi4_64,
    /// Pi 5 or CM 5
    Rpi5_64,
}

/// The attached Zymbit hardware module.
#[derive(PartialEq, Eq, Structural, Clone, Copy, Debug)]
pub enum ZymbitModule {
    Zymkey,
    Scm,
}

/// The kernel image the platform boots.
#[derive(PartialEq, Eq, Structural, Clone, Copy, Debug)]
pub enum Kernel {
    Vmlinuz,
    Kernel8img,
    Kernel2712img,
}

/// The detected host platform.
#[derive(PartialEq, Eq, Structural, Clone, Copy, Debug)]
pub struct System {
    pub os: OperatingSystem,
    pub pi_module: PiModule,
    pub zymbit_module: ZymbitModule,
}

/// What the OS release text identifies, by ordered substring checks:
/// "Ubuntu" first, then the Debian release names.
pub open spec fn os_of(text: Seq<char>) -> Option<OperatingSystem> {
    if seq_contains(text, "Ubuntu"@) {
        Some(OperatingSystem::Ubuntu)
    } else if seq_contains(text, "bookworm"@) {
        Some(OperatingSystem::RpiBookworm)
    } else if seq_contains(text, "bullseye"@) {
        Some(OperatingSystem::RpiBullseye)
    } else {
        None
    }
}

/// What the device-tree model string identifies, most specific first: a
/// string naming a Pi 5 maps to the Pi 5 module even if it also names a
/// plainer Pi elsewhere.
pub open spec fn pi_module_of(model: Seq<char>) -> Option<PiModule> {
    if seq_contains(model, "Raspberry Pi 5"@) || seq_contains(model, "Compute Module 5"@) {
        Some(PiModule::Rpi5_64)
    } else if seq_contains(model, "Raspberry Pi 4"@) || seq_contains(model, "Compute Module 4"@) {
        Some(PiModule::Rpi4_64)
    } else if seq_contains(model, "Pi Zero 2 W"@) {
        Some(PiModule::Rpi0_64)
    } else {
        None
    }
}

/// The Zymbit module that a count of secure-compute device nodes
/// identifies: any node means a Secure Compute Module, none means a Zymkey.
pub open spec fn zymbit_module_of(zscm_device_count: nat) -> ZymbitModule {
    if zscm_device_count > 0 {
        ZymbitModule::Scm
    } else {
        ZymbitModule::Zymkey
    }
}

/// The Pi module the installer settles on: the explicit override, when one
/// was given, bypasses detection entirely; only without one does the
/// device-tree model string decide.
pub open spec fn pi_module_choice(
    devicetree_model: Option<&str>,
    pi_mod_override: Option<PiModule>,
) -> Option<PiModule> {
    match pi_mod_override {
        Some(m) => Some(m),
        None => match devicetree_model {
            Some(model) => pi_module_of(model@),
            None => None,
        },
    }
}

/// The kernel image a detected platform boots: Ubuntu boots vmlinuz; on the
/// Debian releases the Pi 5 boots kernel_2712.img and the others
/// kernel8.img.
pub open spec fn kernel_of(s: System) -> Kernel {
    if s.os == OperatingSystem::Ubuntu {
        Kernel::Vmlinuz
    } else {
        match s.pi_module {
            PiModule::Rpi0_64 | PiModule::Rpi4_64 => Kernel::Kernel8img,
            PiModule::Rpi5_64 => Kernel::Kernel2712img,
        }
    }
}

/// The device name of the root block device, looked for in the mount table.
pub open spec fn rootdev_name() -> Seq<char> {
    "mmcblk0"@
}

/// The lines of a mount table that name the root block device, in order.
pub open spec fn rootdev_lines(lines: Seq<Seq<char>>) -> Seq<Seq<char>> {
    lines.filter(|l: Seq<char>| seq_contains(l, rootdev_name()))
}

/// Narrowing to root-device lines distributes over concatenation.
pub proof fn lemma_rootdev_lines_add(a: Seq<Seq<char>>, b: Seq<Seq<char>>)
    ensures
        rootdev_lines(a + b) == rootdev_lines(a) + rootdev_lines(b),
{
    Seq::<Seq<char>>::filter_distributes_over_add(
        a,
        b,
        |l: Seq<char>| seq_contains(l, rootdev_name()),
    );
}

/// A single line is kept exactly when it names the root device.
pub proof fn lemma_rootdev_lines_one(l: Seq<char>)
    ensures
        rootdev_lines(seq![l]) == (if seq_contains(l, rootdev_name()) {
            seq![l]
        } else {
            Seq::<Seq<char>>::empty()
        }),
{
    reveal_with_fuel(Seq::filter, 2);
    assert(seq![l].drop_last() =~= Seq::<Seq<char>>::empty());
    if seq_contains(l, rootdev_name()) {
        assert(rootdev_lines(seq![l]) =~= seq![l]);
    } else {
        assert(rootdev_lines(seq![l]) =~= Seq::<Seq<char>>::empty());
    }
}

/// No line of an empty table names the root device.
pub proof fn lemma_rootdev_lines_empty()
    ensures
        rootdev_lines(Seq::<Seq<char>>::empty()) == Seq::<Seq<char>>::empty(),
{
    reveal_with_fuel(Seq::filter, 1);
    assert(rootdev_lines(Seq::<Seq<char>>::empty()) =~= Seq::<Seq<char>>::empty());
}

/// Where the boot partition is mounted, read from the mount table text: the
/// second whitespace-separated field of the first line that names the root
/// block device. Nothing when no line names it, or when the first such line
/// has no second field.
pub open spec fn spec_boot_mountpoint(mounts: Seq<char>) -> Option<Seq<char>> {
    let matching = rootdev_lines(split_on(mounts, '\n'));
    if matching.len() == 0 {
        None
    } else {
        let fs = fields_of(matching[0]);
        if fs.len() < 2 {
            None
        } else {
            Some(fs[1])
        }
    }
}

/// Finds the boot partition's mountpoint in the mount table text.
/// `IOError` when the table has no usable entry for the root device.
#[verifier::rlimit(50)]
pub fn boot_mountpoint(mounts: &str) -> (r: Result<String, InstallError>)
    ensures
        match r {
            Ok(m) => spec_boot_mountpoint(mounts@) == Some(m@),
            Err(e) => e == InstallError::IOError && spec_boot_mountpoint(mounts@) is None,
        },
{
    proof {
        reveal_strlit("mmcblk0");
    }
    let lines = split_str_on(mounts, '\n');
    let ghost lv = views_of(lines@);
    let n: usize = lines.len();
    let mut i: usize = 0;
    proof {
        assert(lv.take(0) =~= Seq::<Seq<char>>::empty());
        lemma_rootdev_lines_empty();
    }
    while i < n
        invariant
            n == lines@.len(),
            i <= n,
            lv == views_of(lines@),
            lv == split_on(mounts@, '\n'),
            rootdev_lines(lv.take(i as int)) == Seq::<Seq<char>>::empty(),
        decreases n - i,
    {
        let found = str_contains(lines[i].as_str(), "mmcblk0");
        proof {
            assert(lv.take(i as int + 1) =~= lv.take(i as int) + seq![lv[i as int]]);
            lemma_rootdev_lines_add(lv.take(i as int), seq![lv[i as int]]);
            lemma_rootdev_lines_one(lv[i as int]);
        }
        if found {
            proof {
                assert(rootdev_lines(lv.take(i as int + 1)) =~= seq![lv[i as int]]);
                assert(lv =~= lv.take(i as int + 1) + lv.skip(i as int + 1));
                lemma_rootdev_lines_add(lv.take(i as int + 1), lv.skip(i as int + 1));
                assert(rootdev_lines(lv)[0] == lv[i as int]);
            }
            let fs = str_fields(lines[i].as_str());
            if fs.len() < 2 {
                return Err(InstallError::IOError);
            }
            let ghost fv = views_of(fs@);
            proof {
                assert(fv[1] == fs@[1]@);
            }
            let field = fs[1].clone();
            return Ok(field);
        }
        i = i + 1;
    }
    proof {
        assert(lv.take(n as int) =~= lv);
    }
    Err(InstallError::IOError)
}

/// What the installer knows of the disk layout. The flags hold the fixed
/// assumptions the tool currently makes; the mountpoints come from the
/// mount table.
#[derive(Debug)]
pub struct DiskLayout {
    pub a_within_half: bool,
    pub cryptroot: bool,
    pub one_root_fs: bool,
    pub active_root: String,
    pub boot_mountpoint: String,
}

impl DiskLayout {
    /// Builds the disk layout from the mount table text: the fixed
    /// assumptions, the root partition device, and the boot mountpoint
    /// found in the table.
    pub fn get(mounts: &str) -> (r: Result<DiskLayout, InstallError>)
        ensures
            match r {
                Ok(d) => {
                    &&& spec_boot_mountpoint(mounts@) == Some(d.boot_mountpoint@)
                    &&& d.a_within_half == true
                    &&& d.cryptroot == true
                    &&& d.one_root_fs == true
                    &&& d.active_root@ == "/dev/mmcblk0p2"@
                },
                Err(e) => e == InstallError::IOError && spec_boot_mountpoint(mounts@) is None,
            },
    {
        let boot = boot_mountpoint(mounts)?;
        Ok(
            DiskLayout {
                a_within_half: true,
                cryptroot: true,
                one_root_fs: true,
                active_root: String::from_str("/dev/mmcblk0p2"),
                boot_mountpoint: boot,
            },
        )
    }
}

impl OperatingSystem {
    /// Detects the operating system from the OS release text.
    /// `UnsupportedPlatform` when no recognized identifier occurs in it.
    pub fn get(os_release_text: &str) -> (r: Result<OperatingSystem, InstallError>)
        ensures
            match r {
                Ok(os) => os_of(os_release_text@) == Some(os),
                Err(e) => e == InstallError::UnsupportedPlatform && os_of(os_release_text@)
                    is None,
            },
    {
        if str_contains(os_release_text, "Ubuntu") {
            Ok(OperatingSystem::Ubuntu)
        } else if str_contains(os_release_text, "bookworm") {
            Ok(OperatingSystem::RpiBookworm)
        } else if str_contains(os_release_text, "bullseye") {
            Ok(OperatingSystem::RpiBullseye)
        } else {
            Err(InstallError::UnsupportedPlatform)
        }
    }

    /// The display name of the operating system.
    pub fn name(&self) -> (s: String)
        ensures
            s@ == self.spec_name(),
    {
        match self {
            OperatingSystem::Ubuntu => String::from_str("Ubuntu"),
            OperatingSystem::RpiBullseye => String::from_str("Rpi-Bullseye"),
            OperatingSystem::RpiBookworm => String::from_str("Rpi-Bookworm"),
        }
    }

    /// The display name of the operating system.
    pub open spec fn spec_name(self) -> Seq<char> {
        match self {
            OperatingSystem::Ubuntu => "Ubuntu"@,
            OperatingSystem::RpiBullseye => "Rpi-Bullseye"@,
            OperatingSystem::RpiBookworm => "Rpi-Bookworm"@,
        }
    }
}

impl PiModule {
    /// Detects the Pi module from the device-tree model string, most
    /// specific identifiers first. `UnsupportedPlatform` when no recognized
    /// identifier occurs in it.
    pub fn get(devicetree_model: &str) -> (r: Result<PiModule, InstallError>)
        ensures
            match r {
                Ok(m) => pi_module_of(devicetree_model@) == Some(m),
                Err(e) => e == InstallError::UnsupportedPlatform && pi_module_of(
                    devicetree_model@,
                ) is None,
            },
    {
        if str_contains(devicetree_model, "Raspberry Pi 5") || str_contains(
            devicetree_model,
            "Compute Module 5",
        ) {
            Ok(PiModule::Rpi5_64)
        } else if str_contains(devicetree_model, "Raspberry Pi 4") || str_contains(
            devicetree_model,
            "Compute Module 4",
        ) {
            Ok(PiModule::Rpi4_64)
        } else if str_contains(devicetree_model, "Pi Zero 2 W") {
            Ok(PiModule::Rpi0_64)
        } else {
            Err(InstallError::UnsupportedPlatform)
        }
    }

    /// The display name of the Pi module.
    pub fn name(&self) -> (s: String)
        ensures
            s@ == self.spec_name(),
    {
        match self {
            PiModule::Rpi0_64 => String::from_str("Raspberry Pi Zero 2 W"),
            PiModule::Rpi4_64 => String::from_str("Raspberry Pi 4/Compute Module 4"),
            PiModule::Rpi5_64 => String::from_str("Raspberry Pi 5/Compute Module 5"),
        }
    }

    /// The display name of the Pi module.
    pub open spec fn spec_name(self) -> Seq<char> {
        match self {
            PiModule::Rpi0_64 => "Raspberry Pi Zero 2 W"@,
            PiModule::Rpi4_64 => "Raspberry Pi 4/Compute Module 4"@,
            PiModule::Rpi5_64 => "Raspberry Pi 5/Compute Module 5"@,
        }
    }
}

impl ZymbitModule {
    /// Identifies the Zymbit module from how many secure-compute device
    /// nodes the surrounding program found.
    pub fn get(zscm_device_count: usize) -> (m: ZymbitModule)
        ensures
            m == zymbit_module_of(zscm_device_count as nat),
    {
        if zscm_device_count > 0 {
            ZymbitModule::Scm
        } else {
            ZymbitModule::Zymkey
        }
    }

    /// The display name of the Zymbit module.
    pub fn name(&self) -> (s: String)
        ensures
            s@ == self.spec_name(),
    {
        match self {
            ZymbitModule::Zymkey => String::from_str("Zymkey"),
            ZymbitModule::Scm => String::from_str("Secure Compute Module"),
        }
    }

    /// The display name of the Zymbit module.
    pub open spec fn spec_name(self) -> Seq<char> {
        match self {
            ZymbitModule::Zymkey => "Zymkey"@,
            ZymbitModule::Scm => "Secure Compute Module"@,
        }
    }
}

impl Kernel {
    /// The file name of the kernel image.
    pub fn name(&self) -> (s: String)
        ensures
            s@ == self.spec_name(),
    {
        match self {
            Kernel::Vmlinuz => String::from_str("vmlinuz"),
            Kernel::Kernel8img => String::from_str("kernel8.img"),
            Kernel::Kernel2712img => String::from_str("kernel_2712.img"),
        }
    }

    /// The file name of the kernel image.
    pub open spec fn spec_name(self) -> Seq<char> {
        match self {
            Kernel::Vmlinuz => "vmlinuz"@,
            Kernel::Kernel8img => "kernel8.img"@,
            Kernel::Kernel2712img => "kernel_2712.img"@,
        }
    }
}

impl System {
    /// Detects the whole platform from the identity strings the surrounding
    /// program read: the OS release text, the device-tree model string when
    /// it could be read, and the count of secure-compute device nodes. An
    /// explicit Pi module override bypasses detection entirely; the model
    /// string decides only when no override was given. `UnsupportedPlatform`
    /// when either the operating system or the Pi module cannot be settled.
    pub fn get(
        os_release_text: &str,
        devicetree_model: Option<&str>,
        pi_mod_override: Option<PiModule>,
        zscm_device_count: usize,
    ) -> (r: Result<System, InstallError>)
        ensures
            match r {
                Ok(s) => {
                    &&& os_of(os_release_text@) == Some(s.os)
                    &&& pi_module_choice(devicetree_model, pi_mod_override) == Some(s.pi_module)
                    &&& s.zymbit_module == zymbit_module_of(zscm_device_count as nat)
                },
                Err(e) => {
                    &&& e == InstallError::UnsupportedPlatform
                    &&& (os_of(os_release_text@) is None || pi_module_choice(
                        devicetree_model,
                        pi_mod_override,
                    ) is None)
                },
            },
    {
        let os = match OperatingSystem::get(os_release_text) {
            Ok(os) => os,
            Err(e) => {
                return Err(e);
            },
        };
        let pi_module = match pi_mod_override {
            Some(m) => m,
            None => match devicetree_model {
                Some(model) => match PiModule::get(model) {
                    Ok(m) => m,
                    Err(e) => {
                        return Err(e);
                    },
                },
                None => {
                    return Err(InstallError::UnsupportedPlatform);
                },
            },
        };
        Ok(System { os, pi_module, zymbit_module: ZymbitModule::get(zscm_device_count) })
    }

    /// The kernel image this platform boots.
    pub fn kernel(&self) -> (k: Kernel)
        ensures
            k == kernel_of(*self),
    {
        if self.os == OperatingSystem::Ubuntu {
            return Kernel::Vmlinuz;
        }
        match &self.pi_module {
            PiModule::Rpi0_64 | PiModule::Rpi4_64 => Kernel::Kernel8img,
            PiModule::Rpi5_64 => Kernel::Kernel2712img,
        }
    }
}

} // verus!
