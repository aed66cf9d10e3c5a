use zb_install::system::{
    DiskLayout, Kernel, OperatingSystem, PiModule, System, ZymbitModule,
};
use zb_install::system::boot_mountpoint;
use zb_install::InstallError;

#[test]
fn ubuntu_is_detected_first() {
    let text = "NAME=\"Ubuntu\"\nVERSION_CODENAME=jammy\n";
    assert_eq!(OperatingSystem::get(text), Ok(OperatingSystem::Ubuntu));
}

#[test]
fn debian_releases_are_detected() {
    assert_eq!(
        OperatingSystem::get("PRETTY_NAME=\"Raspbian GNU/Linux 12 (bookworm)\""),
        Ok(OperatingSystem::RpiBookworm)
    );
    assert_eq!(
        OperatingSystem::get("PRETTY_NAME=\"Raspbian GNU/Linux 11 (bullseye)\""),
        Ok(OperatingSystem::RpiBullseye)
    );
}

#[test]
fn unknown_os_is_unsupported() {
    assert_eq!(
        OperatingSystem::get("NAME=\"Arch Linux\""),
        Err(InstallError::UnsupportedPlatform)
    );
}

#[test]
fn pi_five_wins_over_a_plainer_pi_mention() {
    // The model string names a Pi 5 and also holds a bare "Pi" elsewhere;
    // the most specific identifier decides.
    let model = "Raspberry Pi 5 Model B Rev 1.0 (a Pi like any Pi)";
    assert_eq!(PiModule::get(model), Ok(PiModule::Rpi5_64));
}

#[test]
fn compute_modules_are_detected() {
    assert_eq!(PiModule::get("Raspberry Pi Compute Module 5 Rev 1.0"), Ok(PiModule::Rpi5_64));
    assert_eq!(PiModule::get("Raspberry Pi Compute Module 4 Rev 1.1"), Ok(PiModule::Rpi4_64));
}

#[test]
fn pi_zero_two_w_is_detected() {
    assert_eq!(PiModule::get("Raspberry Pi Zero 2 W Rev 1.0"), Ok(PiModule::Rpi0_64));
}

#[test]
fn unknown_model_is_unsupported() {
    assert_eq!(PiModule::get("Banana Pie 3000"), Err(InstallError::UnsupportedPlatform));
}

#[test]
fn zymbit_module_follows_device_count() {
    assert_eq!(ZymbitModule::get(0), ZymbitModule::Zymkey);
    assert_eq!(ZymbitModule::get(2), ZymbitModule::Scm);
}

#[test]
fn system_detection_combines_the_parts() {
    let sys = System::get(
        "PRETTY_NAME=\"Raspbian GNU/Linux 12 (bookworm)\"",
        Some("Raspberry Pi 4 Model B Rev 1.4"),
        None,
        0,
    )
    .expect("detection should succeed");
    assert_eq!(sys.os, OperatingSystem::RpiBookworm);
    assert_eq!(sys.pi_module, PiModule::Rpi4_64);
    assert_eq!(sys.zymbit_module, ZymbitModule::Zymkey);
}

#[test]
fn override_stands_in_when_detection_fails() {
    let sys = System::get(
        "NAME=\"Ubuntu\"",
        Some("Some Unknown Board"),
        Some(PiModule::Rpi0_64),
        1,
    )
    .expect("override should decide");
    assert_eq!(sys.pi_module, PiModule::Rpi0_64);
    assert_eq!(sys.zymbit_module, ZymbitModule::Scm);

    let sys = System::get("NAME=\"Ubuntu\"", None, Some(PiModule::Rpi5_64), 0)
        .expect("override should stand in for a missing model string");
    assert_eq!(sys.pi_module, PiModule::Rpi5_64);
}

#[test]
fn override_bypasses_detection_entirely() {
    // Even a model string that detection would recognize gives way to the
    // explicit override.
    let sys = System::get(
        "NAME=\"Ubuntu\"",
        Some("Raspberry Pi 5 Model B"),
        Some(PiModule::Rpi4_64),
        0,
    )
    .expect("override should decide");
    assert_eq!(sys.pi_module, PiModule::Rpi4_64);
}

#[test]
fn no_model_and_no_override_is_unsupported() {
    assert_eq!(
        System::get("NAME=\"Ubuntu\"", None, None, 0),
        Err(InstallError::UnsupportedPlatform)
    );
    assert_eq!(
        System::get("NAME=\"Ubuntu\"", Some("Some Unknown Board"), None, 0),
        Err(InstallError::UnsupportedPlatform)
    );
}

#[test]
fn kernel_follows_os_then_module() {
    let ubuntu = System {
        os: OperatingSystem::Ubuntu,
        pi_module: PiModule::Rpi5_64,
        zymbit_module: ZymbitModule::Zymkey,
    };
    assert_eq!(ubuntu.kernel(), Kernel::Vmlinuz);

    let pi5 = System { os: OperatingSystem::RpiBookworm, ..ubuntu };
    assert_eq!(pi5.kernel(), Kernel::Kernel2712img);

    let pi4 = System { pi_module: PiModule::Rpi4_64, ..pi5 };
    assert_eq!(pi4.kernel(), Kernel::Kernel8img);

    let zero = System { pi_module: PiModule::Rpi0_64, ..pi5 };
    assert_eq!(zero.kernel(), Kernel::Kernel8img);
}

#[test]
fn names_spell_the_display_strings() {
    assert_eq!(OperatingSystem::RpiBookworm.name(), "Rpi-Bookworm");
    assert_eq!(PiModule::Rpi0_64.name(), "Raspberry Pi Zero 2 W");
    assert_eq!(ZymbitModule::Scm.name(), "Secure Compute Module");
    assert_eq!(Kernel::Kernel2712img.name(), "kernel_2712.img");
}

#[test]
fn boot_mountpoint_reads_the_first_root_device_line() {
    let mounts = "proc /proc proc rw 0 0\n/dev/mmcblk0p2 / ext4 rw 0 0\n/dev/mmcblk0p1 /boot vfat rw 0 0\n";
    assert_eq!(boot_mountpoint(mounts), Ok("/".to_string()));
}

#[test]
fn boot_mountpoint_without_root_device_fails() {
    let mounts = "proc /proc proc rw 0 0\n/dev/sda1 / ext4 rw 0 0\n";
    assert_eq!(boot_mountpoint(mounts), Err(InstallError::IOError));
}

#[test]
fn boot_mountpoint_with_a_short_line_fails() {
    assert_eq!(boot_mountpoint("mmcblk0"), Err(InstallError::IOError));
}

#[test]
fn disk_layout_carries_the_mountpoint() {
    let mounts = "/dev/mmcblk0p1 /boot vfat rw 0 0\n";
    let layout = DiskLayout::get(mounts).expect("layout should build");
    assert_eq!(layout.boot_mountpoint, "/boot");
    assert_eq!(layout.active_root, "/dev/mmcblk0p2");
    assert!(layout.a_within_half);
    assert!(layout.cryptroot);
    assert!(layout.one_root_fs);
}
