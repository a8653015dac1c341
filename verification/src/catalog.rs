//! The macOS versions that can be installed, the VM rails they are
//! imported as, and the VM graphics devices.
use vstd::prelude::*;
use crate::text::{owned, str_eq};

verus! {

/// The Apple board id, MLB and OS type that `fetch-macOS-v2.py` is given
/// to download the recovery image of a macOS version.
pub open spec fn spec_recovery_params(version: Seq<char>) -> Option<(Seq<char>, Seq<char>, Seq<char>)> {
    if version == "macOS 11 Big Sur"@ {
        Some(("Mac-2BD1B31983FE1663"@, "00000000000000000"@, "default"@))
    } else if version == "macOS 12 Monterey"@ {
        Some(("Mac-B809C3757DA9BB8D"@, "00000000000000000"@, "latest"@))
    } else if version == "macOS 13 Ventura"@ {
        Some(("Mac-4B682C642B45593E"@, "00000000000000000"@, "latest"@))
    } else if version == "macOS 14 Sonoma"@ {
        Some(("Mac-827FAC58A8FDFA22"@, "00000000000000000"@, "default"@))
    } else if version == "macOS 15 Sequoia"@ {
        Some(("Mac-7BA5B2D9E42DDD94"@, "00000000000000000"@, "default"@))
    } else if version == "macOS 26 Tahoe"@ {
        Some(("Mac-CFF7D910A743CAAF"@, "00000000000000000"@, "latest"@))
    } else {
        None
    }
}

pub fn recovery_params(version: &str) -> (r: Option<(&'static str, &'static str, &'static str)>)
    ensures
        match r {
            Some(p) => spec_recovery_params(version@) == Some((p.0@, p.1@, p.2@)),
            None => spec_recovery_params(version@) is None,
        },
{
    if str_eq(version, "macOS 11 Big Sur") {
        Some(("Mac-2BD1B31983FE1663", "00000000000000000", "default"))
    } else if str_eq(version, "macOS 12 Monterey") {
        Some(("Mac-B809C3757DA9BB8D", "00000000000000000", "latest"))
    } else if str_eq(version, "macOS 13 Ventura") {
        Some(("Mac-4B682C642B45593E", "00000000000000000", "latest"))
    } else if str_eq(version, "macOS 14 Sonoma") {
        Some(("Mac-827FAC58A8FDFA22", "00000000000000000", "default"))
    } else if str_eq(version, "macOS 15 Sequoia") {
        Some(("Mac-7BA5B2D9E42DDD94", "00000000000000000", "default"))
    } else if str_eq(version, "macOS 26 Tahoe") {
        Some(("Mac-CFF7D910A743CAAF", "00000000000000000", "latest"))
    } else {
        None
    }
}

/// The reims-vGPU rail that a macOS version is imported as.
pub open spec fn spec_rail_for(version: Seq<char>) -> Option<Seq<char>> {
    if version == "macOS 11 Big Sur"@ {
        Some("macos-11"@)
    } else if version == "macOS 12 Monterey"@ {
        Some("macos-12"@)
    } else if version == "macOS 13 Ventura"@ {
        Some("macos-13"@)
    } else if version == "macOS 14 Sonoma"@ {
        Some("macos-14"@)
    } else if version == "macOS 15 Sequoia"@ {
        Some("macos-15"@)
    } else if version == "macOS 26 Tahoe"@ {
        Some("macos-26"@)
    } else {
        None
    }
}

pub fn rail_for(version: &str) -> (r: Option<&'static str>)
    ensures
        match r {
            Some(p) => spec_rail_for(version@) == Some(p@),
            None => spec_rail_for(version@) is None,
        },
{
    if str_eq(version, "macOS 11 Big Sur") {
        Some("macos-11")
    } else if str_eq(version, "macOS 12 Monterey") {
        Some("macos-12")
    } else if str_eq(version, "macOS 13 Ventura") {
        Some("macos-13")
    } else if str_eq(version, "macOS 14 Sonoma") {
        Some("macos-14")
    } else if str_eq(version, "macOS 15 Sequoia") {
        Some("macos-15")
    } else if str_eq(version, "macOS 26 Tahoe") {
        Some("macos-26")
    } else {
        None
    }
}

/// The rails that can be installed, with their display names.
pub open spec fn rail_names() -> Seq<(Seq<char>, Seq<char>)> {
    seq![
        ("macos-11"@, "macOS 11 Big Sur"@),
        ("macos-12"@, "macOS 12 Monterey"@),
        ("macos-13"@, "macOS 13 Ventura"@),
        ("macos-14"@, "macOS 14 Sonoma"@),
        ("macos-15"@, "macOS 15 Sequoia"@),
        ("macos-26"@, "macOS 26 Tahoe"@),
    ]
}

/// Rail `i` and its display name.
pub fn rail_name(i: usize) -> (r: (&'static str, &'static str))
    requires
        i < 6,
    ensures
        (r.0@, r.1@) == rail_names()[i as int],
{
    match i {
        0 => ("macos-11", "macOS 11 Big Sur"),
        1 => ("macos-12", "macOS 12 Monterey"),
        2 => ("macos-13", "macOS 13 Ventura"),
        3 => ("macos-14", "macOS 14 Sonoma"),
        4 => ("macos-15", "macOS 15 Sequoia"),
        _ => ("macos-26", "macOS 26 Tahoe"),
    }
}

/// The name a VM graphics device has in status messages.
pub open spec fn spec_device_label(device: Seq<char>) -> Seq<char> {
    if device == "reims-vgpu-pci"@ {
        "reims-vGPU"@
    } else if device == "vmware-svga"@ {
        "VMware SVGA"@
    } else {
        "unknown device"@
    }
}

pub fn device_label(device: &str) -> (r: &'static str)
    ensures
        r@ == spec_device_label(device@),
{
    if str_eq(device, "reims-vgpu-pci") {
        "reims-vGPU"
    } else if str_eq(device, "vmware-svga") {
        "VMware SVGA"
    } else {
        "unknown device"
    }
}

/// The name a VM graphics device has on the VM page.
pub open spec fn spec_device_name(device: Seq<char>) -> Seq<char> {
    if device == "reims-vgpu-pci"@ {
        "reims-vGPU"@
    } else if device == "vmware-svga"@ {
        "VMware SVGA"@
    } else {
        "Unknown"@
    }
}

pub fn device_name(device: &str) -> (r: String)
    ensures
        r@ == spec_device_name(device@),
{
    if str_eq(device, "reims-vgpu-pci") {
        owned("reims-vGPU")
    } else if str_eq(device, "vmware-svga") {
        owned("VMware SVGA")
    } else {
        owned("Unknown")
    }
}

/// The recovery catalog: the board id, MLB and OS type each macOS version
/// is downloaded with, and no parameters for any other name.
pub proof fn lemma_recovery_catalog(version: Seq<char>)
    ensures
        spec_recovery_params("macOS 11 Big Sur"@) == Some(
            ("Mac-2BD1B31983FE1663"@, "00000000000000000"@, "default"@),
        ),
        spec_recovery_params("macOS 12 Monterey"@) == Some(
            ("Mac-B809C3757DA9BB8D"@, "00000000000000000"@, "latest"@),
        ),
        spec_recovery_params("macOS 13 Ventura"@) == Some(
            ("Mac-4B682C642B45593E"@, "00000000000000000"@, "latest"@),
        ),
        spec_recovery_params("macOS 14 Sonoma"@) == Some(
            ("Mac-827FAC58A8FDFA22"@, "00000000000000000"@, "default"@),
        ),
        spec_recovery_params("macOS 15 Sequoia"@) == Some(
            ("Mac-7BA5B2D9E42DDD94"@, "00000000000000000"@, "default"@),
        ),
        spec_recovery_params("macOS 26 Tahoe"@) == Some(
            ("Mac-CFF7D910A743CAAF"@, "00000000000000000"@, "latest"@),
        ),
        spec_recovery_params(version) is Some <==> (version == "macOS 11 Big Sur"@ || version
            == "macOS 12 Monterey"@ || version == "macOS 13 Ventura"@ || version == "macOS 14 Sonoma"@
            || version == "macOS 15 Sequoia"@ || version == "macOS 26 Tahoe"@),
{
    reveal_strlit("macOS 11 Big Sur");
    reveal_strlit("macOS 12 Monterey");
    reveal_strlit("macOS 13 Ventura");
    reveal_strlit("macOS 14 Sonoma");
    reveal_strlit("macOS 15 Sequoia");
    reveal_strlit("macOS 26 Tahoe");
    assert("macOS 11 Big Sur"@[7] == '1');
    assert("macOS 12 Monterey"@[7] == '2');
    assert("macOS 13 Ventura"@[7] == '3');
    assert("macOS 14 Sonoma"@[7] == '4');
    assert("macOS 15 Sequoia"@[7] == '5');
    assert("macOS 26 Tahoe"@[7] == '6');
}

} // verus!
