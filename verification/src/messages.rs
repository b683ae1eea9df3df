//! Pre-authored message lists the stages draw on: pure data.
use vstd::prelude::*;
use vstd::string::StringExecFns;

verus! {

/// Easter-egg messages that may appear during installation.
pub fn easter_eggs() -> (r: Vec<String>)
    ensures
        r@.len() == 8,
{
    let mut v: Vec<String> = Vec::new();
    v.push(String::from_str("Reticulating splines..."));
    v.push(String::from_str("Calibrating flux capacitor..."));
    v.push(String::from_str("Reversing polarity of neutron flow..."));
    v.push(String::from_str("Initializing holodeck subroutines..."));
    v.push(String::from_str("Downloading more RAM..."));
    v.push(String::from_str("Dividing by zero... Just kidding!"));
    v.push(String::from_str("Asking politely for system resources..."));
    v.push(String::from_str("Convincing AI not to take over..."));
    v
}

/// Warning messages that may appear during installation.
pub fn warnings() -> (r: Vec<String>)
    ensures
        r@.len() == 4,
{
    let mut v: Vec<String> = Vec::new();
    v.push(String::from_str("WARNING: Package version mismatch, attempting compatibility mode..."));
    v.push(String::from_str("WARNING: Checksum verification skipped (--force flag detected)"));
    v.push(
        String::from_str("WARNING: Deprecated dependency detected, adding to legacy support list"),
    );
    v.push(String::from_str("WARNING: Mirror responded slowly, may switch to backup"));
    v
}

/// Retry messages for simulated connection issues.
pub fn retry_messages() -> (r: Vec<String>)
    ensures
        r@.len() == 3,
{
    let mut v: Vec<String> = Vec::new();
    v.push(String::from_str("Connection timeout... Retrying (Attempt 2/5)"));
    v.push(String::from_str("Network error... Attempting reconnection"));
    v.push(String::from_str("Mirror unresponsive, trying alternate server"));
    v
}

/// System components to initialize.
pub fn system_components() -> (r: Vec<String>)
    ensures
        r@.len() == 5,
{
    let mut v: Vec<String> = Vec::new();
    v.push(String::from_str("Loading kernel modules"));
    v.push(String::from_str("Mounting root filesystem (ext3)"));
    v.push(String::from_str("Initializing network interfaces"));
    v.push(String::from_str("Starting system daemons"));
    v.push(String::from_str("Configuring system clock"));
    v
}

/// Hardware drivers to install: device and driver name.
pub fn drivers() -> (r: Vec<(String, String)>)
    ensures
        r@.len() == 5,
{
    let mut v: Vec<(String, String)> = Vec::new();
    v.push((String::from_str("VGA Graphics Adapter"), String::from_str("VESA 2.0 Compatible")));
    v.push((String::from_str("Sound Blaster 16"), String::from_str("Creative Labs")));
    v.push((String::from_str("Intel 82540EM Gigabit Ethernet"), String::from_str("e1000")));
    v.push((String::from_str("PS/2 Mouse"), String::from_str("Generic")));
    v.push((String::from_str("USB 1.1 UHCI Controller"), String::from_str("usb-uhci")));
    v
}

/// Packages to install.
pub fn packages() -> (r: Vec<String>)
    ensures
        r@.len() == 10,
{
    let mut v: Vec<String> = Vec::new();
    v.push(String::from_str("libc6:amd64"));
    v.push(String::from_str("libgtk-2.0-0"));
    v.push(String::from_str("python2.7-minimal"));
    v.push(String::from_str("perl-base"));
    v.push(String::from_str("gcc-4.8"));
    v.push(String::from_str("make"));
    v.push(String::from_str("binutils"));
    v.push(String::from_str("libjpeg62"));
    v.push(String::from_str("libpng12-0"));
    v.push(String::from_str("libssl1.0.0"));
    v
}

/// Retro software to install: name, version, size in KB.
pub fn retro_software() -> (r: Vec<(String, String, u32)>)
    ensures
        r@.len() == 5,
        forall|i: int| 0 <= i < r@.len() ==> (#[trigger] r@[i]).2 <= 100000,
{
    let mut v: Vec<(String, String, u32)> = Vec::new();
    v.push((String::from_str("Netscape Navigator"), String::from_str("4.79"), 15234));
    v.push((String::from_str("WinAmp"), String::from_str("2.95"), 3421));
    v.push((String::from_str("mIRC"), String::from_str("6.35"), 1876));
    v.push((String::from_str("RealPlayer"), String::from_str("8.0"), 8932));
    v.push((String::from_str("Adobe Flash Player"), String::from_str("7.0"), 2341));
    v
}

/// Optimization tasks.
pub fn optimization_tasks() -> (r: Vec<String>)
    ensures
        r@.len() == 5,
{
    let mut v: Vec<String> = Vec::new();
    v.push(String::from_str("Defragmenting installation cache"));
    v.push(String::from_str("Rebuilding font cache"));
    v.push(String::from_str("Updating shared library cache"));
    v.push(String::from_str("Optimizing package database"));
    v.push(String::from_str("Generating manual page index"));
    v
}

} // verus!
