use vstd::prelude::*;

verus! {

/// A device found on the local network.
#[derive(Debug)]
pub struct NetworkDevice {
    pub ip: String,
    pub mac: String,
    pub hostname: Option<String>,
}

/// Local network discovery. Interface control and the commands that talk to
/// the system live with the caller; this type holds the discovery results.
pub struct NetworkManager {}

impl NetworkManager {
    /// Builds a network manager.
    pub fn new() -> (r: Self) {
        NetworkManager {  }
    }

    /// Scans the given network for devices. No probe is sent yet: the call
    /// reports the fixed placeholder inventory of a router and one
    /// workstation.
    pub fn arp_scan(&self, _network: &str) -> (r: Vec<NetworkDevice>)
        ensures
            r@.len() == 2,
            r@[0].ip@ == "192.168.1.1"@,
            r@[0].mac@ == "00:11:22:33:44:55"@,
            r@[0].hostname matches Some(h) && h@ == "router"@,
            r@[1].ip@ == "192.168.1.100"@,
            r@[1].mac@ == "AA:BB:CC:DD:EE:FF"@,
            r@[1].hostname matches Some(h) && h@ == "workstation"@,
    {
        let mut devices: Vec<NetworkDevice> = Vec::new();
        devices.push(
            NetworkDevice {
                ip: "192.168.1.1".to_owned(),
                mac: "00:11:22:33:44:55".to_owned(),
                hostname: Some("router".to_owned()),
            },
        );
        devices.push(
            NetworkDevice {
                ip: "192.168.1.100".to_owned(),
                mac: "AA:BB:CC:DD:EE:FF".to_owned(),
                hostname: Some("workstation".to_owned()),
            },
        );
        devices
    }
}

} // verus!
