use memguard::config::{AppConfig, ConfigError};
use memguard::erase::{secure_erase, secure_erase_string, secure_erase_words};
use memguard::guard::{HideOutcome, MemoryObfuscator};
use memguard::menu::{command_continues, parse_command, Command, EhtoolsEnterprise};
use memguard::network::NetworkManager;
use memguard::pages::{
    resolve_protection, DenialReason, PageProtector, Protection, ProtectionDenied,
    ProtectionRequest, Region,
};
use memguard::probe::tracer_present;
use memguard::report::ReportGenerator;
use memguard::sectools::SecurityTools;

#[test]
fn erase_zeroes_prefilled_buffer() {
    let mut buffer: Vec<u8> = vec![0xFF; 32];
    secure_erase(&mut buffer);
    assert_eq!(buffer.len(), 32);
    assert!(buffer.iter().all(|b| *b == 0));
}

#[test]
fn erase_keeps_length_of_arbitrary_contents() {
    let mut buffer: Vec<u8> = (0..100).map(|i| (i * 7 + 3) as u8).collect();
    secure_erase(&mut buffer);
    assert_eq!(buffer.len(), 100);
    assert!(buffer.iter().all(|b| *b == 0));
}

#[test]
fn erase_zeroes_word_storage() {
    let mut buffer: Vec<u64> = vec![u64::MAX, 1, 0xDEAD_BEEF, 42];
    secure_erase_words(&mut buffer);
    assert_eq!(buffer, vec![0, 0, 0, 0]);
}

#[test]
fn erase_zeroes_string_storage_in_place() {
    let mut secret = String::from("session-key-material");
    let byte_len = secret.len();
    secure_erase_string(&mut secret);
    assert_eq!(secret.len(), byte_len);
    assert!(secret.as_bytes().iter().all(|b| *b == 0));
    assert!(secret.chars().all(|c| c == '\0'));
}

#[test]
fn erase_of_multibyte_string_leaves_one_nul_per_byte() {
    let mut text = String::from("café");
    assert_eq!(text.chars().count(), 4);
    assert_eq!(text.len(), 5);
    secure_erase_string(&mut text);
    assert_eq!(text.len(), 5);
    assert_eq!(text.chars().count(), 5);
    assert!(text.bytes().all(|b| b == 0));
}

#[test]
fn erase_of_empty_buffer_is_a_no_op() {
    let mut buffer: Vec<u8> = Vec::new();
    secure_erase(&mut buffer);
    assert!(buffer.is_empty());
}

#[test]
fn mask_twice_restores_original() {
    let guard = MemoryObfuscator::new().expect("entropy source available");
    let original: Vec<u8> = (0..32).collect();
    let mut buffer = original.clone();
    guard.encrypt_in_memory(&mut buffer);
    assert_eq!(buffer.len(), original.len());
    guard.encrypt_in_memory(&mut buffer);
    assert_eq!(buffer, original);
}

#[test]
fn mask_twice_restores_longer_buffer() {
    let guard = MemoryObfuscator::new().expect("entropy source available");
    let original: Vec<u8> = (0..200).map(|i| (i % 251) as u8).collect();
    let mut buffer = original.clone();
    guard.encrypt_in_memory(&mut buffer);
    guard.encrypt_in_memory(&mut buffer);
    assert_eq!(buffer, original);
}

#[test]
fn mask_with_known_key_applies_exact_xor() {
    let guard = MemoryObfuscator::from_key([1u8; 32], true);
    assert!(guard.anti_analysis());
    let original: Vec<u8> = (0..16).collect();
    let mut buffer = original.clone();
    guard.encrypt_in_memory(&mut buffer);
    let expected: Vec<u8> = original.iter().map(|b| b ^ 1).collect();
    assert_eq!(buffer, expected);
    guard.encrypt_in_memory(&mut buffer);
    assert_eq!(buffer, original);
}

#[test]
fn mask_key_repeats_every_thirty_two_bytes() {
    let mut key = [0u8; 32];
    for (i, k) in key.iter_mut().enumerate() {
        *k = i as u8;
    }
    let guard = MemoryObfuscator::from_key(key, false);
    let mut buffer: Vec<u8> = vec![0; 64];
    guard.encrypt_in_memory(&mut buffer);
    for (i, b) in buffer.iter().enumerate() {
        assert_eq!(*b, (i % 32) as u8);
    }
}

#[test]
fn destroy_erases_key_material() {
    let mut guard = MemoryObfuscator::new().expect("entropy source available");
    guard.destroy();
    // With the key material zeroed, masking XORs every byte with zero and
    // leaves the buffer unchanged after a single pass.
    let original: Vec<u8> = (0..64).collect();
    let mut buffer = original.clone();
    guard.encrypt_in_memory(&mut buffer);
    assert_eq!(buffer, original);
}

#[test]
fn hide_is_skipped_when_countermeasures_are_off() {
    let guard = MemoryObfuscator::with_anti_analysis(false).expect("entropy source available");
    let protector = PageProtector::new(4096);
    let region = Region { addr: 4096, len: 4096 };
    assert_eq!(
        guard.hide_memory_pages(&protector, region),
        Ok(HideOutcome::Skipped)
    );
}

#[test]
fn hide_requests_no_access_for_aligned_region() {
    let guard = MemoryObfuscator::new().expect("entropy source available");
    let protector = PageProtector::new(4096);
    let region = Region { addr: 8192, len: 3 * 4096 };
    assert_eq!(
        guard.hide_memory_pages(&protector, region),
        Ok(HideOutcome::Requested(ProtectionRequest {
            region,
            protection: Protection::NoAccess,
        }))
    );
}

#[test]
fn hide_of_three_page_region_is_idempotent() {
    let guard = MemoryObfuscator::new().expect("entropy source available");
    let protector = PageProtector::from_system().expect("platform reports a page size");
    let page = protector.page_size();
    assert!(page > 0);
    let region = Region { addr: 10 * page, len: 3 * page };
    let first = guard.hide_memory_pages(&protector, region);
    let second = guard.hide_memory_pages(&protector, region);
    // The same target state is requested both times; with the operating
    // system accepting each request, both calls succeed.
    assert_eq!(first, second);
    match first {
        Ok(HideOutcome::Requested(_)) => {}
        other => panic!("expected a protection request, got {:?}", other),
    }
    assert_eq!(resolve_protection(region, Ok(())), Ok(()));
    assert_eq!(resolve_protection(region, Ok(())), Ok(()));
}

#[test]
fn hide_of_misaligned_address_is_denied() {
    let guard = MemoryObfuscator::new().expect("entropy source available");
    let protector = PageProtector::from_system().expect("platform reports a page size");
    let page = protector.page_size();
    let region = Region { addr: 10 * page + 1, len: page };
    assert_eq!(
        guard.hide_memory_pages(&protector, region),
        Err(ProtectionDenied {
            region,
            reason: DenialReason::Misaligned,
        })
    );
}

#[test]
fn hide_of_misaligned_length_is_denied() {
    let guard = MemoryObfuscator::new().expect("entropy source available");
    let protector = PageProtector::new(4096);
    let region = Region { addr: 4096, len: 4097 };
    assert_eq!(
        guard.hide_memory_pages(&protector, region),
        Err(ProtectionDenied {
            region,
            reason: DenialReason::Misaligned,
        })
    );
}

#[test]
fn protector_keeps_the_reported_page_size() {
    let protector = PageProtector::of_page_size(16384).expect("positive page size");
    assert_eq!(protector.page_size(), 16384);
    assert!(PageProtector::of_page_size(0).is_none());
}

#[test]
fn os_rejection_carries_region_and_code() {
    let region = Region { addr: 4096, len: 4096 };
    assert_eq!(
        resolve_protection(region, Err(13)),
        Err(ProtectionDenied {
            region,
            reason: DenialReason::OsRejected { code: 13 },
        })
    );
}

#[test]
fn probe_outcome_classification() {
    assert!(!tracer_present(&Ok(())));
    assert!(tracer_present(&Err(1)));
}

#[test]
fn detect_debugger_is_false_when_countermeasures_are_off() {
    let guard = MemoryObfuscator::with_anti_analysis(false).expect("entropy source available");
    assert!(!guard.detect_debugger());
}

#[test]
fn guard_starts_with_countermeasures_on() {
    let guard = MemoryObfuscator::new().expect("entropy source available");
    assert!(guard.anti_analysis());
}

#[test]
fn default_config_values() {
    let config = AppConfig::default();
    assert_eq!(config.network.default_interface, "eth0");
    assert_eq!(config.network.scan_threads, 100);
    assert_eq!(config.network.timeout_seconds, 5);
    assert!(!config.network.monitor_mode);
    assert_eq!(config.security.vulnerability_db_path, "/var/lib/entynet/vulndb");
    assert_eq!(config.security.risk_threshold, "medium");
    assert!(config.security.enable_metasploit);
    assert!(!config.security.enable_nessus);
    assert_eq!(config.reporting.company_name, "Security Team");
    assert_eq!(config.reporting.report_template, "enterprise");
    assert_eq!(config.reporting.output_directory, "/var/reports/entynet");
    assert!(config.reporting.enable_pdf);
    assert!(config.reporting.enable_html);
    assert_eq!(config.api.metasploit_host, "127.0.0.1");
    assert_eq!(config.api.metasploit_port, 55553);
    assert_eq!(config.api.nessus_host, "127.0.0.1");
    assert_eq!(config.api.nessus_port, 8834);
}

#[test]
fn load_returns_default_config() {
    let config = AppConfig::load().expect("load always succeeds");
    assert_eq!(config.network.default_interface, "eth0");
    assert_eq!(config.network.scan_threads, 100);
}

#[test]
fn validate_accepts_default_config() {
    let config = AppConfig::default();
    assert_eq!(config.validate(), Ok(()));
}

#[test]
fn validate_rejects_zero_scan_threads() {
    let mut config = AppConfig::default();
    config.network.scan_threads = 0;
    assert_eq!(config.validate(), Err(ConfigError::ZeroScanThreads));
    assert_eq!(
        ConfigError::ZeroScanThreads.message(),
        "Scan threads must be greater than 0"
    );
}

#[test]
fn arp_scan_reports_placeholder_inventory() {
    let manager = NetworkManager::new();
    let devices = manager.arp_scan("192.168.1.0/24");
    assert_eq!(devices.len(), 2);
    assert_eq!(devices[0].ip, "192.168.1.1");
    assert_eq!(devices[0].mac, "00:11:22:33:44:55");
    assert_eq!(devices[0].hostname.as_deref(), Some("router"));
    assert_eq!(devices[1].ip, "192.168.1.100");
    assert_eq!(devices[1].mac, "AA:BB:CC:DD:EE:FF");
    assert_eq!(devices[1].hostname.as_deref(), Some("workstation"));
}

#[test]
fn report_data_holds_placeholder_pairs() {
    let generator = ReportGenerator::new();
    let data = generator.collect_report_data();
    assert_eq!(data.len(), 2);
    assert_eq!(data[0].0, "scan_date");
    assert_eq!(data[0].1, "2024-01-15");
    assert_eq!(data[1].0, "vulnerabilities_found");
    assert_eq!(data[1].1, "12");
}

#[test]
fn security_tools_handle_can_be_built() {
    let _tools = SecurityTools::new();
}

#[test]
fn parse_command_maps_keywords() {
    assert_eq!(parse_command(&"0".to_owned()), Command::Exit);
    assert_eq!(parse_command(&"exit".to_owned()), Command::Exit);
    assert_eq!(parse_command(&"if".to_owned()), Command::Ifconfig);
    assert_eq!(parse_command(&"ifconfig".to_owned()), Command::Ifconfig);
    assert_eq!(parse_command(&"scan".to_owned()), Command::ArpScan);
    assert_eq!(parse_command(&"1".to_owned()), Command::EnableWlan0);
    assert_eq!(parse_command(&"d1".to_owned()), Command::DisableWlan0);
    assert_eq!(parse_command(&"start".to_owned()), Command::StartMonitorMode);
    assert_eq!(parse_command(&"2".to_owned()), Command::EnableWlan0Mon);
    assert_eq!(parse_command(&"d2".to_owned()), Command::DisableWlan0Mon);
    assert_eq!(parse_command(&"stop".to_owned()), Command::StopMonitorMode);
    assert_eq!(parse_command(&"3".to_owned()), Command::EnableAnonym8);
    assert_eq!(parse_command(&"d3".to_owned()), Command::DisableAnonym8);
    assert_eq!(parse_command(&"4".to_owned()), Command::EnableAnonsurf);
    assert_eq!(parse_command(&"d4".to_owned()), Command::DisableAnonsurf);
    assert_eq!(parse_command(&"errors".to_owned()), Command::FixErrors);
    assert_eq!(parse_command(&"5".to_owned()), Command::AnonsurfStatus);
    assert_eq!(parse_command(&"d5".to_owned()), Command::RestartAnonsurf);
    assert_eq!(parse_command(&"update".to_owned()), Command::CheckUpdates);
    assert_eq!(parse_command(&"s".to_owned()), Command::SettingsMenu);
    assert_eq!(parse_command(&"6".to_owned()), Command::ViewPublicIp);
    assert_eq!(parse_command(&"7".to_owned()), Command::ViewMac);
    assert_eq!(parse_command(&"8".to_owned()), Command::Handshake);
    assert_eq!(parse_command(&"9".to_owned()), Command::FindWpsPin);
    assert_eq!(parse_command(&"10".to_owned()), Command::MitmMenu);
    assert_eq!(parse_command(&"11".to_owned()), Command::AskHowdoi);
    assert_eq!(parse_command(&"12".to_owned()), Command::AutoExploitBrowser);
    assert_eq!(parse_command(&"13".to_owned()), Command::BruteforceLogin);
    assert_eq!(parse_command(&"bogus".to_owned()), Command::Unknown);
}

#[test]
fn dispatch_normalizes_input_before_parsing() {
    let app = EhtoolsEnterprise::new();
    assert_eq!(app.handle_original_command(&"  EXIT \n".to_owned()), Command::Exit);
    assert_eq!(app.handle_original_command(&"Scan".to_owned()), Command::ArpScan);
    assert_eq!(app.handle_original_command(&"13\n".to_owned()), Command::BruteforceLogin);
    assert_eq!(app.handle_original_command(&"nonsense".to_owned()), Command::Unknown);
}

#[test]
fn exit_is_the_only_command_that_stops_the_loop() {
    assert!(!command_continues(&Command::Exit));
    assert!(command_continues(&Command::Ifconfig));
    assert!(command_continues(&Command::Unknown));
}

#[test]
fn tool_identity_and_config_are_fixed() {
    let app = EhtoolsEnterprise::new();
    assert_eq!(app.info.name, "Entynet Hacker Tools");
    assert_eq!(app.info.version, "v3.0.0 : LITE");
    assert_eq!(app.info.core, "TEF : The Ehtools Framework");
    assert_eq!(app.info.developer, "Entynetproject");
    assert_eq!(app.info.website, "entrynetproject.simplesite.com");
    assert_eq!(app.info.plan, "Ehtools Framework : LITE");
    assert_eq!(app.config.network.default_interface, "eth0");
}
