use nexustui::device::{
    host_part, mirror_report, mirror_target_is_valid, phone_device_entry, phone_listing_command,
    plan_mirror, property_command, with_maker, MirrorPlan,
};

#[test]
fn phone_entry_puts_maker_before_unrelated_name() {
    assert_eq!(
        phone_device_entry("192.168.1.50:5555", "Redmi Note 12\n", "23021RAA2Y\n", "Xiaomi\n"),
        "📱 Xiaomi Redmi Note 12 (192.168.1.50)"
    );
}

#[test]
fn phone_entry_keeps_name_that_mentions_maker() {
    assert_eq!(
        phone_device_entry("192.168.1.50:5555", "XIAOMI 13 Pro", "", "xiaomi"),
        "📱 XIAOMI 13 Pro (192.168.1.50)"
    );
}

#[test]
fn phone_entry_falls_back_to_model_then_generic_name() {
    assert_eq!(phone_device_entry("10.0.0.2:5555", "", "Pixel 7", "Google"), "📱 Google Pixel 7 (10.0.0.2)");
    assert_eq!(phone_device_entry("10.0.0.2:5555", " \n", "Pixel 7", ""), "📱 Pixel 7 (10.0.0.2)");
    assert_eq!(phone_device_entry("10.0.0.2", "", "", "Google"), "📱 Android Device (10.0.0.2)");
}

#[test]
fn maker_join_decides_on_lowercased_forms() {
    assert_eq!(with_maker("Galaxy", "Samsung", "galaxy", "samsung"), "Samsung Galaxy");
    assert_eq!(with_maker("Samsung Galaxy", "Samsung", "samsung galaxy", "samsung"), "Samsung Galaxy");
    assert_eq!(with_maker("Galaxy", "", "galaxy", ""), "Galaxy");
}

#[test]
fn host_is_text_before_first_colon() {
    assert_eq!(host_part("192.168.1.50:5555"), "192.168.1.50");
    assert_eq!(host_part("host"), "host");
    assert_eq!(host_part(":1"), "");
}

#[test]
fn property_query_arguments() {
    let c = property_command("1.2.3.4:5555", "ro.product.model");
    assert_eq!(c.program, "adb");
    assert_eq!(c.args, vec!["-s", "1.2.3.4:5555", "shell", "getprop", "ro.product.model"]);
}

#[test]
fn phone_listing_arguments() {
    let c = phone_listing_command();
    assert_eq!(c.program, "adb");
    assert_eq!(c.args.len(), 4);
    assert_eq!(c.args[0], "-s");
    assert_eq!(c.args[1], "192.168.1.50:5555");
    assert_eq!(c.args[2], "shell");
    assert!(c.args[3].starts_with("ls -tpd /sdcard/Download/NexusTUI/* /sdcard/Download/*"));
    assert!(c.args[3].ends_with("head -n 8"));
}

#[test]
fn this_computer_is_not_mirrored() {
    match plan_mirror("💻 alice (127.0.0.1)") {
        MirrorPlan::Refused(m) => {
            assert_eq!(m, "❌ [ERROR]: Cannot mirror PC! Please select target phone using '↓'.")
        }
        MirrorPlan::Launch { .. } => panic!("this computer must not be mirrored"),
    }
}

#[test]
fn phone_is_mirrored_at_its_address() {
    match plan_mirror("📱 Xiaomi Redmi (192.168.1.50)") {
        MirrorPlan::Launch { notice, command } => {
            assert_eq!(notice, "🚀 [SCRCPY]: Starting 192.168.1.50:5555 (H.265, 60FPS, Screen-Off, PC Audio)...");
            assert_eq!(command.program, "scrcpy");
            assert_eq!(command.args[0], "-s");
            assert_eq!(command.args[1], "192.168.1.50:5555");
            assert_eq!(command.args.len(), 13);
            assert_eq!(command.args[12], "--window-title=NexusTUI - Xiaomi Redmi (192.168.1.50)");
        }
        MirrorPlan::Refused(_) => panic!("a phone can be mirrored"),
    }
}

#[test]
fn mirror_address_keeps_given_port_and_defaults_without_parentheses() {
    match plan_mirror("New Device (joined 192.168.1.7:6000)") {
        MirrorPlan::Launch { command, .. } => assert_eq!(command.args[1], "joined 192.168.1.7:6000"),
        MirrorPlan::Refused(_) => panic!(),
    }
    match plan_mirror("phone") {
        MirrorPlan::Launch { command, .. } => assert_eq!(command.args[1], "192.168.1.50:5555"),
        MirrorPlan::Refused(_) => panic!(),
    }
}

#[test]
fn reversed_parentheses_are_not_a_valid_target() {
    assert!(!mirror_target_is_valid("📱 a) b (c"));
    assert!(mirror_target_is_valid("📱 a (b)"));
    assert!(mirror_target_is_valid("💻 a) (127.0.0.1"));
}

#[test]
fn mirror_diagnostics_are_filtered() {
    assert_eq!(mirror_report("ERROR: no device").as_deref(), Some("⚠️ [SCRCPY]: ERROR: no device"));
    assert_eq!(mirror_report("[server] warning x").as_deref(), Some("⚠️ [SCRCPY]: [server] warning x"));
    assert_eq!(mirror_report("Could not open"), Some("⚠️ [SCRCPY]: Could not open".to_string()));
    assert_eq!(mirror_report("INFO: all good"), None);
}
