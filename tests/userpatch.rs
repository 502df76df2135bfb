use dprun::userpatch::{
    apply_patch, configure_features, decode_hex, install_into, Feature, Injection,
    InstallOptions, InterfaceStyle, IMAGE_LEN,
};

#[test]
fn apply_patch_test() {
    let mut buffer = vec![0u8; 256];
    apply_patch(&mut buffer, 8, &[1u8; 8]);
    assert_eq!(
        &buffer[0..24],
        &[
            0u8, 0u8, 0u8, 0u8, 0u8, 0u8, 0u8, 0u8, 1u8, 1u8, 1u8, 1u8, 1u8, 1u8, 1u8, 1u8,
            0u8, 0u8, 0u8, 0u8, 0u8, 0u8, 0u8, 0u8,
        ]
    );
    apply_patch(&mut buffer, 10, &[2u8; 4]);
    assert_eq!(
        &buffer[0..24],
        &[
            0u8, 0u8, 0u8, 0u8, 0u8, 0u8, 0u8, 0u8, 1u8, 1u8, 2u8, 2u8, 2u8, 2u8, 1u8, 1u8,
            0u8, 0u8, 0u8, 0u8, 0u8, 0u8, 0u8, 0u8,
        ]
    );
}

#[test]
fn decode_hex_test() {
    assert_eq!(decode_hex("ABCDEF"), vec![0xAB_u8, 0xCD_u8, 0xEF_u8]);
    assert_eq!(decode_hex("123456"), vec![0x12_u8, 0x34_u8, 0x56_u8]);
}

#[test]
fn decode_hex_lower_case_and_empty() {
    assert_eq!(decode_hex("0aff"), vec![0x0A_u8, 0xFF_u8]);
    assert_eq!(decode_hex(""), Vec::<u8>::new());
}

#[test]
fn apply_patch_at_the_end() {
    let mut buffer = vec![0u8; 4];
    apply_patch(&mut buffer, 2, &[7u8, 9u8]);
    assert_eq!(buffer, vec![0u8, 0u8, 7u8, 9u8]);
    apply_patch(&mut buffer, 4, &[]);
    assert_eq!(buffer, vec![0u8, 0u8, 7u8, 9u8]);
}

#[test]
fn bare_options_switch_everything_off() {
    let o = InstallOptions::bare();
    assert_eq!(o.interface_style, InterfaceStyle::Centered);
    assert!(!o.water_animation && !o.extended_hotkeys && !o.spec_score_stats);
    assert_eq!(o.setting(&"Disable extended hotkeys".to_string()), Some(true));
    assert_eq!(o.setting(&"Enable water animation".to_string()), Some(false));
    assert_eq!(o.setting(&"Widescreen interface style".to_string()), Some(false));
    assert_eq!(o.setting(&"No such feature".to_string()), None);
}

#[test]
fn default_options() {
    let o = InstallOptions::default();
    assert_eq!(o.interface_style, InterfaceStyle::Widescreen);
    assert!(!o.windowed_mode);
    assert!(o.wine_chatbox && o.extend_population_caps && o.multiplayer_anti_cheat);
    assert!(!o.upnp && !o.debug_logging);
    assert_eq!(o.setting(&"Widescreen interface style".to_string()), Some(true));
    assert_eq!(o.setting(&"Disable rec/spec score stats".to_string()), Some(false));
    assert_eq!(o.setting(&"Allow spectators by default".to_string()), Some(false));
}

#[test]
fn enable_toggles_an_optional_feature() {
    let mut f = Feature::new("Enable water animation".to_string(), true, false, false, vec![]);
    assert!(!f.enabled());
    f.enable(true);
    assert!(f.enabled());
    f.enable(false);
    assert!(!f.enabled());
}

fn catalogue() -> Vec<Feature> {
    vec![
        Feature::new(
            "Pre-patch".to_string(),
            false,
            false,
            true,
            vec![Injection { address: 0x10, bytes: vec![0xAA, 0xBB] }],
        ),
        Feature::new(
            "Enable water animation".to_string(),
            true,
            false,
            false,
            vec![Injection { address: 0x401000, bytes: vec![0x90] }],
        ),
        Feature::new(
            "Disable water movement".to_string(),
            true,
            false,
            true,
            vec![Injection { address: 0x7A5010, bytes: vec![0xCC] }],
        ),
    ]
}

#[test]
fn configure_features_follows_options() {
    let mut features = catalogue();
    configure_features(&mut features, &InstallOptions::default());
    assert!(features[0].enabled());
    assert!(features[1].enabled());
    assert!(!features[2].enabled());
    configure_features(&mut features, &InstallOptions::bare());
    assert!(features[0].enabled());
    assert!(!features[1].enabled());
    assert!(features[2].enabled());
}

#[test]
fn install_into_extends_and_patches() {
    let exe = vec![1u8, 2, 3];
    let out = install_into(&exe, &catalogue(), &InstallOptions::default());
    assert_eq!(out.len(), IMAGE_LEN);
    assert_eq!(&out[0..3], &[1u8, 2, 3]);
    assert_eq!(&out[0x10..0x12], &[0xAAu8, 0xBB]);
    assert_eq!(out[0x1000], 0x90);
    assert_eq!(out[0x293010], 0);
    let bare = install_into(&exe, &catalogue(), &InstallOptions::bare());
    assert_eq!(bare[0x1000], 0);
    assert_eq!(bare[0x293010], 0xCC);
}

#[test]
fn interface_style_names() {
    assert_eq!("left".parse::<InterfaceStyle>(), Ok(InterfaceStyle::LeftAligned));
    assert_eq!("center".parse::<InterfaceStyle>(), Ok(InterfaceStyle::Centered));
    assert_eq!("wide".parse::<InterfaceStyle>(), Ok(InterfaceStyle::Widescreen));
    assert_eq!("widescreen".parse::<InterfaceStyle>(), Ok(InterfaceStyle::Widescreen));
    assert!("right".parse::<InterfaceStyle>().is_err());
}
