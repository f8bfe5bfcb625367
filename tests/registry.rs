use linuxblaster_control::registry::{all_ids, eq_bands, Format, FeatureId, ValueKind};

#[test]
fn test_sound_feature_ids() {
    assert_eq!(FeatureId::SurroundToggle.dsp_address(), Some((0x96, 0x00)));
    assert_eq!(FeatureId::CrystalizerToggle.dsp_address(), Some((0x96, 0x07)));
    assert_eq!(FeatureId::BassToggle.dsp_address(), Some((0x96, 0x18)));
    assert_eq!(FeatureId::SmartVolToggle.dsp_address(), Some((0x96, 0x04)));
    assert_eq!(FeatureId::DialogPlusToggle.dsp_address(), Some((0x96, 0x02)));
    // Night and loud mode share the smart-volume mode byte.
    assert_eq!(FeatureId::SmartVolMode.dsp_address(), Some((0x96, 0x06)));
    assert_eq!(FeatureId::EqToggle.dsp_address(), Some((0x96, 0x09)));
    assert_eq!(FeatureId::Eq31Hz.dsp_address(), Some((0x96, 0x0b)));
    assert_eq!(FeatureId::SbxMaster.dsp_address(), None);
    assert_eq!(FeatureId::Output.dsp_address(), None);
}

#[test]
fn test_equalizer_bands() {
    let bands = eq_bands();
    assert_eq!(bands.len(), 10);
    let expected_ids = [0x0b, 0x0c, 0x0d, 0x0e, 0x0f, 0x10, 0x11, 0x12, 0x13, 0x14];
    for (i, expected_id) in expected_ids.iter().enumerate() {
        assert_eq!(
            bands[i].dsp_address().unwrap().1,
            *expected_id,
            "Band {} should have feature_id {}",
            i,
            expected_id
        );
    }
}

#[test]
fn dependency_lists_are_symmetric_and_free_of_self_edges() {
    let ids = all_ids();
    assert_eq!(ids.len(), 27);
    for a in ids.iter() {
        let deps = a.dependencies();
        let dents = a.dependents();
        assert!(!deps.contains(a));
        assert!(!dents.contains(a));
        for b in ids.iter() {
            assert_eq!(deps.contains(b), b.dependents().contains(a), "{:?} / {:?}", a, b);
        }
    }
}

#[test]
fn eq_band_depends_on_master_then_equalizer() {
    assert_eq!(FeatureId::Eq1kHz.dependencies(), vec![FeatureId::SbxMaster, FeatureId::EqToggle]);
    assert_eq!(FeatureId::EqToggle.dependencies(), vec![FeatureId::SbxMaster]);
    assert!(FeatureId::SbxMaster.dependencies().is_empty());
    assert_eq!(FeatureId::SbxMaster.dependents().len(), 24);
    assert_eq!(FeatureId::EqToggle.dependents().len(), 11);
    assert!(FeatureId::Output.dependents().is_empty());
}

#[test]
fn names_and_pairs() {
    assert_eq!(FeatureId::SbxMaster.display_name(), "SBX");
    assert_eq!(FeatureId::Eq1kHz.display_name(), "EQ 1kHz");
    assert_eq!(FeatureId::DialogPlusLevel.display_name(), "Dialog+ Slider");
    assert_eq!(FeatureId::SurroundToggle.paired_slider(), Some(FeatureId::SurroundLevel));
    assert_eq!(FeatureId::BassLevel.paired_toggle(), Some(FeatureId::BassToggle));
    assert_eq!(FeatureId::EqToggle.paired_slider(), None);
    assert_eq!(FeatureId::SmartVolMode.paired_toggle(), None);
}

#[test]
fn value_kinds_and_addressing() {
    assert!(matches!(FeatureId::BassToggle.value_kind(), ValueKind::Toggle));
    assert!(matches!(FeatureId::BassLevel.value_kind(), ValueKind::Percentage));
    assert!(matches!(FeatureId::EqPreAmp.value_kind(), ValueKind::Ranged { min: -6, max: 6 }));
    assert!(matches!(FeatureId::Eq16kHz.value_kind(), ValueKind::Ranged { min: -12, max: 12 }));
    assert!(matches!(FeatureId::SurroundDistance.value_kind(), ValueKind::Ranged { min: 10, max: 300 }));
    match FeatureId::Output.value_kind() {
        ValueKind::Preset(labels) => assert_eq!(labels, vec!["Speakers", "Headphones"]),
        _ => panic!("output is a preset"),
    }
    match FeatureId::SmartVolMode.value_kind() {
        ValueKind::Preset(labels) => assert_eq!(labels, vec!["Normal", "Loud", "Night"]),
        _ => panic!("smart volume mode is a preset"),
    }
    assert_eq!(FeatureId::SbxMaster.addressing(), Format::GlobalBitmask { bit: 0x01 });
    assert_eq!(FeatureId::ScoutMode.addressing(), Format::GlobalBitmask { bit: 0x02 });
    assert_eq!(FeatureId::Output.addressing(), Format::OutputRoute);
    assert_eq!(FeatureId::SurroundDistance.addressing(), Format::Generic { family: 0x96, feature: 0x17 });
}
