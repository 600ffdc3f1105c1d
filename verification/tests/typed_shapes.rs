//! The typed enums carried as lowercase boundary strings.

use oxi_types::ExtmarkHlMode;
use oxi_types::NvimString;
use oxi_types::SplitModifier;

#[test]
fn extmark_hl_mode_names() {
    assert_eq!(ExtmarkHlMode::Replace.to_nvim_string().to_string_lossy(), "replace");
    assert_eq!(ExtmarkHlMode::Combine.to_nvim_string().to_string_lossy(), "combine");
    assert_eq!(ExtmarkHlMode::Blend.to_nvim_string().to_string_lossy(), "blend");
}

#[test]
fn extmark_hl_mode_names_round_trip() {
    let all = [ExtmarkHlMode::Replace, ExtmarkHlMode::Combine, ExtmarkHlMode::Blend];
    for m in all {
        let name = m.to_nvim_string();
        assert_eq!(ExtmarkHlMode::from_nvim_string(&name), Some(m));
    }
    assert_eq!(ExtmarkHlMode::from_nvim_string(&NvimString::from_str("overlay")), None);
}

#[test]
fn split_modifier_names_round_trip() {
    let all = [
        SplitModifier::AboveLeft,
        SplitModifier::BelowRight,
        SplitModifier::TopLeft,
        SplitModifier::BotRight,
    ];
    for m in all {
        let name = m.to_nvim_string();
        assert_eq!(SplitModifier::from_nvim_string(&name), Some(m));
    }
    assert_eq!(
        SplitModifier::from_nvim_string(&NvimString::from_str("aboveleft")),
        Some(SplitModifier::AboveLeft)
    );
    assert_eq!(SplitModifier::from_nvim_string(&NvimString::from_str("sideways")), None);
    assert_eq!(SplitModifier::from_nvim_string(&NvimString::new()), None);
}
