//! The closed catalog of conversion presets, and the fixed list of bundled
//! assets each preset depends on.

use vstd::prelude::*;

use crate::asset::spec_file_name;
use crate::asset::spec_index;
use crate::asset::AssetName;

verus! {

/// Default configs: the named conversion directions the bundled catalog
/// offers.
#[derive(Clone, Copy, Debug, PartialEq, Eq, Structural)]
pub enum DefaultConfig {
    /// Traditional Chinese (Hong Kong Standard) to Simplified Chinese
    HK2S,
    /// Traditional Chinese (Hong Kong Standard) to Traditional Chinese
    HK2T,
    /// New Japanese Kanji (Shinjitai) to Traditional Chinese Characters (Kyujitai)
    JP2T,
    /// Simplified Chinese to Traditional Chinese
    S2T,
    /// Simplified Chinese to Traditional Chinese (Taiwan Standard)
    S2TW,
    /// Simplified Chinese to Traditional Chinese (Taiwan Standard) with Taiwanese idiom
    S2TWP,
    /// Traditional Chinese (OpenCC Standard) to Hong Kong Standard
    T2HK,
    /// Traditional Chinese Characters (Kyujitai) to New Japanese Kanji (Shinjitai)
    T2JP,
    /// Traditional Chinese (OpenCC Standard) to Taiwan Standard
    T2TW,
    /// Traditional Chinese to Simplified Chinese
    T2S,
    /// Simplified Chinese to Traditional Chinese (Hong Kong Standard)
    S2HK,
    /// Traditional Chinese (Taiwan Standard) to Simplified Chinese
    TW2S,
    /// Traditional Chinese (Taiwan Standard) to Simplified Chinese with Mainland Chinese idiom
    TW2SP,
    /// Traditional Chinese (Taiwan Standard) to Traditional Chinese
    TW2T,
}

/// The configuration asset of each preset.
pub open spec fn spec_config_asset(c: DefaultConfig) -> AssetName {
    match c {
        DefaultConfig::HK2S => AssetName::Hk2sConfig,
        DefaultConfig::HK2T => AssetName::Hk2tConfig,
        DefaultConfig::JP2T => AssetName::Jp2tConfig,
        DefaultConfig::S2HK => AssetName::S2hkConfig,
        DefaultConfig::S2T => AssetName::S2tConfig,
        DefaultConfig::S2TW => AssetName::S2twConfig,
        DefaultConfig::S2TWP => AssetName::S2twpConfig,
        DefaultConfig::T2HK => AssetName::T2hkConfig,
        DefaultConfig::T2JP => AssetName::T2jpConfig,
        DefaultConfig::T2S => AssetName::T2sConfig,
        DefaultConfig::T2TW => AssetName::T2twConfig,
        DefaultConfig::TW2S => AssetName::Tw2sConfig,
        DefaultConfig::TW2SP => AssetName::Tw2spConfig,
        DefaultConfig::TW2T => AssetName::Tw2tConfig,
    }
}

/// The file name of each preset's configuration file.
pub open spec fn spec_config_file_name(c: DefaultConfig) -> Seq<char> {
    spec_file_name(spec_config_asset(c))
}

/// The fixed, ordered list of assets a preset depends on: its configuration
/// file first, then the dictionaries the configuration chains.
pub open spec fn spec_required_assets(c: DefaultConfig) -> Seq<AssetName> {
    match c {
        DefaultConfig::HK2S => seq![
            AssetName::Hk2sConfig,
            AssetName::TsPhrases,
            AssetName::HkVariantsRevPhrases,
            AssetName::HkVariantsRev,
            AssetName::TsCharacters,
        ],
        DefaultConfig::HK2T => seq![
            AssetName::Hk2tConfig,
            AssetName::HkVariantsRevPhrases,
            AssetName::HkVariantsRev,
        ],
        DefaultConfig::JP2T => seq![
            AssetName::Jp2tConfig,
            AssetName::JpShinjitaiPhrases,
            AssetName::JpShinjitaiCharacters,
            AssetName::JpVariantsRev,
        ],
        DefaultConfig::S2HK => seq![
            AssetName::S2hkConfig,
            AssetName::StPhrases,
            AssetName::StCharacters,
            AssetName::HkVariants,
        ],
        DefaultConfig::S2T => seq![
            AssetName::S2tConfig,
            AssetName::StPhrases,
            AssetName::StCharacters,
        ],
        DefaultConfig::S2TW => seq![
            AssetName::S2twConfig,
            AssetName::StPhrases,
            AssetName::StCharacters,
            AssetName::TwVariants,
        ],
        DefaultConfig::S2TWP => seq![
            AssetName::S2twpConfig,
            AssetName::StPhrases,
            AssetName::StCharacters,
            AssetName::TwPhrases,
            AssetName::TwVariants,
        ],
        DefaultConfig::T2HK => seq![
            AssetName::T2hkConfig,
            AssetName::HkVariants,
        ],
        DefaultConfig::T2JP => seq![
            AssetName::T2jpConfig,
            AssetName::JpVariants,
        ],
        DefaultConfig::T2S => seq![
            AssetName::T2sConfig,
            AssetName::TsPhrases,
            AssetName::TsCharacters,
        ],
        DefaultConfig::T2TW => seq![
            AssetName::T2twConfig,
            AssetName::TwVariants,
        ],
        DefaultConfig::TW2S => seq![
            AssetName::Tw2sConfig,
            AssetName::TsPhrases,
            AssetName::TwVariantsRevPhrases,
            AssetName::TwVariantsRev,
            AssetName::TsCharacters,
        ],
        DefaultConfig::TW2SP => seq![
            AssetName::Tw2spConfig,
            AssetName::TsPhrases,
            AssetName::TwPhrasesRev,
            AssetName::TwVariantsRevPhrases,
            AssetName::TwVariantsRev,
            AssetName::TsCharacters,
        ],
        DefaultConfig::TW2T => seq![
            AssetName::Tw2tConfig,
            AssetName::TwVariantsRevPhrases,
            AssetName::TwVariantsRev,
        ],
    }
}

impl DefaultConfig {
    /// Get the file name for this default config.
    pub fn get_file_name(self) -> (r: &'static str)
        ensures
            r@ == spec_config_file_name(self),
    {
        match self {
            DefaultConfig::HK2S => "hk2s.json",
            DefaultConfig::HK2T => "hk2t.json",
            DefaultConfig::JP2T => "jp2t.json",
            DefaultConfig::S2HK => "s2hk.json",
            DefaultConfig::S2T => "s2t.json",
            DefaultConfig::S2TW => "s2tw.json",
            DefaultConfig::S2TWP => "s2twp.json",
            DefaultConfig::T2HK => "t2hk.json",
            DefaultConfig::T2JP => "t2jp.json",
            DefaultConfig::T2S => "t2s.json",
            DefaultConfig::T2TW => "t2tw.json",
            DefaultConfig::TW2S => "tw2s.json",
            DefaultConfig::TW2SP => "tw2sp.json",
            DefaultConfig::TW2T => "tw2t.json",
        }
    }

    /// The configuration asset of this preset.
    pub fn config_asset(self) -> (r: AssetName)
        ensures
            r == spec_config_asset(self),
    {
        match self {
            DefaultConfig::HK2S => AssetName::Hk2sConfig,
            DefaultConfig::HK2T => AssetName::Hk2tConfig,
            DefaultConfig::JP2T => AssetName::Jp2tConfig,
            DefaultConfig::S2HK => AssetName::S2hkConfig,
            DefaultConfig::S2T => AssetName::S2tConfig,
            DefaultConfig::S2TW => AssetName::S2twConfig,
            DefaultConfig::S2TWP => AssetName::S2twpConfig,
            DefaultConfig::T2HK => AssetName::T2hkConfig,
            DefaultConfig::T2JP => AssetName::T2jpConfig,
            DefaultConfig::T2S => AssetName::T2sConfig,
            DefaultConfig::T2TW => AssetName::T2twConfig,
            DefaultConfig::TW2S => AssetName::Tw2sConfig,
            DefaultConfig::TW2SP => AssetName::Tw2spConfig,
            DefaultConfig::TW2T => AssetName::Tw2tConfig,
        }
    }

    /// The fixed, ordered list of assets this preset depends on.
    pub fn required_assets(self) -> (r: Vec<AssetName>)
        ensures
            r@ == spec_required_assets(self),
    {
        let mut v: Vec<AssetName> = Vec::new();
        match self {
            DefaultConfig::HK2S => {
                v.push(AssetName::Hk2sConfig);
                v.push(AssetName::TsPhrases);
                v.push(AssetName::HkVariantsRevPhrases);
                v.push(AssetName::HkVariantsRev);
                v.push(AssetName::TsCharacters);
            },
            DefaultConfig::HK2T => {
                v.push(AssetName::Hk2tConfig);
                v.push(AssetName::HkVariantsRevPhrases);
                v.push(AssetName::HkVariantsRev);
            },
            DefaultConfig::JP2T => {
                v.push(AssetName::Jp2tConfig);
                v.push(AssetName::JpShinjitaiPhrases);
                v.push(AssetName::JpShinjitaiCharacters);
                v.push(AssetName::JpVariantsRev);
            },
            DefaultConfig::S2HK => {
                v.push(AssetName::S2hkConfig);
                v.push(AssetName::StPhrases);
                v.push(AssetName::StCharacters);
                v.push(AssetName::HkVariants);
            },
            DefaultConfig::S2T => {
                v.push(AssetName::S2tConfig);
                v.push(AssetName::StPhrases);
                v.push(AssetName::StCharacters);
            },
            DefaultConfig::S2TW => {
                v.push(AssetName::S2twConfig);
                v.push(AssetName::StPhrases);
                v.push(AssetName::StCharacters);
                v.push(AssetName::TwVariants);
            },
            DefaultConfig::S2TWP => {
                v.push(AssetName::S2twpConfig);
                v.push(AssetName::StPhrases);
                v.push(AssetName::StCharacters);
                v.push(AssetName::TwPhrases);
                v.push(AssetName::TwVariants);
            },
            DefaultConfig::T2HK => {
                v.push(AssetName::T2hkConfig);
                v.push(AssetName::HkVariants);
            },
            DefaultConfig::T2JP => {
                v.push(AssetName::T2jpConfig);
                v.push(AssetName::JpVariants);
            },
            DefaultConfig::T2S => {
                v.push(AssetName::T2sConfig);
                v.push(AssetName::TsPhrases);
                v.push(AssetName::TsCharacters);
            },
            DefaultConfig::T2TW => {
                v.push(AssetName::T2twConfig);
                v.push(AssetName::TwVariants);
            },
            DefaultConfig::TW2S => {
                v.push(AssetName::Tw2sConfig);
                v.push(AssetName::TsPhrases);
                v.push(AssetName::TwVariantsRevPhrases);
                v.push(AssetName::TwVariantsRev);
                v.push(AssetName::TsCharacters);
            },
            DefaultConfig::TW2SP => {
                v.push(AssetName::Tw2spConfig);
                v.push(AssetName::TsPhrases);
                v.push(AssetName::TwPhrasesRev);
                v.push(AssetName::TwVariantsRevPhrases);
                v.push(AssetName::TwVariantsRev);
                v.push(AssetName::TsCharacters);
            },
            DefaultConfig::TW2T => {
                v.push(AssetName::Tw2tConfig);
                v.push(AssetName::TwVariantsRevPhrases);
                v.push(AssetName::TwVariantsRev);
            },
        }
        proof {
            assert(v@ =~= spec_required_assets(self));
        }
        v
    }
}

/// Every preset's dependency list is non-empty, and its first entry is the
/// preset's own configuration file.
pub proof fn lemma_required_assets_config_first(c: DefaultConfig)
    ensures
        spec_required_assets(c).len() >= 2,
        spec_required_assets(c)[0] == spec_config_asset(c),
{
}

/// A preset never lists the same asset twice: its dependency set is a set of
/// distinct files.
pub proof fn lemma_required_assets_distinct(c: DefaultConfig)
    ensures
        forall|i: int, j: int|
            0 <= i < j < spec_required_assets(c).len() ==> spec_required_assets(c)[i]
                != spec_required_assets(c)[j],
{
}

/// Each preset's dependency list stays inside the asset table: every listed
/// asset sits at an index below the table's length.
pub proof fn lemma_required_assets_indexed(c: DefaultConfig)
    ensures
        forall|i: int|
            0 <= i < spec_required_assets(c).len() ==> 0 <= spec_index(
                #[trigger] spec_required_assets(c)[i],
            ) < crate::asset::ASSET_COUNT as int,
{
    assert forall|i: int| 0 <= i < spec_required_assets(c).len() implies 0 <= spec_index(
        #[trigger] spec_required_assets(c)[i],
    ) < crate::asset::ASSET_COUNT as int by {
        crate::asset::lemma_asset_index(spec_required_assets(c)[i]);
    }
}

} // verus!
