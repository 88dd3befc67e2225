//! The closed catalog of bundled dictionary and configuration files, and the
//! flat table that holds their byte contents.
//!
//! Every file that any conversion preset depends on is one `AssetName`. An
//! `AssetStore` assigns byte content to each asset, replacing one ad hoc
//! global binding per file with a single table keyed by `AssetName::index`.

use vstd::prelude::*;

verus! {

/// How many distinct asset files the catalog holds.
pub const ASSET_COUNT: usize = 30;

/// One bundled file: either a preset configuration file or a dictionary.
#[derive(Clone, Copy, Debug, PartialEq, Eq, Structural)]
pub enum AssetName {
    /// Configuration file `hk2s.json`.
    Hk2sConfig,
    /// Configuration file `hk2t.json`.
    Hk2tConfig,
    /// Configuration file `jp2t.json`.
    Jp2tConfig,
    /// Configuration file `s2hk.json`.
    S2hkConfig,
    /// Configuration file `s2t.json`.
    S2tConfig,
    /// Configuration file `s2tw.json`.
    S2twConfig,
    /// Configuration file `s2twp.json`.
    S2twpConfig,
    /// Configuration file `t2hk.json`.
    T2hkConfig,
    /// Configuration file `t2jp.json`.
    T2jpConfig,
    /// Configuration file `t2s.json`.
    T2sConfig,
    /// Configuration file `t2tw.json`.
    T2twConfig,
    /// Configuration file `tw2s.json`.
    Tw2sConfig,
    /// Configuration file `tw2sp.json`.
    Tw2spConfig,
    /// Configuration file `tw2t.json`.
    Tw2tConfig,
    /// Dictionary `HKVariants.ocd2`.
    HkVariants,
    /// Dictionary `HKVariantsRev.ocd2`.
    HkVariantsRev,
    /// Dictionary `HKVariantsRevPhrases.ocd2`.
    HkVariantsRevPhrases,
    /// Dictionary `JPShinjitaiCharacters.ocd2`.
    JpShinjitaiCharacters,
    /// Dictionary `JPShinjitaiPhrases.ocd2`.
    JpShinjitaiPhrases,
    /// Dictionary `JPVariants.ocd2`.
    JpVariants,
    /// Dictionary `JPVariantsRev.ocd2`.
    JpVariantsRev,
    /// Dictionary `STCharacters.ocd2`.
    StCharacters,
    /// Dictionary `STPhrases.ocd2`.
    StPhrases,
    /// Dictionary `TSCharacters.ocd2`.
    TsCharacters,
    /// Dictionary `TSPhrases.ocd2`.
    TsPhrases,
    /// Dictionary `TWPhrases.ocd2`.
    TwPhrases,
    /// Dictionary `TWPhrasesRev.ocd2`.
    TwPhrasesRev,
    /// Dictionary `TWVariants.ocd2`.
    TwVariants,
    /// Dictionary `TWVariantsRev.ocd2`.
    TwVariantsRev,
    /// Dictionary `TWVariantsRevPhrases.ocd2`.
    TwVariantsRevPhrases,
}

/// The on-disk file name of each asset.
pub open spec fn spec_file_name(a: AssetName) -> Seq<char> {
    match a {
        AssetName::Hk2sConfig => "hk2s.json"@,
        AssetName::Hk2tConfig => "hk2t.json"@,
        AssetName::Jp2tConfig => "jp2t.json"@,
        AssetName::S2hkConfig => "s2hk.json"@,
        AssetName::S2tConfig => "s2t.json"@,
        AssetName::S2twConfig => "s2tw.json"@,
        AssetName::S2twpConfig => "s2twp.json"@,
        AssetName::T2hkConfig => "t2hk.json"@,
        AssetName::T2jpConfig => "t2jp.json"@,
        AssetName::T2sConfig => "t2s.json"@,
        AssetName::T2twConfig => "t2tw.json"@,
        AssetName::Tw2sConfig => "tw2s.json"@,
        AssetName::Tw2spConfig => "tw2sp.json"@,
        AssetName::Tw2tConfig => "tw2t.json"@,
        AssetName::HkVariants => "HKVariants.ocd2"@,
        AssetName::HkVariantsRev => "HKVariantsRev.ocd2"@,
        AssetName::HkVariantsRevPhrases => "HKVariantsRevPhrases.ocd2"@,
        AssetName::JpShinjitaiCharacters => "JPShinjitaiCharacters.ocd2"@,
        AssetName::JpShinjitaiPhrases => "JPShinjitaiPhrases.ocd2"@,
        AssetName::JpVariants => "JPVariants.ocd2"@,
        AssetName::JpVariantsRev => "JPVariantsRev.ocd2"@,
        AssetName::StCharacters => "STCharacters.ocd2"@,
        AssetName::StPhrases => "STPhrases.ocd2"@,
        AssetName::TsCharacters => "TSCharacters.ocd2"@,
        AssetName::TsPhrases => "TSPhrases.ocd2"@,
        AssetName::TwPhrases => "TWPhrases.ocd2"@,
        AssetName::TwPhrasesRev => "TWPhrasesRev.ocd2"@,
        AssetName::TwVariants => "TWVariants.ocd2"@,
        AssetName::TwVariantsRev => "TWVariantsRev.ocd2"@,
        AssetName::TwVariantsRevPhrases => "TWVariantsRevPhrases.ocd2"@,
    }
}

/// The position of each asset in the store's flat table.
pub open spec fn spec_index(a: AssetName) -> int {
    match a {
        AssetName::Hk2sConfig => 0,
        AssetName::Hk2tConfig => 1,
        AssetName::Jp2tConfig => 2,
        AssetName::S2hkConfig => 3,
        AssetName::S2tConfig => 4,
        AssetName::S2twConfig => 5,
        AssetName::S2twpConfig => 6,
        AssetName::T2hkConfig => 7,
        AssetName::T2jpConfig => 8,
        AssetName::T2sConfig => 9,
        AssetName::T2twConfig => 10,
        AssetName::Tw2sConfig => 11,
        AssetName::Tw2spConfig => 12,
        AssetName::Tw2tConfig => 13,
        AssetName::HkVariants => 14,
        AssetName::HkVariantsRev => 15,
        AssetName::HkVariantsRevPhrases => 16,
        AssetName::JpShinjitaiCharacters => 17,
        AssetName::JpShinjitaiPhrases => 18,
        AssetName::JpVariants => 19,
        AssetName::JpVariantsRev => 20,
        AssetName::StCharacters => 21,
        AssetName::StPhrases => 22,
        AssetName::TsCharacters => 23,
        AssetName::TsPhrases => 24,
        AssetName::TwPhrases => 25,
        AssetName::TwPhrasesRev => 26,
        AssetName::TwVariants => 27,
        AssetName::TwVariantsRev => 28,
        AssetName::TwVariantsRevPhrases => 29,
    }
}

/// Every asset, in table order.
pub open spec fn spec_all_assets() -> Seq<AssetName> {
    seq![
        AssetName::Hk2sConfig,
        AssetName::Hk2tConfig,
        AssetName::Jp2tConfig,
        AssetName::S2hkConfig,
        AssetName::S2tConfig,
        AssetName::S2twConfig,
        AssetName::S2twpConfig,
        AssetName::T2hkConfig,
        AssetName::T2jpConfig,
        AssetName::T2sConfig,
        AssetName::T2twConfig,
        AssetName::Tw2sConfig,
        AssetName::Tw2spConfig,
        AssetName::Tw2tConfig,
        AssetName::HkVariants,
        AssetName::HkVariantsRev,
        AssetName::HkVariantsRevPhrases,
        AssetName::JpShinjitaiCharacters,
        AssetName::JpShinjitaiPhrases,
        AssetName::JpVariants,
        AssetName::JpVariantsRev,
        AssetName::StCharacters,
        AssetName::StPhrases,
        AssetName::TsCharacters,
        AssetName::TsPhrases,
        AssetName::TwPhrases,
        AssetName::TwPhrasesRev,
        AssetName::TwVariants,
        AssetName::TwVariantsRev,
        AssetName::TwVariantsRevPhrases,
    ]
}

/// The table order lists each asset exactly at its own index, so indices are
/// a bijection between the catalog and `0 .. ASSET_COUNT`.
pub proof fn lemma_asset_index(a: AssetName)
    ensures
        0 <= spec_index(a) < ASSET_COUNT as int,
        spec_all_assets().len() == ASSET_COUNT as int,
        spec_all_assets()[spec_index(a)] == a,
{
}

/// Distinct assets sit at distinct table indices.
pub proof fn lemma_asset_index_injective(a: AssetName, b: AssetName)
    requires
        spec_index(a) == spec_index(b),
    ensures
        a == b,
{
    lemma_asset_index(a);
    lemma_asset_index(b);
}

/// Distinct assets carry distinct on-disk file names, so one slot per asset
/// is the same thing as one path per file name.
#[verifier::rlimit(60)]
pub proof fn lemma_file_names_injective(a: AssetName, b: AssetName)
    requires
        spec_file_name(a) == spec_file_name(b),
    ensures
        a == b,
{
    reveal_strlit("hk2s.json");
    reveal_strlit("hk2t.json");
    reveal_strlit("jp2t.json");
    reveal_strlit("s2hk.json");
    reveal_strlit("s2t.json");
    reveal_strlit("s2tw.json");
    reveal_strlit("s2twp.json");
    reveal_strlit("t2hk.json");
    reveal_strlit("t2jp.json");
    reveal_strlit("t2s.json");
    reveal_strlit("t2tw.json");
    reveal_strlit("tw2s.json");
    reveal_strlit("tw2sp.json");
    reveal_strlit("tw2t.json");
    reveal_strlit("HKVariants.ocd2");
    reveal_strlit("HKVariantsRev.ocd2");
    reveal_strlit("HKVariantsRevPhrases.ocd2");
    reveal_strlit("JPShinjitaiCharacters.ocd2");
    reveal_strlit("JPShinjitaiPhrases.ocd2");
    reveal_strlit("JPVariants.ocd2");
    reveal_strlit("JPVariantsRev.ocd2");
    reveal_strlit("STCharacters.ocd2");
    reveal_strlit("STPhrases.ocd2");
    reveal_strlit("TSCharacters.ocd2");
    reveal_strlit("TSPhrases.ocd2");
    reveal_strlit("TWPhrases.ocd2");
    reveal_strlit("TWPhrasesRev.ocd2");
    reveal_strlit("TWVariants.ocd2");
    reveal_strlit("TWVariantsRev.ocd2");
    reveal_strlit("TWVariantsRevPhrases.ocd2");
    assert("hk2s.json"@.len() == 9);
    assert("hk2s.json"@[0] == 'h');
    assert("hk2s.json"@[1] == 'k');
    assert("hk2s.json"@[2] == '2');
    assert("hk2s.json"@[3] == 's');
    assert("hk2t.json"@.len() == 9);
    assert("hk2t.json"@[0] == 'h');
    assert("hk2t.json"@[1] == 'k');
    assert("hk2t.json"@[2] == '2');
    assert("hk2t.json"@[3] == 't');
    assert("jp2t.json"@.len() == 9);
    assert("jp2t.json"@[0] == 'j');
    assert("jp2t.json"@[1] == 'p');
    assert("jp2t.json"@[2] == '2');
    assert("jp2t.json"@[3] == 't');
    assert("s2hk.json"@.len() == 9);
    assert("s2hk.json"@[0] == 's');
    assert("s2hk.json"@[1] == '2');
    assert("s2hk.json"@[2] == 'h');
    assert("s2hk.json"@[3] == 'k');
    assert("s2t.json"@.len() == 8);
    assert("s2t.json"@[0] == 's');
    assert("s2t.json"@[1] == '2');
    assert("s2t.json"@[2] == 't');
    assert("s2t.json"@[3] == '.');
    assert("s2tw.json"@.len() == 9);
    assert("s2tw.json"@[0] == 's');
    assert("s2tw.json"@[1] == '2');
    assert("s2tw.json"@[2] == 't');
    assert("s2tw.json"@[3] == 'w');
    assert("s2twp.json"@.len() == 10);
    assert("s2twp.json"@[0] == 's');
    assert("s2twp.json"@[1] == '2');
    assert("s2twp.json"@[2] == 't');
    assert("s2twp.json"@[3] == 'w');
    assert("t2hk.json"@.len() == 9);
    assert("t2hk.json"@[0] == 't');
    assert("t2hk.json"@[1] == '2');
    assert("t2hk.json"@[2] == 'h');
    assert("t2hk.json"@[3] == 'k');
    assert("t2jp.json"@.len() == 9);
    assert("t2jp.json"@[0] == 't');
    assert("t2jp.json"@[1] == '2');
    assert("t2jp.json"@[2] == 'j');
    assert("t2jp.json"@[3] == 'p');
    assert("t2s.json"@.len() == 8);
    assert("t2s.json"@[0] == 't');
    assert("t2s.json"@[1] == '2');
    assert("t2s.json"@[2] == 's');
    assert("t2s.json"@[3] == '.');
    assert("t2tw.json"@.len() == 9);
    assert("t2tw.json"@[0] == 't');
    assert("t2tw.json"@[1] == '2');
    assert("t2tw.json"@[2] == 't');
    assert("t2tw.json"@[3] == 'w');
    assert("tw2s.json"@.len() == 9);
    assert("tw2s.json"@[0] == 't');
    assert("tw2s.json"@[1] == 'w');
    assert("tw2s.json"@[2] == '2');
    assert("tw2s.json"@[3] == 's');
    assert("tw2sp.json"@.len() == 10);
    assert("tw2sp.json"@[0] == 't');
    assert("tw2sp.json"@[1] == 'w');
    assert("tw2sp.json"@[2] == '2');
    assert("tw2sp.json"@[3] == 's');
    assert("tw2t.json"@.len() == 9);
    assert("tw2t.json"@[0] == 't');
    assert("tw2t.json"@[1] == 'w');
    assert("tw2t.json"@[2] == '2');
    assert("tw2t.json"@[3] == 't');
    assert("HKVariants.ocd2"@.len() == 15);
    assert("HKVariants.ocd2"@[0] == 'H');
    assert("HKVariants.ocd2"@[1] == 'K');
    assert("HKVariants.ocd2"@[2] == 'V');
    assert("HKVariants.ocd2"@[3] == 'a');
    assert("HKVariantsRev.ocd2"@.len() == 18);
    assert("HKVariantsRev.ocd2"@[0] == 'H');
    assert("HKVariantsRev.ocd2"@[1] == 'K');
    assert("HKVariantsRev.ocd2"@[2] == 'V');
    assert("HKVariantsRev.ocd2"@[3] == 'a');
    assert("HKVariantsRevPhrases.ocd2"@.len() == 25);
    assert("HKVariantsRevPhrases.ocd2"@[0] == 'H');
    assert("HKVariantsRevPhrases.ocd2"@[1] == 'K');
    assert("HKVariantsRevPhrases.ocd2"@[2] == 'V');
    assert("HKVariantsRevPhrases.ocd2"@[3] == 'a');
    assert("JPShinjitaiCharacters.ocd2"@.len() == 26);
    assert("JPShinjitaiCharacters.ocd2"@[0] == 'J');
    assert("JPShinjitaiCharacters.ocd2"@[1] == 'P');
    assert("JPShinjitaiCharacters.ocd2"@[2] == 'S');
    assert("JPShinjitaiCharacters.ocd2"@[3] == 'h');
    assert("JPShinjitaiPhrases.ocd2"@.len() == 23);
    assert("JPShinjitaiPhrases.ocd2"@[0] == 'J');
    assert("JPShinjitaiPhrases.ocd2"@[1] == 'P');
    assert("JPShinjitaiPhrases.ocd2"@[2] == 'S');
    assert("JPShinjitaiPhrases.ocd2"@[3] == 'h');
    assert("JPVariants.ocd2"@.len() == 15);
    assert("JPVariants.ocd2"@[0] == 'J');
    assert("JPVariants.ocd2"@[1] == 'P');
    assert("JPVariants.ocd2"@[2] == 'V');
    assert("JPVariants.ocd2"@[3] == 'a');
    assert("JPVariantsRev.ocd2"@.len() == 18);
    assert("JPVariantsRev.ocd2"@[0] == 'J');
    assert("JPVariantsRev.ocd2"@[1] == 'P');
    assert("JPVariantsRev.ocd2"@[2] == 'V');
    assert("JPVariantsRev.ocd2"@[3] == 'a');
    assert("STCharacters.ocd2"@.len() == 17);
    assert("STCharacters.ocd2"@[0] == 'S');
    assert("STCharacters.ocd2"@[1] == 'T');
    assert("STCharacters.ocd2"@[2] == 'C');
    assert("STCharacters.ocd2"@[3] == 'h');
    assert("STPhrases.ocd2"@.len() == 14);
    assert("STPhrases.ocd2"@[0] == 'S');
    assert("STPhrases.ocd2"@[1] == 'T');
    assert("STPhrases.ocd2"@[2] == 'P');
    assert("STPhrases.ocd2"@[3] == 'h');
    assert("TSCharacters.ocd2"@.len() == 17);
    assert("TSCharacters.ocd2"@[0] == 'T');
    assert("TSCharacters.ocd2"@[1] == 'S');
    assert("TSCharacters.ocd2"@[2] == 'C');
    assert("TSCharacters.ocd2"@[3] == 'h');
    assert("TSPhrases.ocd2"@.len() == 14);
    assert("TSPhrases.ocd2"@[0] == 'T');
    assert("TSPhrases.ocd2"@[1] == 'S');
    assert("TSPhrases.ocd2"@[2] == 'P');
    assert("TSPhrases.ocd2"@[3] == 'h');
    assert("TWPhrases.ocd2"@.len() == 14);
    assert("TWPhrases.ocd2"@[0] == 'T');
    assert("TWPhrases.ocd2"@[1] == 'W');
    assert("TWPhrases.ocd2"@[2] == 'P');
    assert("TWPhrases.ocd2"@[3] == 'h');
    assert("TWPhrasesRev.ocd2"@.len() == 17);
    assert("TWPhrasesRev.ocd2"@[0] == 'T');
    assert("TWPhrasesRev.ocd2"@[1] == 'W');
    assert("TWPhrasesRev.ocd2"@[2] == 'P');
    assert("TWPhrasesRev.ocd2"@[3] == 'h');
    assert("TWVariants.ocd2"@.len() == 15);
    assert("TWVariants.ocd2"@[0] == 'T');
    assert("TWVariants.ocd2"@[1] == 'W');
    assert("TWVariants.ocd2"@[2] == 'V');
    assert("TWVariants.ocd2"@[3] == 'a');
    assert("TWVariantsRev.ocd2"@.len() == 18);
    assert("TWVariantsRev.ocd2"@[0] == 'T');
    assert("TWVariantsRev.ocd2"@[1] == 'W');
    assert("TWVariantsRev.ocd2"@[2] == 'V');
    assert("TWVariantsRev.ocd2"@[3] == 'a');
    assert("TWVariantsRevPhrases.ocd2"@.len() == 25);
    assert("TWVariantsRevPhrases.ocd2"@[0] == 'T');
    assert("TWVariantsRevPhrases.ocd2"@[1] == 'W');
    assert("TWVariantsRevPhrases.ocd2"@[2] == 'V');
    assert("TWVariantsRevPhrases.ocd2"@[3] == 'a');
    assert(b is Hk2sConfig || b is Hk2tConfig || b is Jp2tConfig || b is S2hkConfig
        || b is S2tConfig || b is S2twConfig || b is S2twpConfig || b is T2hkConfig
        || b is T2jpConfig || b is T2sConfig || b is T2twConfig || b is Tw2sConfig
        || b is Tw2spConfig || b is Tw2tConfig || b is HkVariants || b is HkVariantsRev
        || b is HkVariantsRevPhrases || b is JpShinjitaiCharacters || b is JpShinjitaiPhrases
        || b is JpVariants || b is JpVariantsRev || b is StCharacters || b is StPhrases
        || b is TsCharacters || b is TsPhrases || b is TwPhrases || b is TwPhrasesRev
        || b is TwVariants || b is TwVariantsRev || b is TwVariantsRevPhrases);
    match a {
        AssetName::Hk2sConfig => {},
        AssetName::Hk2tConfig => {},
        AssetName::Jp2tConfig => {},
        AssetName::S2hkConfig => {},
        AssetName::S2tConfig => {},
        AssetName::S2twConfig => {},
        AssetName::S2twpConfig => {},
        AssetName::T2hkConfig => {},
        AssetName::T2jpConfig => {},
        AssetName::T2sConfig => {},
        AssetName::T2twConfig => {},
        AssetName::Tw2sConfig => {},
        AssetName::Tw2spConfig => {},
        AssetName::Tw2tConfig => {},
        AssetName::HkVariants => {},
        AssetName::HkVariantsRev => {},
        AssetName::HkVariantsRevPhrases => {},
        AssetName::JpShinjitaiCharacters => {},
        AssetName::JpShinjitaiPhrases => {},
        AssetName::JpVariants => {},
        AssetName::JpVariantsRev => {},
        AssetName::StCharacters => {},
        AssetName::StPhrases => {},
        AssetName::TsCharacters => {},
        AssetName::TsPhrases => {},
        AssetName::TwPhrases => {},
        AssetName::TwPhrasesRev => {},
        AssetName::TwVariants => {},
        AssetName::TwVariantsRev => {},
        AssetName::TwVariantsRevPhrases => {},
    }
}

impl AssetName {
    /// The on-disk file name of this asset.
    pub fn file_name(self) -> (r: &'static str)
        ensures
            r@ == spec_file_name(self),
    {
        match self {
            AssetName::Hk2sConfig => "hk2s.json",
            AssetName::Hk2tConfig => "hk2t.json",
            AssetName::Jp2tConfig => "jp2t.json",
            AssetName::S2hkConfig => "s2hk.json",
            AssetName::S2tConfig => "s2t.json",
            AssetName::S2twConfig => "s2tw.json",
            AssetName::S2twpConfig => "s2twp.json",
            AssetName::T2hkConfig => "t2hk.json",
            AssetName::T2jpConfig => "t2jp.json",
            AssetName::T2sConfig => "t2s.json",
            AssetName::T2twConfig => "t2tw.json",
            AssetName::Tw2sConfig => "tw2s.json",
            AssetName::Tw2spConfig => "tw2sp.json",
            AssetName::Tw2tConfig => "tw2t.json",
            AssetName::HkVariants => "HKVariants.ocd2",
            AssetName::HkVariantsRev => "HKVariantsRev.ocd2",
            AssetName::HkVariantsRevPhrases => "HKVariantsRevPhrases.ocd2",
            AssetName::JpShinjitaiCharacters => "JPShinjitaiCharacters.ocd2",
            AssetName::JpShinjitaiPhrases => "JPShinjitaiPhrases.ocd2",
            AssetName::JpVariants => "JPVariants.ocd2",
            AssetName::JpVariantsRev => "JPVariantsRev.ocd2",
            AssetName::StCharacters => "STCharacters.ocd2",
            AssetName::StPhrases => "STPhrases.ocd2",
            AssetName::TsCharacters => "TSCharacters.ocd2",
            AssetName::TsPhrases => "TSPhrases.ocd2",
            AssetName::TwPhrases => "TWPhrases.ocd2",
            AssetName::TwPhrasesRev => "TWPhrasesRev.ocd2",
            AssetName::TwVariants => "TWVariants.ocd2",
            AssetName::TwVariantsRev => "TWVariantsRev.ocd2",
            AssetName::TwVariantsRevPhrases => "TWVariantsRevPhrases.ocd2",
        }
    }

    /// The position of this asset in the store's flat table.
    pub fn index(self) -> (r: usize)
        ensures
            r == spec_index(self),
            r < ASSET_COUNT,
    {
        match self {
            AssetName::Hk2sConfig => 0,
            AssetName::Hk2tConfig => 1,
            AssetName::Jp2tConfig => 2,
            AssetName::S2hkConfig => 3,
            AssetName::S2tConfig => 4,
            AssetName::S2twConfig => 5,
            AssetName::S2twpConfig => 6,
            AssetName::T2hkConfig => 7,
            AssetName::T2jpConfig => 8,
            AssetName::T2sConfig => 9,
            AssetName::T2twConfig => 10,
            AssetName::Tw2sConfig => 11,
            AssetName::Tw2spConfig => 12,
            AssetName::Tw2tConfig => 13,
            AssetName::HkVariants => 14,
            AssetName::HkVariantsRev => 15,
            AssetName::HkVariantsRevPhrases => 16,
            AssetName::JpShinjitaiCharacters => 17,
            AssetName::JpShinjitaiPhrases => 18,
            AssetName::JpVariants => 19,
            AssetName::JpVariantsRev => 20,
            AssetName::StCharacters => 21,
            AssetName::StPhrases => 22,
            AssetName::TsCharacters => 23,
            AssetName::TsPhrases => 24,
            AssetName::TwPhrases => 25,
            AssetName::TwPhrasesRev => 26,
            AssetName::TwVariants => 27,
            AssetName::TwVariantsRev => 28,
            AssetName::TwVariantsRevPhrases => 29,
        }
    }

    /// Every asset of the catalog, in table order.
    pub fn all() -> (r: Vec<AssetName>)
        ensures
            r@ == spec_all_assets(),
    {
        let mut v: Vec<AssetName> = Vec::new();
        v.push(AssetName::Hk2sConfig);
        v.push(AssetName::Hk2tConfig);
        v.push(AssetName::Jp2tConfig);
        v.push(AssetName::S2hkConfig);
        v.push(AssetName::S2tConfig);
        v.push(AssetName::S2twConfig);
        v.push(AssetName::S2twpConfig);
        v.push(AssetName::T2hkConfig);
        v.push(AssetName::T2jpConfig);
        v.push(AssetName::T2sConfig);
        v.push(AssetName::T2twConfig);
        v.push(AssetName::Tw2sConfig);
        v.push(AssetName::Tw2spConfig);
        v.push(AssetName::Tw2tConfig);
        v.push(AssetName::HkVariants);
        v.push(AssetName::HkVariantsRev);
        v.push(AssetName::HkVariantsRevPhrases);
        v.push(AssetName::JpShinjitaiCharacters);
        v.push(AssetName::JpShinjitaiPhrases);
        v.push(AssetName::JpVariants);
        v.push(AssetName::JpVariantsRev);
        v.push(AssetName::StCharacters);
        v.push(AssetName::StPhrases);
        v.push(AssetName::TsCharacters);
        v.push(AssetName::TsPhrases);
        v.push(AssetName::TwPhrases);
        v.push(AssetName::TwPhrasesRev);
        v.push(AssetName::TwVariants);
        v.push(AssetName::TwVariantsRev);
        v.push(AssetName::TwVariantsRevPhrases);
        proof {
            assert(v@ =~= spec_all_assets());
        }
        v
    }
}

/// The process-wide table of asset contents: one byte blob per asset, at the
/// asset's own index. The contents are written once and then only read.
pub struct AssetStore {
    /// Byte content of each asset, in table order.
    pub contents: Vec<Vec<u8>>,
}

impl AssetStore {
    /// The table covers the whole catalog.
    pub open spec fn wf(self) -> bool {
        self.contents@.len() == ASSET_COUNT as int
    }

    /// The byte content this store assigns to asset `a`.
    pub open spec fn spec_bytes(self, a: AssetName) -> Seq<u8> {
        self.contents@[spec_index(a)]@
    }

    /// Build a store from one byte blob per asset, in table order. Rejects a
    /// table that does not cover the catalog exactly.
    pub fn from_contents(contents: Vec<Vec<u8>>) -> (r: Option<AssetStore>)
        ensures
            r is Some <==> contents@.len() == ASSET_COUNT as int,
            r is Some ==> r->Some_0.wf() && r->Some_0.contents@ == contents@,
    {
        if contents.len() == ASSET_COUNT {
            Some(AssetStore { contents })
        } else {
            None
        }
    }

    /// Whether the table covers the whole catalog, as `bytes_for` needs.
    pub fn covers_catalog(&self) -> (b: bool)
        ensures
            b == self.wf(),
    {
        self.contents.len() == ASSET_COUNT
    }

    /// The byte content of asset `a`.
    pub fn bytes_for(&self, a: AssetName) -> (r: &Vec<u8>)
        requires
            self.wf(),
        ensures
            r@ == self.spec_bytes(a),
    {
        let i = a.index();
        &self.contents[i]
    }
}

} // verus!
