use opencc_rust::AssetName;
use opencc_rust::AssetStore;
use opencc_rust::DefaultConfig;
use opencc_rust::OpenCCError;

fn required_file_names(c: DefaultConfig) -> Vec<&'static str> {
    c.required_assets().into_iter().map(|a| a.file_name()).collect()
}

#[test]
fn config_file_names() {
    assert_eq!(DefaultConfig::HK2S.get_file_name(), "hk2s.json");
    assert_eq!(DefaultConfig::HK2T.get_file_name(), "hk2t.json");
    assert_eq!(DefaultConfig::JP2T.get_file_name(), "jp2t.json");
    assert_eq!(DefaultConfig::S2HK.get_file_name(), "s2hk.json");
    assert_eq!(DefaultConfig::S2T.get_file_name(), "s2t.json");
    assert_eq!(DefaultConfig::S2TW.get_file_name(), "s2tw.json");
    assert_eq!(DefaultConfig::S2TWP.get_file_name(), "s2twp.json");
    assert_eq!(DefaultConfig::T2HK.get_file_name(), "t2hk.json");
    assert_eq!(DefaultConfig::T2JP.get_file_name(), "t2jp.json");
    assert_eq!(DefaultConfig::T2S.get_file_name(), "t2s.json");
    assert_eq!(DefaultConfig::T2TW.get_file_name(), "t2tw.json");
    assert_eq!(DefaultConfig::TW2S.get_file_name(), "tw2s.json");
    assert_eq!(DefaultConfig::TW2SP.get_file_name(), "tw2sp.json");
    assert_eq!(DefaultConfig::TW2T.get_file_name(), "tw2t.json");
}

#[test]
fn required_assets_per_preset() {
    assert_eq!(
        required_file_names(DefaultConfig::HK2S),
        vec![
            "hk2s.json",
            "TSPhrases.ocd2",
            "HKVariantsRevPhrases.ocd2",
            "HKVariantsRev.ocd2",
            "TSCharacters.ocd2",
        ]
    );
    assert_eq!(
        required_file_names(DefaultConfig::HK2T),
        vec!["hk2t.json", "HKVariantsRevPhrases.ocd2", "HKVariantsRev.ocd2"]
    );
    assert_eq!(
        required_file_names(DefaultConfig::JP2T),
        vec![
            "jp2t.json",
            "JPShinjitaiPhrases.ocd2",
            "JPShinjitaiCharacters.ocd2",
            "JPVariantsRev.ocd2",
        ]
    );
    assert_eq!(
        required_file_names(DefaultConfig::S2HK),
        vec!["s2hk.json", "STPhrases.ocd2", "STCharacters.ocd2", "HKVariants.ocd2"]
    );
    assert_eq!(
        required_file_names(DefaultConfig::S2T),
        vec!["s2t.json", "STPhrases.ocd2", "STCharacters.ocd2"]
    );
    assert_eq!(
        required_file_names(DefaultConfig::S2TW),
        vec!["s2tw.json", "STPhrases.ocd2", "STCharacters.ocd2", "TWVariants.ocd2"]
    );
    assert_eq!(
        required_file_names(DefaultConfig::S2TWP),
        vec![
            "s2twp.json",
            "STPhrases.ocd2",
            "STCharacters.ocd2",
            "TWPhrases.ocd2",
            "TWVariants.ocd2",
        ]
    );
    assert_eq!(
        required_file_names(DefaultConfig::T2HK),
        vec!["t2hk.json", "HKVariants.ocd2"]
    );
    assert_eq!(
        required_file_names(DefaultConfig::T2JP),
        vec!["t2jp.json", "JPVariants.ocd2"]
    );
    assert_eq!(
        required_file_names(DefaultConfig::T2S),
        vec!["t2s.json", "TSPhrases.ocd2", "TSCharacters.ocd2"]
    );
    assert_eq!(
        required_file_names(DefaultConfig::T2TW),
        vec!["t2tw.json", "TWVariants.ocd2"]
    );
    assert_eq!(
        required_file_names(DefaultConfig::TW2S),
        vec![
            "tw2s.json",
            "TSPhrases.ocd2",
            "TWVariantsRevPhrases.ocd2",
            "TWVariantsRev.ocd2",
            "TSCharacters.ocd2",
        ]
    );
    assert_eq!(
        required_file_names(DefaultConfig::TW2SP),
        vec![
            "tw2sp.json",
            "TSPhrases.ocd2",
            "TWPhrasesRev.ocd2",
            "TWVariantsRevPhrases.ocd2",
            "TWVariantsRev.ocd2",
            "TSCharacters.ocd2",
        ]
    );
    assert_eq!(
        required_file_names(DefaultConfig::TW2T),
        vec!["tw2t.json", "TWVariantsRevPhrases.ocd2", "TWVariantsRev.ocd2"]
    );
}

#[test]
fn required_assets_start_with_config_and_have_no_duplicates() {
    let presets = vec![
        DefaultConfig::HK2S,
        DefaultConfig::HK2T,
        DefaultConfig::JP2T,
        DefaultConfig::S2T,
        DefaultConfig::S2TW,
        DefaultConfig::S2TWP,
        DefaultConfig::T2HK,
        DefaultConfig::T2JP,
        DefaultConfig::T2TW,
        DefaultConfig::T2S,
        DefaultConfig::S2HK,
        DefaultConfig::TW2S,
        DefaultConfig::TW2SP,
        DefaultConfig::TW2T,
    ];
    for c in presets {
        let assets = c.required_assets();
        assert!(assets.len() >= 2);
        assert_eq!(assets[0], c.config_asset());
        assert_eq!(assets[0].file_name(), c.get_file_name());
        let names = required_file_names(c);
        for i in 0..names.len() {
            for j in (i + 1)..names.len() {
                assert_ne!(names[i], names[j]);
            }
        }
    }
}

#[test]
fn asset_catalog_is_indexed_without_collisions() {
    let all = AssetName::all();
    assert_eq!(all.len(), 30);
    for (i, a) in all.iter().enumerate() {
        assert_eq!(a.index(), i);
    }
    let names: Vec<&'static str> = all.iter().map(|a| a.file_name()).collect();
    for i in 0..names.len() {
        for j in (i + 1)..names.len() {
            assert_ne!(names[i], names[j]);
        }
    }
}

#[test]
fn asset_store_covers_the_catalog_exactly() {
    let mut contents: Vec<Vec<u8>> = Vec::new();
    for i in 0..30u8 {
        contents.push(vec![i]);
    }
    let store = AssetStore::from_contents(contents).expect("a table of thirty blobs is accepted");
    assert_eq!(store.bytes_for(AssetName::Hk2sConfig), &vec![0u8]);
    assert_eq!(store.bytes_for(AssetName::StPhrases), &vec![22u8]);
    assert_eq!(store.bytes_for(AssetName::TwVariantsRevPhrases), &vec![29u8]);

    let short: Vec<Vec<u8>> = vec![Vec::new(); 29];
    assert!(AssetStore::from_contents(short).is_none());
    let long: Vec<Vec<u8>> = vec![Vec::new(); 31];
    assert!(AssetStore::from_contents(long).is_none());
}

#[test]
fn error_messages_are_stable() {
    assert_eq!(OpenCCError::ConfigLoad.message(), "Cannot use this config file path.");
    assert_eq!(
        OpenCCError::NotADirectory.message(),
        "The path of static dictionaries needs to be a directory."
    );
    assert_eq!(OpenCCError::CreateDirectory.message(), "Cannot create new directories.");
    assert_eq!(OpenCCError::CorruptAsset.message(), "The dictionary is not correct.");
    assert_eq!(OpenCCError::CreateFile.message(), "Cannot create a new file.");
    assert_eq!(OpenCCError::WriteFile.message(), "Cannot write data to a file.");
    assert_eq!(OpenCCError::FlushFile.message(), "Cannot flush file.");
}
