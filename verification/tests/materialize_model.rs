use opencc_rust::materialize::materialize_files;
use opencc_rust::materialize::materialize_preset;
use opencc_rust::materialize::materialize_presets;
use opencc_rust::materialize::plan_entry;
use opencc_rust::materialize::plan_target_directory;
use opencc_rust::materialize::DirectoryPlan;
use opencc_rust::materialize::DirectoryStatus;
use opencc_rust::materialize::EntryPlan;
use opencc_rust::materialize::EntryStatus;
use opencc_rust::materialize::TargetDirectory;
use opencc_rust::AssetName;
use opencc_rust::AssetStore;
use opencc_rust::DefaultConfig;
use opencc_rust::OpenCCError;

fn sample_store() -> AssetStore {
    let mut contents: Vec<Vec<u8>> = Vec::new();
    for i in 0..30u8 {
        contents.push(vec![i, 0xAB, i]);
    }
    AssetStore::from_contents(contents).expect("a table of thirty blobs is accepted")
}

fn snapshot(d: &TargetDirectory) -> Vec<Option<Vec<u8>>> {
    AssetName::all().into_iter().map(|a| d.file_bytes(a).cloned()).collect()
}

#[test]
fn entry_decisions() {
    assert_eq!(plan_entry(EntryStatus::Missing), Ok(EntryPlan::WriteBytes));
    assert_eq!(plan_entry(EntryStatus::IsFile), Ok(EntryPlan::AlreadyPresent));
    assert_eq!(plan_entry(EntryStatus::IsOther), Err(OpenCCError::CorruptAsset));
}

#[test]
fn directory_decisions() {
    assert_eq!(plan_target_directory(DirectoryStatus::Missing), Ok(DirectoryPlan::Create));
    assert_eq!(
        plan_target_directory(DirectoryStatus::IsDirectory),
        Ok(DirectoryPlan::UseExisting)
    );
    assert_eq!(
        plan_target_directory(DirectoryStatus::IsOther),
        Err(OpenCCError::NotADirectory)
    );
}

#[test]
fn materialize_writes_store_bytes_into_an_empty_directory() {
    let store = sample_store();
    let mut dir = TargetDirectory::new();
    let r = materialize_preset(&mut dir, DefaultConfig::TW2SP, &store);
    assert_eq!(r, Ok(()));
    for a in DefaultConfig::TW2SP.required_assets() {
        assert_eq!(dir.status(a), EntryStatus::IsFile);
        assert_eq!(dir.file_bytes(a), Some(store.bytes_for(a)));
    }
    // Assets outside the preset's list stay vacant.
    assert_eq!(dir.status(AssetName::JpVariants), EntryStatus::Missing);
    assert_eq!(dir.file_bytes(AssetName::JpVariants), None);
}

#[test]
fn materialize_twice_is_idempotent() {
    let store = sample_store();
    let mut dir = TargetDirectory::new();
    assert_eq!(materialize_preset(&mut dir, DefaultConfig::TW2SP, &store), Ok(()));
    let after_first = snapshot(&dir);
    assert_eq!(materialize_preset(&mut dir, DefaultConfig::TW2SP, &store), Ok(()));
    let after_second = snapshot(&dir);
    assert_eq!(after_first, after_second);
}

#[test]
fn materialize_keeps_a_pre_existing_file_unchanged() {
    let store = sample_store();
    let mut dir = TargetDirectory::new();
    let custom: Vec<u8> = vec![0xFF, 0xFE];
    dir.place_file(AssetName::TsPhrases, custom.clone());
    assert_eq!(materialize_preset(&mut dir, DefaultConfig::TW2SP, &store), Ok(()));
    // The occupied slot was skipped, not overwritten.
    assert_eq!(dir.file_bytes(AssetName::TsPhrases), Some(&custom));
    // The vacant slots were still filled.
    assert_eq!(
        dir.file_bytes(AssetName::Tw2spConfig),
        Some(store.bytes_for(AssetName::Tw2spConfig))
    );
}

#[test]
fn corrupt_slot_fails_and_modifies_no_other_file() {
    let store = sample_store();
    let mut dir = TargetDirectory::new();
    // A directory occupies the slot of a required asset.
    dir.place_other(AssetName::TwPhrasesRev);
    // Another required asset already holds a file of its own.
    let custom: Vec<u8> = vec![7, 7, 7];
    dir.place_file(AssetName::TsCharacters, custom.clone());
    let r = materialize_preset(&mut dir, DefaultConfig::TW2SP, &store);
    assert_eq!(r, Err(OpenCCError::CorruptAsset));
    assert_eq!(r.unwrap_err().message(), "The dictionary is not correct.");
    // The corrupt slot is left as it is.
    assert_eq!(dir.status(AssetName::TwPhrasesRev), EntryStatus::IsOther);
    // The pre-existing file is untouched.
    assert_eq!(dir.file_bytes(AssetName::TsCharacters), Some(&custom));
    // Assets listed before the corrupt slot were written; those after it
    // were not (the run aborts at the first corrupt slot, with no rollback).
    assert_eq!(dir.status(AssetName::Tw2spConfig), EntryStatus::IsFile);
    assert_eq!(dir.status(AssetName::TsPhrases), EntryStatus::IsFile);
    assert_eq!(dir.status(AssetName::TwVariantsRevPhrases), EntryStatus::Missing);
    assert_eq!(dir.status(AssetName::TwVariantsRev), EntryStatus::Missing);
}

#[test]
fn corrupt_slot_not_in_the_preset_is_ignored() {
    let store = sample_store();
    let mut dir = TargetDirectory::new();
    dir.place_other(AssetName::JpVariants);
    assert_eq!(materialize_preset(&mut dir, DefaultConfig::T2TW, &store), Ok(()));
    assert_eq!(dir.status(AssetName::JpVariants), EntryStatus::IsOther);
}

#[test]
fn materialize_presets_stops_at_the_first_failure() {
    let store = sample_store();
    let mut dir = TargetDirectory::new();
    dir.place_other(AssetName::HkVariants);
    let configs = vec![DefaultConfig::T2TW, DefaultConfig::T2HK, DefaultConfig::T2JP];
    let r = materialize_presets(&mut dir, &configs, &store);
    assert_eq!(r, Err(OpenCCError::CorruptAsset));
    // The first preset was materialized in full before the failure.
    for a in DefaultConfig::T2TW.required_assets() {
        assert_eq!(dir.status(a), EntryStatus::IsFile);
    }
    // The second preset aborted at its corrupt slot; the third never ran.
    assert_eq!(dir.status(AssetName::T2hkConfig), EntryStatus::IsFile);
    assert_eq!(dir.status(AssetName::T2jpConfig), EntryStatus::Missing);
    assert_eq!(dir.status(AssetName::JpVariants), EntryStatus::Missing);
}

#[test]
fn duplicate_assets_in_a_list_are_written_once() {
    let store = sample_store();
    let mut dir = TargetDirectory::new();
    let files = vec![AssetName::TsPhrases, AssetName::TsPhrases];
    assert_eq!(materialize_files(&mut dir, &files, &store), Ok(()));
    assert_eq!(dir.file_bytes(AssetName::TsPhrases), Some(store.bytes_for(AssetName::TsPhrases)));
}

#[test]
fn materialize_presets_succeeds_over_shared_dictionaries() {
    let store = sample_store();
    let mut dir = TargetDirectory::new();
    // S2T and S2TW share the ST dictionaries; the overlap is deduplicated by
    // the skip of already-present files.
    let configs = vec![DefaultConfig::S2T, DefaultConfig::S2TW];
    assert_eq!(materialize_presets(&mut dir, &configs, &store), Ok(()));
    for a in DefaultConfig::S2T.required_assets() {
        assert_eq!(dir.file_bytes(a), Some(store.bytes_for(a)));
    }
    for a in DefaultConfig::S2TW.required_assets() {
        assert_eq!(dir.file_bytes(a), Some(store.bytes_for(a)));
    }
}
