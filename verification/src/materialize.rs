//! Materialization of bundled assets into a target directory, and the laws
//! that make it idempotent.
//!
//! The filesystem itself is outside this crate; here it is modelled by the
//! slots the catalog's assets can occupy in the target directory. The model
//! fixes every decision the surrounding I/O code must make — skip a slot
//! already holding a regular file, refuse a slot holding anything else,
//! write the store's bytes verbatim into a vacant slot, abort at the first
//! failure with no rollback — and proves the properties those decisions buy:
//! a second run changes nothing, pre-existing entries are never modified,
//! and a run fails exactly when a required slot is corrupt.

use vstd::prelude::*;

use crate::asset::lemma_asset_index;
use crate::asset::lemma_asset_index_injective;
use crate::asset::spec_index;
use crate::asset::AssetName;
use crate::asset::AssetStore;
use crate::asset::ASSET_COUNT;
use crate::config::lemma_required_assets_config_first;
use crate::config::spec_config_asset;
use crate::config::spec_required_assets;
use crate::config::DefaultConfig;
use crate::engine::own_output;
use crate::error::OpenCCError;

verus! {

/// What one asset's slot in the target directory holds.
pub enum Slot {
    /// Nothing exists under the asset's name.
    Vacant,
    /// A regular file with these bytes.
    File(Vec<u8>),
    /// Something that is not a regular file (for example a directory).
    Other,
}

/// The mathematical value of a slot.
pub enum SlotModel {
    /// Nothing exists under the asset's name.
    Vacant,
    /// A regular file with these bytes.
    File(Seq<u8>),
    /// Something that is not a regular file.
    Other,
}

/// The mathematical value of one slot.
pub open spec fn slot_model(s: Slot) -> SlotModel {
    match s {
        Slot::Vacant => SlotModel::Vacant,
        Slot::File(bytes) => SlotModel::File(bytes@),
        Slot::Other => SlotModel::Other,
    }
}

/// What a probe of one asset's name in the target directory observed.
#[derive(Clone, Copy, Debug, PartialEq, Eq, Structural)]
pub enum EntryStatus {
    /// Nothing exists under that name.
    Missing,
    /// A regular file exists under that name.
    IsFile,
    /// Something exists under that name that is not a regular file.
    IsOther,
}

/// What to do with one asset's slot.
#[derive(Clone, Copy, Debug, PartialEq, Eq, Structural)]
pub enum EntryPlan {
    /// Create the file and write the asset's bytes verbatim.
    WriteBytes,
    /// Leave the slot untouched: the asset counts as already materialized.
    AlreadyPresent,
}

/// What a probe of the target directory path itself observed.
#[derive(Clone, Copy, Debug, PartialEq, Eq, Structural)]
pub enum DirectoryStatus {
    /// The path does not exist.
    Missing,
    /// The path exists and is a directory.
    IsDirectory,
    /// The path exists and is not a directory.
    IsOther,
}

/// What to do with the target directory path.
#[derive(Clone, Copy, Debug, PartialEq, Eq, Structural)]
pub enum DirectoryPlan {
    /// Create the directory and all missing ancestors.
    Create,
    /// Use the directory as it is.
    UseExisting,
}

/// Decide what to do with one asset's slot from what a probe of it observed:
/// a missing entry is written, a regular file is kept as it is, and anything
/// else occupying the slot is a corrupt asset.
pub fn plan_entry(status: EntryStatus) -> (r: Result<EntryPlan, OpenCCError>)
    ensures
        status == EntryStatus::Missing ==> r == Ok::<EntryPlan, OpenCCError>(EntryPlan::WriteBytes),
        status == EntryStatus::IsFile ==> r == Ok::<EntryPlan, OpenCCError>(
            EntryPlan::AlreadyPresent,
        ),
        status == EntryStatus::IsOther ==> r == Err::<EntryPlan, OpenCCError>(
            OpenCCError::CorruptAsset,
        ),
{
    match status {
        EntryStatus::Missing => Ok(EntryPlan::WriteBytes),
        EntryStatus::IsFile => Ok(EntryPlan::AlreadyPresent),
        EntryStatus::IsOther => Err(OpenCCError::CorruptAsset),
    }
}

/// Decide what to do with the target directory path from what a probe of it
/// observed: an absent path is created with its ancestors, an existing
/// directory is used as it is, and an existing non-directory is refused.
pub fn plan_target_directory(status: DirectoryStatus) -> (r: Result<DirectoryPlan, OpenCCError>)
    ensures
        status == DirectoryStatus::Missing ==> r == Ok::<DirectoryPlan, OpenCCError>(
            DirectoryPlan::Create,
        ),
        status == DirectoryStatus::IsDirectory ==> r == Ok::<DirectoryPlan, OpenCCError>(
            DirectoryPlan::UseExisting,
        ),
        status == DirectoryStatus::IsOther ==> r == Err::<DirectoryPlan, OpenCCError>(
            OpenCCError::NotADirectory,
        ),
{
    match status {
        DirectoryStatus::Missing => Ok(DirectoryPlan::Create),
        DirectoryStatus::IsDirectory => Ok(DirectoryPlan::UseExisting),
        DirectoryStatus::IsOther => Err(OpenCCError::NotADirectory),
    }
}

/// The slots the catalog's assets occupy in one target directory: slot `i`
/// belongs to the asset whose table index is `i`. Entries of the directory
/// under other names are never touched by materialization and stand outside
/// the model.
pub struct TargetDirectory {
    slots: Vec<Slot>,
}

impl View for TargetDirectory {
    type V = Seq<SlotModel>;

    closed spec fn view(&self) -> Seq<SlotModel> {
        self.slots@.map(|i: int, s: Slot| slot_model(s))
    }
}

/// The status a probe of slot `a` observes in directory `dir`.
pub open spec fn spec_status(dir: Seq<SlotModel>, a: AssetName) -> EntryStatus {
    match dir[spec_index(a)] {
        SlotModel::Vacant => EntryStatus::Missing,
        SlotModel::File(bytes) => EntryStatus::IsFile,
        SlotModel::Other => EntryStatus::IsOther,
    }
}

impl TargetDirectory {
    /// The model covers one slot per asset of the catalog.
    pub open spec fn wf(self) -> bool {
        self@.len() == ASSET_COUNT as int
    }

    /// An empty target directory: every asset's slot is vacant.
    pub fn new() -> (r: TargetDirectory)
        ensures
            r.wf(),
            forall|k: int| 0 <= k < ASSET_COUNT as int ==> r@[k] == SlotModel::Vacant,
    {
        let mut slots: Vec<Slot> = Vec::new();
        let mut i: usize = 0;
        while i < ASSET_COUNT
            invariant
                i <= ASSET_COUNT,
                slots@.len() == i as int,
                forall|k: int| 0 <= k < i as int ==> slots@[k] == Slot::Vacant,
            decreases ASSET_COUNT - i,
        {
            slots.push(Slot::Vacant);
            i = i + 1;
        }
        TargetDirectory { slots }
    }

    /// Probe the slot of asset `a`.
    pub fn status(&self, a: AssetName) -> (r: EntryStatus)
        requires
            self.wf(),
        ensures
            r == spec_status(self@, a),
    {
        let i = a.index();
        match &self.slots[i] {
            Slot::Vacant => EntryStatus::Missing,
            Slot::File(_) => EntryStatus::IsFile,
            Slot::Other => EntryStatus::IsOther,
        }
    }

    /// Put a regular file with the given bytes into the slot of asset `a`,
    /// replacing whatever the slot held.
    pub fn place_file(&mut self, a: AssetName, bytes: Vec<u8>)
        requires
            old(self).wf(),
        ensures
            final(self).wf(),
            final(self)@ == old(self)@.update(spec_index(a), SlotModel::File(bytes@)),
    {
        let i = a.index();
        self.slots.set(i, Slot::File(bytes));
        proof {
            assert(final(self)@ =~= old(self)@.update(spec_index(a), SlotModel::File(bytes@)));
        }
    }

    /// Put something that is not a regular file (such as a directory) into
    /// the slot of asset `a`, replacing whatever the slot held.
    pub fn place_other(&mut self, a: AssetName)
        requires
            old(self).wf(),
        ensures
            final(self).wf(),
            final(self)@ == old(self)@.update(spec_index(a), SlotModel::Other),
    {
        let i = a.index();
        self.slots.set(i, Slot::Other);
        proof {
            assert(final(self)@ =~= old(self)@.update(spec_index(a), SlotModel::Other));
        }
    }

    /// The bytes of the regular file in the slot of asset `a`, if the slot
    /// holds one.
    pub fn file_bytes(&self, a: AssetName) -> (r: Option<&Vec<u8>>)
        requires
            self.wf(),
        ensures
            r is Some <==> self@[spec_index(a)] is File,
            r is Some ==> self@[spec_index(a)] == SlotModel::File(r->Some_0@),
    {
        let i = a.index();
        match &self.slots[i] {
            Slot::File(bytes) => Some(bytes),
            Slot::Vacant => None,
            Slot::Other => None,
        }
    }
}

/// The effect of materializing `files`, in order, into directory `dir` with
/// the contents of `store`: each vacant slot is filled with the store's
/// bytes, each slot holding a file is skipped, and the first slot holding
/// anything else stops the run with a corrupt-asset error and no rollback.
pub open spec fn spec_materialize_files(
    dir: Seq<SlotModel>,
    files: Seq<AssetName>,
    store: AssetStore,
) -> (Seq<SlotModel>, Option<OpenCCError>)
    decreases files.len(),
{
    if files.len() == 0 {
        (dir, None)
    } else {
        let a = files[0];
        let rest = files.subrange(1, files.len() as int);
        match dir[spec_index(a)] {
            SlotModel::Vacant => spec_materialize_files(
                dir.update(spec_index(a), SlotModel::File(store.spec_bytes(a))),
                rest,
                store,
            ),
            SlotModel::File(bytes) => spec_materialize_files(dir, rest, store),
            SlotModel::Other => (dir, Some(OpenCCError::CorruptAsset)),
        }
    }
}

/// The effect of materializing several presets in sequence: the first
/// failure aborts the remaining presets, and nothing already written is
/// rolled back.
pub open spec fn spec_materialize_presets(
    dir: Seq<SlotModel>,
    configs: Seq<DefaultConfig>,
    store: AssetStore,
) -> (Seq<SlotModel>, Option<OpenCCError>)
    decreases configs.len(),
{
    if configs.len() == 0 {
        (dir, None)
    } else {
        let run = spec_materialize_files(dir, spec_required_assets(configs[0]), store);
        match run.1 {
            None => spec_materialize_presets(
                run.0,
                configs.subrange(1, configs.len() as int),
                store,
            ),
            Some(e) => (run.0, Some(e)),
        }
    }
}

/// Materialize the given assets, in order, into the target directory.
pub fn materialize_files(
    target: &mut TargetDirectory,
    files: &Vec<AssetName>,
    store: &AssetStore,
) -> (r: Result<(), OpenCCError>)
    requires
        old(target).wf(),
        store.wf(),
    ensures
        final(target).wf(),
        final(target)@ == spec_materialize_files(old(target)@, files@, *store).0,
        r is Ok <==> spec_materialize_files(old(target)@, files@, *store).1 is None,
        r is Ok <==> forall|i: int|
            0 <= i < files@.len() ==> !(old(target)@[spec_index(#[trigger] files@[i])] is Other),
        r is Err ==> Some(r->Err_0) == spec_materialize_files(old(target)@, files@, *store).1,
        r is Err ==> r->Err_0 == OpenCCError::CorruptAsset,
{
    let ghost dir0: Seq<SlotModel> = target@;
    let mut i: usize = 0;
    proof {
        assert(files@.subrange(0, files@.len() as int) =~= files@);
    }
    while i < files.len()
        invariant
            i <= files@.len(),
            target.wf(),
            store.wf(),
            dir0 == old(target)@,
            dir0.len() == ASSET_COUNT as int,
            spec_materialize_files(dir0, files@, *store) == spec_materialize_files(
                target@,
                files@.subrange(i as int, files@.len() as int),
                *store,
            ),
        decreases files@.len() - i,
    {
        let a = files[i];
        let ghost before: Seq<SlotModel> = target@;
        let ghost tail: Seq<AssetName> = files@.subrange(i as int, files@.len() as int);
        proof {
            assert(tail[0] == files@[i as int]);
            assert(tail.subrange(1, tail.len() as int) =~= files@.subrange(
                i as int + 1,
                files@.len() as int,
            ));
            lemma_asset_index(a);
        }
        let status = target.status(a);
        match plan_entry(status) {
            Ok(EntryPlan::WriteBytes) => {
                let bytes = own_output(store.bytes_for(a).as_slice());
                target.place_file(a, bytes);
            },
            Ok(EntryPlan::AlreadyPresent) => {},
            Err(e) => {
                proof {
                    lemma_materialize_error_iff_corrupt(dir0, files@, *store);
                    assert(spec_materialize_files(dir0, files@, *store).1 is Some);
                    let j = choose|j: int|
                        0 <= j < files@.len() && dir0[spec_index(#[trigger] files@[j])] is Other;
                    assert(dir0[spec_index(files@[j])] is Other);
                }
                return Err(e);
            },
        }
        i = i + 1;
    }
    proof {
        assert(files@.subrange(files@.len() as int, files@.len() as int) =~= Seq::<
            AssetName,
        >::empty());
        lemma_materialize_error_iff_corrupt(dir0, files@, *store);
    }
    Ok(())
}

/// Materialize one preset's configuration file and dictionaries into the
/// target directory: its assets in their fixed order, idempotently, aborting
/// at the first slot that holds anything other than a regular file.
pub fn materialize_preset(
    target: &mut TargetDirectory,
    config: DefaultConfig,
    store: &AssetStore,
) -> (r: Result<(), OpenCCError>)
    requires
        old(target).wf(),
        store.wf(),
    ensures
        final(target).wf(),
        final(target)@ == spec_materialize_files(
            old(target)@,
            spec_required_assets(config),
            *store,
        ).0,
        r is Ok <==> spec_materialize_files(old(target)@, spec_required_assets(config), *store).1
            is None,
        r is Ok <==> forall|i: int|
            0 <= i < spec_required_assets(config).len() ==> !(old(target)@[spec_index(
                #[trigger] spec_required_assets(config)[i],
            )] is Other),
        r is Err ==> Some(r->Err_0) == spec_materialize_files(
            old(target)@,
            spec_required_assets(config),
            *store,
        ).1,
        r is Err ==> r->Err_0 == OpenCCError::CorruptAsset,
{
    let files = config.required_assets();
    materialize_files(target, &files, store)
}

/// Materialize several presets in sequence: the first failure aborts the
/// remaining presets and is returned, and nothing already written is rolled
/// back.
pub fn materialize_presets(
    target: &mut TargetDirectory,
    configs: &Vec<DefaultConfig>,
    store: &AssetStore,
) -> (r: Result<(), OpenCCError>)
    requires
        old(target).wf(),
        store.wf(),
    ensures
        final(target).wf(),
        final(target)@ == spec_materialize_presets(old(target)@, configs@, *store).0,
        r is Ok <==> spec_materialize_presets(old(target)@, configs@, *store).1 is None,
        r is Ok <==> forall|j: int, i: int|
            0 <= j < configs@.len() && 0 <= i < spec_required_assets(configs@[j]).len() ==> !(
            old(target)@[spec_index(#[trigger] spec_required_assets(configs@[j])[i])] is Other),
        r is Err ==> Some(r->Err_0) == spec_materialize_presets(old(target)@, configs@, *store).1,
        r is Err ==> r->Err_0 == OpenCCError::CorruptAsset,
{
    let ghost dir0: Seq<SlotModel> = target@;
    let mut i: usize = 0;
    proof {
        assert(configs@.subrange(0, configs@.len() as int) =~= configs@);
    }
    while i < configs.len()
        invariant
            i <= configs@.len(),
            target.wf(),
            store.wf(),
            dir0 == old(target)@,
            dir0.len() == ASSET_COUNT as int,
            spec_materialize_presets(dir0, configs@, *store) == spec_materialize_presets(
                target@,
                configs@.subrange(i as int, configs@.len() as int),
                *store,
            ),
        decreases configs@.len() - i,
    {
        let c = configs[i];
        let ghost tail: Seq<DefaultConfig> = configs@.subrange(i as int, configs@.len() as int);
        proof {
            assert(tail[0] == configs@[i as int]);
            assert(tail.subrange(1, tail.len() as int) =~= configs@.subrange(
                i as int + 1,
                configs@.len() as int,
            ));
        }
        match materialize_preset(target, c, store) {
            Ok(()) => {},
            Err(e) => {
                proof {
                    lemma_presets_error_iff_corrupt(dir0, configs@, *store);
                    assert(spec_materialize_presets(dir0, configs@, *store).1 is Some);
                    let (j, k) = choose|j: int, k: int|
                        0 <= j < configs@.len() && 0 <= k < spec_required_assets(
                            configs@[j],
                        ).len() && dir0[spec_index(
                            #[trigger] spec_required_assets(configs@[j])[k],
                        )] is Other;
                    assert(dir0[spec_index(spec_required_assets(configs@[j])[k])] is Other);
                }
                return Err(e);
            },
        }
        i = i + 1;
    }
    proof {
        assert(configs@.subrange(configs@.len() as int, configs@.len() as int) =~= Seq::<
            DefaultConfig,
        >::empty());
        lemma_presets_error_iff_corrupt(dir0, configs@, *store);
    }
    Ok(())
}

/// Materialization never changes how many slots the directory has.
pub proof fn lemma_materialize_len(dir: Seq<SlotModel>, files: Seq<AssetName>, store: AssetStore)
    requires
        dir.len() == ASSET_COUNT as int,
    ensures
        spec_materialize_files(dir, files, store).0.len() == dir.len(),
    decreases files.len(),
{
    if files.len() > 0 {
        let a = files[0];
        let rest = files.subrange(1, files.len() as int);
        lemma_asset_index(a);
        match dir[spec_index(a)] {
            SlotModel::Vacant => {
                lemma_materialize_len(
                    dir.update(spec_index(a), SlotModel::File(store.spec_bytes(a))),
                    rest,
                    store,
                );
            },
            SlotModel::File(bytes) => {
                lemma_materialize_len(dir, rest, store);
            },
            SlotModel::Other => {},
        }
    }
}

/// Materialization only fills vacant slots: every slot that already held
/// something — a regular file with its bytes, or a corrupt entry — is left
/// exactly as it was, whether the run succeeds or aborts. In particular a
/// repeated run performs zero overwrites, and a failed run modifies no
/// pre-existing entry. Conversely, a slot the run leaves corrupt was corrupt
/// before it.
pub proof fn lemma_materialize_keeps_occupied_slots(
    dir: Seq<SlotModel>,
    files: Seq<AssetName>,
    store: AssetStore,
)
    requires
        dir.len() == ASSET_COUNT as int,
    ensures
        forall|k: int|
            0 <= k < dir.len() && !(dir[k] is Vacant) ==> spec_materialize_files(
                dir,
                files,
                store,
            ).0[k] == dir[k],
        forall|k: int|
            0 <= k < dir.len() && #[trigger] spec_materialize_files(dir, files, store).0[k]
                is Other ==> dir[k] is Other,
    decreases files.len(),
{
    if files.len() > 0 {
        let a = files[0];
        let rest = files.subrange(1, files.len() as int);
        lemma_asset_index(a);
        match dir[spec_index(a)] {
            SlotModel::Vacant => {
                let dir1 = dir.update(spec_index(a), SlotModel::File(store.spec_bytes(a)));
                lemma_materialize_keeps_occupied_slots(dir1, rest, store);
            },
            SlotModel::File(bytes) => {
                lemma_materialize_keeps_occupied_slots(dir, rest, store);
            },
            SlotModel::Other => {},
        }
    }
}

/// After a run that reported no error, every requested asset's slot holds a
/// regular file.
pub proof fn lemma_materialize_success_slots(
    dir: Seq<SlotModel>,
    files: Seq<AssetName>,
    store: AssetStore,
)
    requires
        dir.len() == ASSET_COUNT as int,
        spec_materialize_files(dir, files, store).1 is None,
    ensures
        forall|i: int|
            0 <= i < files.len() ==> spec_materialize_files(dir, files, store).0[spec_index(
                #[trigger] files[i],
            )] is File,
    decreases files.len(),
{
    if files.len() > 0 {
        let a = files[0];
        let rest = files.subrange(1, files.len() as int);
        lemma_asset_index(a);
        match dir[spec_index(a)] {
            SlotModel::Vacant => {
                let dir1 = dir.update(spec_index(a), SlotModel::File(store.spec_bytes(a)));
                lemma_materialize_success_slots(dir1, rest, store);
                lemma_materialize_keeps_occupied_slots(dir1, rest, store);
                assert forall|i: int| 0 <= i < files.len() implies spec_materialize_files(
                    dir,
                    files,
                    store,
                ).0[spec_index(#[trigger] files[i])] is File by {
                    lemma_asset_index(files[i]);
                    if i >= 1 {
                        assert(files[i] == rest[i - 1]);
                    } else {
                        assert(!(dir1[spec_index(a)] is Vacant));
                    }
                }
            },
            SlotModel::File(bytes) => {
                lemma_materialize_success_slots(dir, rest, store);
                lemma_materialize_keeps_occupied_slots(dir, rest, store);
                assert forall|i: int| 0 <= i < files.len() implies spec_materialize_files(
                    dir,
                    files,
                    store,
                ).0[spec_index(#[trigger] files[i])] is File by {
                    lemma_asset_index(files[i]);
                    if i >= 1 {
                        assert(files[i] == rest[i - 1]);
                    } else {
                        assert(!(dir[spec_index(a)] is Vacant));
                    }
                }
            },
            SlotModel::Other => {},
        }
    }
}

/// A run over assets whose slots all hold regular files already does
/// nothing: it reports no error and leaves every slot as it is.
pub proof fn lemma_materialize_skips_done(
    dir: Seq<SlotModel>,
    files: Seq<AssetName>,
    store: AssetStore,
)
    requires
        forall|i: int| 0 <= i < files.len() ==> dir[spec_index(#[trigger] files[i])] is File,
    ensures
        spec_materialize_files(dir, files, store) == (dir, None::<OpenCCError>),
    decreases files.len(),
{
    if files.len() > 0 {
        let a = files[0];
        let rest = files.subrange(1, files.len() as int);
        assert(files[0] == a);
        assert forall|i: int| 0 <= i < rest.len() implies dir[spec_index(
            #[trigger] rest[i],
        )] is File by {
            assert(rest[i] == files[i + 1]);
        }
        lemma_materialize_skips_done(dir, rest, store);
    }
}

/// Idempotence: after a run that reported no error, running the same assets
/// again reports no error, changes no slot, and so performs zero overwrites;
/// the file sets after both runs are byte-identical.
pub proof fn lemma_materialize_idempotent(
    dir: Seq<SlotModel>,
    files: Seq<AssetName>,
    store: AssetStore,
)
    requires
        dir.len() == ASSET_COUNT as int,
        spec_materialize_files(dir, files, store).1 is None,
    ensures
        spec_materialize_files(spec_materialize_files(dir, files, store).0, files, store) == (
            spec_materialize_files(dir, files, store).0,
            None::<OpenCCError>,
        ),
{
    let dir1 = spec_materialize_files(dir, files, store).0;
    lemma_materialize_len(dir, files, store);
    lemma_materialize_success_slots(dir, files, store);
    lemma_materialize_skips_done(dir1, files, store);
}

/// A run fails exactly when some requested asset's slot holds something
/// other than a regular file — and then the error is the corrupt-asset
/// error. Success is owed on every other directory state.
pub proof fn lemma_materialize_error_iff_corrupt(
    dir: Seq<SlotModel>,
    files: Seq<AssetName>,
    store: AssetStore,
)
    requires
        dir.len() == ASSET_COUNT as int,
    ensures
        spec_materialize_files(dir, files, store).1 is Some <==> exists|i: int|
            0 <= i < files.len() && dir[spec_index(#[trigger] files[i])] is Other,
        spec_materialize_files(dir, files, store).1 is Some ==> spec_materialize_files(
            dir,
            files,
            store,
        ).1 == Some(OpenCCError::CorruptAsset),
    decreases files.len(),
{
    if files.len() > 0 {
        let a = files[0];
        let rest = files.subrange(1, files.len() as int);
        lemma_asset_index(a);
        match dir[spec_index(a)] {
            SlotModel::Vacant => {
                let dir1 = dir.update(spec_index(a), SlotModel::File(store.spec_bytes(a)));
                lemma_materialize_error_iff_corrupt(dir1, rest, store);
                assert forall|i: int|
                    0 <= i < rest.len() && dir1[spec_index(#[trigger] rest[i])] is Other implies
                    dir[spec_index(rest[i])] is Other by {
                    lemma_asset_index(rest[i]);
                }
                assert forall|i: int|
                    0 <= i < rest.len() && dir[spec_index(#[trigger] rest[i])] is Other implies
                    dir1[spec_index(rest[i])] is Other by {
                    lemma_asset_index(rest[i]);
                }
                if spec_materialize_files(dir, files, store).1 is Some {
                    let j = choose|j: int|
                        0 <= j < rest.len() && dir1[spec_index(#[trigger] rest[j])] is Other;
                    assert(files[j + 1] == rest[j]);
                    assert(dir[spec_index(files[j + 1])] is Other);
                }
                if exists|i: int|
                    0 <= i < files.len() && dir[spec_index(#[trigger] files[i])] is Other {
                    let j = choose|j: int|
                        0 <= j < files.len() && dir[spec_index(#[trigger] files[j])] is Other;
                    assert(j >= 1);
                    assert(rest[j - 1] == files[j]);
                    assert(dir1[spec_index(rest[j - 1])] is Other);
                }
            },
            SlotModel::File(bytes) => {
                lemma_materialize_error_iff_corrupt(dir, rest, store);
                if spec_materialize_files(dir, files, store).1 is Some {
                    let j = choose|j: int|
                        0 <= j < rest.len() && dir[spec_index(#[trigger] rest[j])] is Other;
                    assert(files[j + 1] == rest[j]);
                }
                if exists|i: int|
                    0 <= i < files.len() && dir[spec_index(#[trigger] files[i])] is Other {
                    let j = choose|j: int|
                        0 <= j < files.len() && dir[spec_index(#[trigger] files[j])] is Other;
                    assert(j >= 1);
                    assert(rest[j - 1] == files[j]);
                }
            },
            SlotModel::Other => {
                assert(dir[spec_index(files[0])] is Other);
            },
        }
    }
}

/// From vacant slots, materialization copies the store's bytes verbatim:
/// after a run that reported no error, every requested asset whose slot was
/// vacant now holds a regular file with exactly the store's bytes for it.
pub proof fn lemma_materialize_writes_store_bytes(
    dir: Seq<SlotModel>,
    files: Seq<AssetName>,
    store: AssetStore,
)
    requires
        dir.len() == ASSET_COUNT as int,
        spec_materialize_files(dir, files, store).1 is None,
    ensures
        forall|i: int|
            0 <= i < files.len() && dir[spec_index(#[trigger] files[i])] is Vacant
                ==> spec_materialize_files(dir, files, store).0[spec_index(files[i])]
                == SlotModel::File(store.spec_bytes(files[i])),
    decreases files.len(),
{
    if files.len() > 0 {
        let a = files[0];
        let rest = files.subrange(1, files.len() as int);
        lemma_asset_index(a);
        match dir[spec_index(a)] {
            SlotModel::Vacant => {
                let dir1 = dir.update(spec_index(a), SlotModel::File(store.spec_bytes(a)));
                lemma_materialize_writes_store_bytes(dir1, rest, store);
                lemma_materialize_keeps_occupied_slots(dir1, rest, store);
                assert forall|i: int|
                    0 <= i < files.len() && dir[spec_index(#[trigger] files[i])] is Vacant implies
                    spec_materialize_files(dir, files, store).0[spec_index(files[i])]
                        == SlotModel::File(store.spec_bytes(files[i])) by {
                    lemma_asset_index(files[i]);
                    if i >= 1 {
                        assert(files[i] == rest[i - 1]);
                        if spec_index(files[i]) == spec_index(a) {
                            lemma_asset_index_injective(files[i], a);
                        }
                    }
                }
            },
            SlotModel::File(bytes) => {
                lemma_materialize_writes_store_bytes(dir, rest, store);
                assert forall|i: int|
                    0 <= i < files.len() && dir[spec_index(#[trigger] files[i])] is Vacant implies
                    spec_materialize_files(dir, files, store).0[spec_index(files[i])]
                        == SlotModel::File(store.spec_bytes(files[i])) by {
                    lemma_asset_index(files[i]);
                    if i >= 1 {
                        assert(files[i] == rest[i - 1]);
                    }
                }
            },
            SlotModel::Other => {},
        }
    }
}

/// After materializing a preset without error, the preset's own
/// configuration file stands in the target directory — the file an engine
/// handle is then opened from; when its slot was vacant it now holds the
/// store's configuration bytes verbatim.
pub proof fn lemma_materialized_config_present(
    dir: Seq<SlotModel>,
    c: DefaultConfig,
    store: AssetStore,
)
    requires
        dir.len() == ASSET_COUNT as int,
        spec_materialize_files(dir, spec_required_assets(c), store).1 is None,
    ensures
        spec_materialize_files(dir, spec_required_assets(c), store).0[spec_index(
            spec_config_asset(c),
        )] is File,
        dir[spec_index(spec_config_asset(c))] is Vacant ==> spec_materialize_files(
            dir,
            spec_required_assets(c),
            store,
        ).0[spec_index(spec_config_asset(c))] == SlotModel::File(
            store.spec_bytes(spec_config_asset(c)),
        ),
{
    lemma_required_assets_config_first(c);
    lemma_materialize_success_slots(dir, spec_required_assets(c), store);
    lemma_materialize_writes_store_bytes(dir, spec_required_assets(c), store);
    assert(spec_required_assets(c)[0] == spec_config_asset(c));
}

/// A run over several presets fails exactly when some requested preset
/// needs an asset whose slot holds something other than a regular file —
/// and then the error is the corrupt-asset error.
pub proof fn lemma_presets_error_iff_corrupt(
    dir: Seq<SlotModel>,
    configs: Seq<DefaultConfig>,
    store: AssetStore,
)
    requires
        dir.len() == ASSET_COUNT as int,
    ensures
        spec_materialize_presets(dir, configs, store).1 is Some <==> exists|j: int, i: int|
            0 <= j < configs.len() && 0 <= i < spec_required_assets(configs[j]).len()
                && dir[spec_index(#[trigger] spec_required_assets(configs[j])[i])] is Other,
        spec_materialize_presets(dir, configs, store).1 is Some ==> spec_materialize_presets(
            dir,
            configs,
            store,
        ).1 == Some(OpenCCError::CorruptAsset),
    decreases configs.len(),
{
    if configs.len() > 0 {
        let c0 = configs[0];
        let req = spec_required_assets(c0);
        let run1 = spec_materialize_files(dir, req, store);
        let rest = configs.subrange(1, configs.len() as int);
        lemma_materialize_error_iff_corrupt(dir, req, store);
        lemma_materialize_len(dir, req, store);
        lemma_materialize_keeps_occupied_slots(dir, req, store);
        match run1.1 {
            Some(e) => {
                let i0 = choose|i: int|
                    0 <= i < req.len() && dir[spec_index(#[trigger] req[i])] is Other;
                assert(0 <= i0 < spec_required_assets(configs[0]).len() && dir[spec_index(
                    spec_required_assets(configs[0])[i0],
                )] is Other);
            },
            None => {
                lemma_presets_error_iff_corrupt(run1.0, rest, store);
                assert forall|k: int| 0 <= k < dir.len() implies (run1.0[k] is Other <==> dir[k]
                    is Other) by {}
                if spec_materialize_presets(dir, configs, store).1 is Some {
                    let (j, i) = choose|j: int, i: int|
                        0 <= j < rest.len() && 0 <= i < spec_required_assets(rest[j]).len()
                            && run1.0[spec_index(
                            #[trigger] spec_required_assets(rest[j])[i],
                        )] is Other;
                    lemma_asset_index(spec_required_assets(rest[j])[i]);
                    assert(rest[j] == configs[j + 1]);
                    assert(dir[spec_index(spec_required_assets(configs[j + 1])[i])] is Other);
                }
                if exists|j: int, i: int|
                    0 <= j < configs.len() && 0 <= i < spec_required_assets(configs[j]).len()
                        && dir[spec_index(#[trigger] spec_required_assets(configs[j])[i])]
                        is Other {
                    let (j, i) = choose|j: int, i: int|
                        0 <= j < configs.len() && 0 <= i < spec_required_assets(configs[j]).len()
                            && dir[spec_index(
                            #[trigger] spec_required_assets(configs[j])[i],
                        )] is Other;
                    lemma_asset_index(spec_required_assets(configs[j])[i]);
                    assert(j >= 1);
                    assert(spec_required_assets(rest[j - 1])[i] == spec_required_assets(
                        configs[j],
                    )[i]);
                    assert(run1.0[spec_index(spec_required_assets(rest[j - 1])[i])] is Other);
                }
            },
        }
    }
}

/// Sequencing presets never modifies an occupied slot either: across a whole
/// run of several presets, every slot that already held something is left
/// exactly as it was, whether the run succeeds or aborts partway.
pub proof fn lemma_presets_keep_occupied_slots(
    dir: Seq<SlotModel>,
    configs: Seq<DefaultConfig>,
    store: AssetStore,
)
    requires
        dir.len() == ASSET_COUNT as int,
    ensures
        forall|k: int|
            0 <= k < dir.len() && !(dir[k] is Vacant) ==> spec_materialize_presets(
                dir,
                configs,
                store,
            ).0[k] == dir[k],
    decreases configs.len(),
{
    if configs.len() > 0 {
        let run = spec_materialize_files(dir, spec_required_assets(configs[0]), store);
        lemma_materialize_keeps_occupied_slots(dir, spec_required_assets(configs[0]), store);
        lemma_materialize_len(dir, spec_required_assets(configs[0]), store);
        match run.1 {
            None => {
                lemma_presets_keep_occupied_slots(
                    run.0,
                    configs.subrange(1, configs.len() as int),
                    store,
                );
            },
            Some(e) => {},
        }
    }
}

} // verus!
