//! A write-once registry of every path the agent touches.
//!
//! Each slot is filled once, in dependency order, from the application
//! identifier; later initialisations leave the registry as it is.

use vstd::prelude::*;

verus! {

/// A named path slot of the registry.
#[derive(Clone, Copy, Debug, PartialEq, Eq, Structural)]
pub enum Slot {
    /// Directory that QMOD files are stored in; `$` stands for the game version.
    Qmods,
    /// The directory that held QMOD files in older builds.
    OldQmods,
    /// The `.nomedia` file added to ModData.
    ModdataNomedia,
    /// Directory containing the modloader.
    ModloaderDir,
    /// Directory containing installed late mod files.
    LateMods,
    /// Directory containing installed early mod files.
    EarlyMods,
    /// Directory containing installed library files.
    Libs,
    /// The Android `files` directory of the app being modded.
    AndroidAppFiles,
    /// `PlayerData.dat` of the vanilla game.
    PlayerData,
    /// Backup of `PlayerData.dat` of the vanilla game.
    PlayerDataBak,
    /// Directory containing OBBs for the app.
    ObbDir,
    /// `PlayerData.dat` of the `datakeeper` mod.
    DatakeeperPlayerData,
    /// Extra copy of `PlayerData.dat` made when modding.
    AuxDataBackup,
    /// Folder that SongCore loads custom levels from.
    CustomLevels,
    /// Folder for temporary downloads.
    MbfDownloads,
    /// Temporary folder used during patching.
    Temp,
    /// The resource cache.
    ResCache,
}

/// `/sdcard/ModData/{id}`, the root of the per-app mod data.
pub open spec fn mod_data_of(id: Seq<char>) -> Seq<char> {
    "/sdcard/ModData/"@ + id
}

/// The modloader directory for `id`.
pub open spec fn modloader_dir_of(id: Seq<char>) -> Seq<char> {
    mod_data_of(id) + "/Modloader"@
}

/// The Android `files` directory for `id`.
pub open spec fn app_files_of(id: Seq<char>) -> Seq<char> {
    "/sdcard/Android/data/"@ + id + "/files"@
}

/// The slot that `s` is composed from, if any.
pub open spec fn dependency(s: Slot) -> Option<Slot> {
    match s {
        Slot::LateMods | Slot::EarlyMods | Slot::Libs => Some(Slot::ModloaderDir),
        Slot::PlayerData | Slot::PlayerDataBak => Some(Slot::AndroidAppFiles),
        _ => None,
    }
}

/// The path that slot `s` holds once the registry is bound to `id`.
pub open spec fn template(s: Slot, id: Seq<char>) -> Seq<char> {
    match s {
        Slot::Qmods => mod_data_of(id) + "/Packages/$"@,
        Slot::OldQmods => "/sdcard/ModsBeforeFriday/Mods"@,
        Slot::ModdataNomedia => mod_data_of(id) + "/.nomedia"@,
        Slot::ModloaderDir => modloader_dir_of(id),
        Slot::LateMods => modloader_dir_of(id) + "/mods"@,
        Slot::EarlyMods => modloader_dir_of(id) + "/early_mods"@,
        Slot::Libs => modloader_dir_of(id) + "/libs"@,
        Slot::AndroidAppFiles => app_files_of(id),
        Slot::PlayerData => app_files_of(id) + "/PlayerData.dat"@,
        Slot::PlayerDataBak => app_files_of(id) + "/PlayerData.dat.bak"@,
        Slot::ObbDir => "/sdcard/Android/obb/"@ + id + "/"@,
        Slot::DatakeeperPlayerData => mod_data_of(id) + "/Mods/datakeeper/PlayerData.dat"@,
        Slot::AuxDataBackup => "/sdcard/ModsBeforeFriday/PlayerData.backup.dat"@,
        Slot::CustomLevels => mod_data_of(id) + "/Mods/SongCore/CustomLevels"@,
        Slot::MbfDownloads => "/data/local/tmp/mbf/downloads"@,
        Slot::Temp => "/data/local/tmp/mbf/tmp"@,
        Slot::ResCache => "/data/local/tmp/mbf/res-cache"@,
    }
}

/// What a slot reads as: its template once bound, empty before.
pub open spec fn expected(bound: Option<Seq<char>>, s: Slot) -> Seq<char> {
    match bound {
        Some(id) => template(s, id),
        None => Seq::empty(),
    }
}

/// Stores `v` in `slot` unless it already holds a value; returns what the
/// slot holds afterwards.
fn fill(slot: &mut Option<String>, v: String) -> (r: String)
    ensures
        old(slot).is_some() ==> *final(slot) == *old(slot),
        old(slot).is_none() ==> *final(slot) == Some(v),
        final(slot).is_some(),
        r@ == final(slot).unwrap()@,
{
    match slot {
        Some(cur) => cur.clone(),
        None => {
            let r = v.clone();
            *slot = Some(v);
            r
        },
    }
}

/// `a` followed by `b`.
fn join(a: &str, b: &str) -> (r: String)
    ensures
        r@ == a@ + b@,
{
    let mut r = String::from_str(a);
    r.append(b);
    r
}

/// `a`, then `b`, then `c`.
fn join3(a: &str, b: &str, c: &str) -> (r: String)
    ensures
        r@ == a@ + b@ + c@,
{
    let mut r = String::from_str(a);
    r.append(b);
    r.append(c);
    r
}

/// The registry of paths, bound to at most one application identifier.
pub struct PathRegistry {
    initialized: bool,
    apk_id: Option<String>,
    qmods: Option<String>,
    old_qmods: Option<String>,
    moddata_nomedia: Option<String>,
    modloader_dir: Option<String>,
    late_mods: Option<String>,
    early_mods: Option<String>,
    libs: Option<String>,
    android_app_files: Option<String>,
    player_data: Option<String>,
    player_data_bak: Option<String>,
    obb_dir: Option<String>,
    datakeeper_player_data: Option<String>,
    aux_data_backup: Option<String>,
    custom_levels: Option<String>,
    mbf_downloads: Option<String>,
    temp: Option<String>,
    res_cache: Option<String>,
}

/// The text of an optional slot, empty when unset.
pub open spec fn text_of(o: Option<String>) -> Seq<char> {
    match o {
        Some(v) => v@,
        None => Seq::empty(),
    }
}

impl PathRegistry {
    /// The storage behind slot `s`.
    spec fn cell(&self, s: Slot) -> Option<String> {
        match s {
            Slot::Qmods => self.qmods,
            Slot::OldQmods => self.old_qmods,
            Slot::ModdataNomedia => self.moddata_nomedia,
            Slot::ModloaderDir => self.modloader_dir,
            Slot::LateMods => self.late_mods,
            Slot::EarlyMods => self.early_mods,
            Slot::Libs => self.libs,
            Slot::AndroidAppFiles => self.android_app_files,
            Slot::PlayerData => self.player_data,
            Slot::PlayerDataBak => self.player_data_bak,
            Slot::ObbDir => self.obb_dir,
            Slot::DatakeeperPlayerData => self.datakeeper_player_data,
            Slot::AuxDataBackup => self.aux_data_backup,
            Slot::CustomLevels => self.custom_levels,
            Slot::MbfDownloads => self.mbf_downloads,
            Slot::Temp => self.temp,
            Slot::ResCache => self.res_cache,
        }
    }

    /// The identifier the registry is bound to, if it has been initialised.
    pub closed spec fn bound(&self) -> Option<Seq<char>> {
        if self.initialized {
            Some(text_of(self.apk_id))
        } else {
            None
        }
    }

    /// What slot `s` reads as.
    pub closed spec fn slot_value(&self, s: Slot) -> Seq<char> {
        text_of(self.cell(s))
    }

    /// Slots are all set once bound and all unset before.
    pub closed spec fn filled(&self) -> bool {
        &&& self.initialized == self.apk_id.is_some()
        &&& forall|s: Slot| #[trigger] self.cell(s).is_some() == self.initialized
    }

    /// Well-formed: every slot reads as its template over the bound identifier.
    pub open spec fn wf(&self) -> bool {
        &&& self.filled()
        &&& forall|s: Slot| #[trigger] self.slot_value(s) == expected(self.bound(), s)
    }

    /// An empty registry, bound to no identifier.
    pub fn new() -> (r: Self)
        ensures
            r.wf(),
            r.bound() is None,
    {
        PathRegistry {
            initialized: false,
            apk_id: None,
            qmods: None,
            old_qmods: None,
            moddata_nomedia: None,
            modloader_dir: None,
            late_mods: None,
            early_mods: None,
            libs: None,
            android_app_files: None,
            player_data: None,
            player_data_bak: None,
            obb_dir: None,
            datakeeper_player_data: None,
            aux_data_backup: None,
            custom_levels: None,
            mbf_downloads: None,
            temp: None,
            res_cache: None,
        }
    }

    /// Whether the registry has been bound to an identifier.
    pub fn is_initialized(&self) -> (r: bool)
        requires
            self.wf(),
        ensures
            r == self.bound().is_some(),
    {
        self.initialized
    }

    /// What slot `s` holds; empty before initialisation.
    pub fn get(&self, s: Slot) -> (r: &str)
        requires
            self.wf(),
        ensures
            r@ == expected(self.bound(), s),
    {
        proof {
            assert(self.slot_value(s) == expected(self.bound(), s));
        }
        match s {
            Slot::Qmods => text(&self.qmods),
            Slot::OldQmods => text(&self.old_qmods),
            Slot::ModdataNomedia => text(&self.moddata_nomedia),
            Slot::ModloaderDir => text(&self.modloader_dir),
            Slot::LateMods => text(&self.late_mods),
            Slot::EarlyMods => text(&self.early_mods),
            Slot::Libs => text(&self.libs),
            Slot::AndroidAppFiles => text(&self.android_app_files),
            Slot::PlayerData => text(&self.player_data),
            Slot::PlayerDataBak => text(&self.player_data_bak),
            Slot::ObbDir => text(&self.obb_dir),
            Slot::DatakeeperPlayerData => text(&self.datakeeper_player_data),
            Slot::AuxDataBackup => text(&self.aux_data_backup),
            Slot::CustomLevels => text(&self.custom_levels),
            Slot::MbfDownloads => text(&self.mbf_downloads),
            Slot::Temp => text(&self.temp),
            Slot::ResCache => text(&self.res_cache),
        }
    }

    /// Directory that QMOD files are stored in; `$` stands for the game version.
    pub fn qmods(&self) -> (r: &str)
        requires
            self.wf(),
        ensures
            r@ == expected(self.bound(), Slot::Qmods),
    {
        self.get(Slot::Qmods)
    }

    /// The directory that held QMOD files in older builds.
    pub fn old_qmods(&self) -> (r: &str)
        requires
            self.wf(),
        ensures
            r@ == expected(self.bound(), Slot::OldQmods),
    {
        self.get(Slot::OldQmods)
    }

    /// The `.nomedia` file added to ModData.
    pub fn moddata_nomedia(&self) -> (r: &str)
        requires
            self.wf(),
        ensures
            r@ == expected(self.bound(), Slot::ModdataNomedia),
    {
        self.get(Slot::ModdataNomedia)
    }

    /// Directory containing the modloader.
    pub fn modloader_dir(&self) -> (r: &str)
        requires
            self.wf(),
        ensures
            r@ == expected(self.bound(), Slot::ModloaderDir),
    {
        self.get(Slot::ModloaderDir)
    }

    /// Directory containing installed late mod files.
    pub fn late_mods(&self) -> (r: &str)
        requires
            self.wf(),
        ensures
            r@ == expected(self.bound(), Slot::LateMods),
    {
        self.get(Slot::LateMods)
    }

    /// Directory containing installed early mod files.
    pub fn early_mods(&self) -> (r: &str)
        requires
            self.wf(),
        ensures
            r@ == expected(self.bound(), Slot::EarlyMods),
    {
        self.get(Slot::EarlyMods)
    }

    /// Directory containing installed library files.
    pub fn libs(&self) -> (r: &str)
        requires
            self.wf(),
        ensures
            r@ == expected(self.bound(), Slot::Libs),
    {
        self.get(Slot::Libs)
    }

    /// The Android `files` directory of the app being modded.
    pub fn android_app_files(&self) -> (r: &str)
        requires
            self.wf(),
        ensures
            r@ == expected(self.bound(), Slot::AndroidAppFiles),
    {
        self.get(Slot::AndroidAppFiles)
    }

    /// `PlayerData.dat` of the vanilla game.
    pub fn player_data(&self) -> (r: &str)
        requires
            self.wf(),
        ensures
            r@ == expected(self.bound(), Slot::PlayerData),
    {
        self.get(Slot::PlayerData)
    }

    /// Backup of `PlayerData.dat` of the vanilla game.
    pub fn player_data_bak(&self) -> (r: &str)
        requires
            self.wf(),
        ensures
            r@ == expected(self.bound(), Slot::PlayerDataBak),
    {
        self.get(Slot::PlayerDataBak)
    }

    /// Directory containing OBBs for the app.
    pub fn obb_dir(&self) -> (r: &str)
        requires
            self.wf(),
        ensures
            r@ == expected(self.bound(), Slot::ObbDir),
    {
        self.get(Slot::ObbDir)
    }

    /// `PlayerData.dat` of the `datakeeper` mod.
    pub fn datakeeper_player_data(&self) -> (r: &str)
        requires
            self.wf(),
        ensures
            r@ == expected(self.bound(), Slot::DatakeeperPlayerData),
    {
        self.get(Slot::DatakeeperPlayerData)
    }

    /// Extra copy of `PlayerData.dat` made when modding.
    pub fn aux_data_backup(&self) -> (r: &str)
        requires
            self.wf(),
        ensures
            r@ == expected(self.bound(), Slot::AuxDataBackup),
    {
        self.get(Slot::AuxDataBackup)
    }

    /// Folder that SongCore loads custom levels from.
    pub fn custom_levels(&self) -> (r: &str)
        requires
            self.wf(),
        ensures
            r@ == expected(self.bound(), Slot::CustomLevels),
    {
        self.get(Slot::CustomLevels)
    }

    /// Folder for temporary downloads.
    pub fn mbf_downloads(&self) -> (r: &str)
        requires
            self.wf(),
        ensures
            r@ == expected(self.bound(), Slot::MbfDownloads),
    {
        self.get(Slot::MbfDownloads)
    }

    /// Temporary folder used during patching.
    pub fn temp(&self) -> (r: &str)
        requires
            self.wf(),
        ensures
            r@ == expected(self.bound(), Slot::Temp),
    {
        self.get(Slot::Temp)
    }

    /// The resource cache.
    pub fn res_cache(&self) -> (r: &str)
        requires
            self.wf(),
        ensures
            r@ == expected(self.bound(), Slot::ResCache),
    {
        self.get(Slot::ResCache)
    }
}

/// The text held by `o`, empty when unset.
fn text(o: &Option<String>) -> (r: &str)
    ensures
        r@ == text_of(*o),
{
    match o {
        Some(v) => v.as_str(),
        None => {
            proof {
                reveal_strlit("");
            }
            ""
        },
    }
}

/// `post` is `pre` after initialisation with `id`: bound to the identifier
/// `pre` was bound to, or to `id` if it was bound to none.
pub open spec fn init_post(pre: PathRegistry, id: Seq<char>, post: PathRegistry) -> bool {
    &&& post.wf()
    &&& post.bound() == Some(
        match pre.bound() {
            Some(b) => b,
            None => id,
        },
    )
}

/// Binds `reg` to `apk_id` and fills every slot in dependency order; does
/// nothing when `reg` is already bound.
pub fn init_paths(reg: &mut PathRegistry, apk_id: &str)
    requires
        old(reg).wf(),
    ensures
        init_post(*old(reg), apk_id@, *final(reg)),
        old(reg).bound() is Some ==> *final(reg) == *old(reg),
{
    if reg.initialized {
        return;
    }
    let ghost pre = *reg;
    let id = fill(&mut reg.apk_id, String::from_str(apk_id));
    let id = id.as_str();
    fill(&mut reg.qmods, join3("/sdcard/ModData/", id, "/Packages/$"));
    fill(&mut reg.old_qmods, String::from_str("/sdcard/ModsBeforeFriday/Mods"));
    fill(&mut reg.moddata_nomedia, join3("/sdcard/ModData/", id, "/.nomedia"));
    let modloader_dir = fill(&mut reg.modloader_dir, join3("/sdcard/ModData/", id, "/Modloader"));
    let modloader_dir = modloader_dir.as_str();
    fill(&mut reg.late_mods, join(modloader_dir, "/mods"));
    fill(&mut reg.early_mods, join(modloader_dir, "/early_mods"));
    fill(&mut reg.libs, join(modloader_dir, "/libs"));
    let app_files = fill(&mut reg.android_app_files, join3("/sdcard/Android/data/", id, "/files"));
    let app_files = app_files.as_str();
    fill(&mut reg.player_data, join(app_files, "/PlayerData.dat"));
    fill(&mut reg.player_data_bak, join(app_files, "/PlayerData.dat.bak"));
    fill(&mut reg.obb_dir, join3("/sdcard/Android/obb/", id, "/"));
    fill(
        &mut reg.datakeeper_player_data,
        join3("/sdcard/ModData/", id, "/Mods/datakeeper/PlayerData.dat"),
    );
    fill(&mut reg.aux_data_backup, String::from_str("/sdcard/ModsBeforeFriday/PlayerData.backup.dat"));
    fill(&mut reg.custom_levels, join3("/sdcard/ModData/", id, "/Mods/SongCore/CustomLevels"));
    fill(&mut reg.mbf_downloads, String::from_str("/data/local/tmp/mbf/downloads"));
    fill(&mut reg.temp, String::from_str("/data/local/tmp/mbf/tmp"));
    fill(&mut reg.res_cache, String::from_str("/data/local/tmp/mbf/res-cache"));
    reg.initialized = true;
    proof {
        assert forall|s: Slot| #[trigger] reg.slot_value(s) == expected(reg.bound(), s) by {
            match s {
                Slot::Qmods => assert(pre.cell(Slot::Qmods) is None),
                Slot::OldQmods => assert(pre.cell(Slot::OldQmods) is None),
                Slot::ModdataNomedia => assert(pre.cell(Slot::ModdataNomedia) is None),
                Slot::ModloaderDir => assert(pre.cell(Slot::ModloaderDir) is None),
                Slot::LateMods => assert(pre.cell(Slot::LateMods) is None),
                Slot::EarlyMods => assert(pre.cell(Slot::EarlyMods) is None),
                Slot::Libs => assert(pre.cell(Slot::Libs) is None),
                Slot::AndroidAppFiles => assert(pre.cell(Slot::AndroidAppFiles) is None),
                Slot::PlayerData => assert(pre.cell(Slot::PlayerData) is None),
                Slot::PlayerDataBak => assert(pre.cell(Slot::PlayerDataBak) is None),
                Slot::ObbDir => assert(pre.cell(Slot::ObbDir) is None),
                Slot::DatakeeperPlayerData => assert(pre.cell(Slot::DatakeeperPlayerData) is None),
                Slot::AuxDataBackup => assert(pre.cell(Slot::AuxDataBackup) is None),
                Slot::CustomLevels => assert(pre.cell(Slot::CustomLevels) is None),
                Slot::MbfDownloads => assert(pre.cell(Slot::MbfDownloads) is None),
                Slot::Temp => assert(pre.cell(Slot::Temp) is None),
                Slot::ResCache => assert(pre.cell(Slot::ResCache) is None),            }
        }
    }
}

/// Paths used by earlier versions of the agent, to be removed if found.
pub open spec fn legacy_dir_list() -> Seq<Seq<char>> {
    seq![
        "/data/local/tmp/mbf-downloads"@,
        "/data/local/tmp/mbf-res-cache"@,
        "/data/local/tmp/mbf-tmp"@,
        "/data/local/tmp/mbf-uploads"@,
    ]
}

/// The legacy paths, in order; needs no registry.
pub fn legacy_dirs() -> (r: Vec<&'static str>)
    ensures
        r@.len() == legacy_dir_list().len(),
        forall|i: int| 0 <= i < r@.len() ==> (#[trigger] r@[i])@ == legacy_dir_list()[i],
{
    let mut r: Vec<&'static str> = Vec::new();
    r.push("/data/local/tmp/mbf-downloads");
    r.push("/data/local/tmp/mbf-res-cache");
    r.push("/data/local/tmp/mbf-tmp");
    r.push("/data/local/tmp/mbf-uploads");
    r
}

/// Every template yields a non-empty path.
pub proof fn lemma_template_nonempty(s: Slot, id: Seq<char>)
    ensures
        template(s, id).len() > 0,
{
    reveal_strlit("/sdcard/ModData/");
    reveal_strlit("/sdcard/Android/data/");
    reveal_strlit("/sdcard/Android/obb/");
    reveal_strlit("/sdcard/ModsBeforeFriday/Mods");
    reveal_strlit("/sdcard/ModsBeforeFriday/PlayerData.backup.dat");
    reveal_strlit("/data/local/tmp/mbf/downloads");
    reveal_strlit("/data/local/tmp/mbf/tmp");
    reveal_strlit("/data/local/tmp/mbf/res-cache");
}

/// Once a registry is bound to `id`, every slot reads as its non-empty
/// template over `id`, and initialising it again with any identifier leaves
/// every slot as it was, so repeated reads agree.
pub proof fn lemma_reads_stable(
    reg: PathRegistry,
    id: Seq<char>,
    other: Seq<char>,
    after: PathRegistry,
    s: Slot,
)
    requires
        reg.wf(),
        reg.bound() == Some(id),
        init_post(reg, other, after),
    ensures
        reg.slot_value(s) == template(s, id),
        reg.slot_value(s).len() > 0,
        after.slot_value(s) == reg.slot_value(s),
{
    lemma_template_nonempty(s, id);
}

/// Initialising an unbound registry with `first`, then with `second`, leaves
/// every slot derived from `first` alone.
pub proof fn lemma_first_write_wins(
    empty: PathRegistry,
    first: Seq<char>,
    mid: PathRegistry,
    second: Seq<char>,
    last: PathRegistry,
)
    requires
        empty.wf(),
        empty.bound() is None,
        init_post(empty, first, mid),
        init_post(mid, second, last),
    ensures
        last.bound() == Some(first),
        forall|s: Slot| #[trigger] last.slot_value(s) == template(s, first),
{
}

/// In a bound registry each dependent slot is its dependency's path with a
/// suffix appended, and so starts with it.
pub proof fn lemma_composition(reg: PathRegistry, id: Seq<char>)
    requires
        reg.wf(),
        reg.bound() == Some(id),
    ensures
        forall|s: Slot|
            #[trigger] dependency(s) is Some ==> reg.slot_value(
                dependency(s)->Some_0,
            ).is_prefix_of(reg.slot_value(s)),
        reg.slot_value(Slot::LateMods) == reg.slot_value(Slot::ModloaderDir) + "/mods"@,
        reg.slot_value(Slot::EarlyMods) == reg.slot_value(Slot::ModloaderDir) + "/early_mods"@,
        reg.slot_value(Slot::Libs) == reg.slot_value(Slot::ModloaderDir) + "/libs"@,
        reg.slot_value(Slot::PlayerData) == reg.slot_value(Slot::AndroidAppFiles)
            + "/PlayerData.dat"@,
        reg.slot_value(Slot::PlayerDataBak) == reg.slot_value(Slot::AndroidAppFiles)
            + "/PlayerData.dat.bak"@,
{
    assert forall|s: Slot| #[trigger]
        dependency(s) is Some implies reg.slot_value(dependency(s)->Some_0).is_prefix_of(
            reg.slot_value(s),
        ) by {
        let d = dependency(s)->Some_0;
        let a = reg.slot_value(d);
        let b = reg.slot_value(s);
        assert(b.subrange(0, a.len() as int) =~= a);
    }
}

/// The legacy list has four non-empty absolute paths; it depends on no
/// registry, so every read gives the same list.
pub proof fn lemma_legacy_fixed()
    ensures
        legacy_dir_list().len() == 4,
        forall|i: int|
            0 <= i < 4 ==> (#[trigger] legacy_dir_list()[i]).len() > 0 && legacy_dir_list()[i][0]
                == '/',
{
    reveal_strlit("/data/local/tmp/mbf-downloads");
    reveal_strlit("/data/local/tmp/mbf-res-cache");
    reveal_strlit("/data/local/tmp/mbf-tmp");
    reveal_strlit("/data/local/tmp/mbf-uploads");
}

} // verus!
