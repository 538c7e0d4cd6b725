use mbf_paths::paths::{init_paths, legacy_dirs, PathRegistry, Slot};

const BEAT_SABER: &str = "com.beatgames.beatsaber";

fn bound(id: &str) -> PathRegistry {
    let mut reg = PathRegistry::new();
    init_paths(&mut reg, id);
    reg
}

#[test]
fn beat_saber_paths() {
    let reg = bound(BEAT_SABER);
    let qmods = reg.qmods();
    assert!(qmods.starts_with("/sdcard/ModData/com.beatgames.beatsaber/Packages/"));
    assert!(qmods.ends_with("$"));
    assert_eq!(qmods, "/sdcard/ModData/com.beatgames.beatsaber/Packages/$");
    assert_eq!(reg.android_app_files(), "/sdcard/Android/data/com.beatgames.beatsaber/files");
    assert_eq!(
        reg.player_data(),
        format!("{}/PlayerData.dat", reg.android_app_files())
    );
}

#[test]
fn legacy_list_without_initialisation() {
    let expected = vec![
        "/data/local/tmp/mbf-downloads",
        "/data/local/tmp/mbf-res-cache",
        "/data/local/tmp/mbf-tmp",
        "/data/local/tmp/mbf-uploads",
    ];
    let first = legacy_dirs();
    assert_eq!(first, expected);
    assert_eq!(legacy_dirs(), first);
    assert_eq!(first.len(), 4);
}

#[test]
fn legacy_list_unaffected_by_initialisation() {
    let before = legacy_dirs();
    let _reg = bound(BEAT_SABER);
    assert_eq!(legacy_dirs(), before);
}

#[test]
fn every_template_exact() {
    let reg = bound("app.id");
    let cases = vec![
        (Slot::Qmods, "/sdcard/ModData/app.id/Packages/$"),
        (Slot::OldQmods, "/sdcard/ModsBeforeFriday/Mods"),
        (Slot::ModdataNomedia, "/sdcard/ModData/app.id/.nomedia"),
        (Slot::ModloaderDir, "/sdcard/ModData/app.id/Modloader"),
        (Slot::LateMods, "/sdcard/ModData/app.id/Modloader/mods"),
        (Slot::EarlyMods, "/sdcard/ModData/app.id/Modloader/early_mods"),
        (Slot::Libs, "/sdcard/ModData/app.id/Modloader/libs"),
        (Slot::AndroidAppFiles, "/sdcard/Android/data/app.id/files"),
        (Slot::PlayerData, "/sdcard/Android/data/app.id/files/PlayerData.dat"),
        (Slot::PlayerDataBak, "/sdcard/Android/data/app.id/files/PlayerData.dat.bak"),
        (Slot::ObbDir, "/sdcard/Android/obb/app.id/"),
        (Slot::DatakeeperPlayerData, "/sdcard/ModData/app.id/Mods/datakeeper/PlayerData.dat"),
        (Slot::AuxDataBackup, "/sdcard/ModsBeforeFriday/PlayerData.backup.dat"),
        (Slot::CustomLevels, "/sdcard/ModData/app.id/Mods/SongCore/CustomLevels"),
        (Slot::MbfDownloads, "/data/local/tmp/mbf/downloads"),
        (Slot::Temp, "/data/local/tmp/mbf/tmp"),
        (Slot::ResCache, "/data/local/tmp/mbf/res-cache"),
    ];
    for (slot, path) in cases {
        assert_eq!(reg.get(slot), path, "{:?}", slot);
    }
}

#[test]
fn named_readers_match_slots() {
    let reg = bound(BEAT_SABER);
    assert_eq!(reg.qmods(), reg.get(Slot::Qmods));
    assert_eq!(reg.old_qmods(), reg.get(Slot::OldQmods));
    assert_eq!(reg.moddata_nomedia(), reg.get(Slot::ModdataNomedia));
    assert_eq!(reg.modloader_dir(), reg.get(Slot::ModloaderDir));
    assert_eq!(reg.late_mods(), reg.get(Slot::LateMods));
    assert_eq!(reg.early_mods(), reg.get(Slot::EarlyMods));
    assert_eq!(reg.libs(), reg.get(Slot::Libs));
    assert_eq!(reg.android_app_files(), reg.get(Slot::AndroidAppFiles));
    assert_eq!(reg.player_data(), reg.get(Slot::PlayerData));
    assert_eq!(reg.player_data_bak(), reg.get(Slot::PlayerDataBak));
    assert_eq!(reg.obb_dir(), reg.get(Slot::ObbDir));
    assert_eq!(reg.datakeeper_player_data(), reg.get(Slot::DatakeeperPlayerData));
    assert_eq!(reg.aux_data_backup(), reg.get(Slot::AuxDataBackup));
    assert_eq!(reg.custom_levels(), reg.get(Slot::CustomLevels));
    assert_eq!(reg.mbf_downloads(), reg.get(Slot::MbfDownloads));
    assert_eq!(reg.temp(), reg.get(Slot::Temp));
    assert_eq!(reg.res_cache(), reg.get(Slot::ResCache));
}

#[test]
fn reads_twice_agree() {
    let reg = bound(BEAT_SABER);
    let first = reg.late_mods().to_string();
    let second = reg.late_mods().to_string();
    assert_eq!(first, second);
    assert!(!first.is_empty());
}

#[test]
fn first_identifier_wins() {
    let mut reg = bound("first.app");
    let before = reg.custom_levels().to_string();
    init_paths(&mut reg, "second.app");
    assert!(reg.is_initialized());
    assert_eq!(reg.custom_levels(), before);
    assert_eq!(reg.modloader_dir(), "/sdcard/ModData/first.app/Modloader");
    assert_eq!(reg.obb_dir(), "/sdcard/Android/obb/first.app/");
    assert!(!reg.qmods().contains("second.app"));
}

#[test]
fn dependent_slots_extend_their_dependency() {
    let reg = bound(BEAT_SABER);
    assert_eq!(reg.late_mods(), format!("{}/mods", reg.modloader_dir()));
    assert_eq!(reg.early_mods(), format!("{}/early_mods", reg.modloader_dir()));
    assert_eq!(reg.libs(), format!("{}/libs", reg.modloader_dir()));
    assert_eq!(reg.player_data_bak(), format!("{}/PlayerData.dat.bak", reg.android_app_files()));
    assert!(reg.player_data().starts_with(reg.android_app_files()));
}

#[test]
fn unbound_registry_reads_empty() {
    let reg = PathRegistry::new();
    assert!(!reg.is_initialized());
    assert_eq!(reg.get(Slot::Qmods), "");
    assert_eq!(reg.temp(), "");
    assert_eq!(reg.player_data(), "");
}

#[test]
fn empty_identifier_is_not_rejected() {
    let reg = bound("");
    assert!(reg.is_initialized());
    assert_eq!(reg.modloader_dir(), "/sdcard/ModData//Modloader");
}
