use eurochef::cli::{handle_edb, handle_filelist, EdbCommand, ExtractKind, FilelistCommand, FilelistJob};
use eurochef::header::{Platform, PlatformArg};

#[test]
fn textures_command_becomes_texture_job() {
    let job = handle_edb(EdbCommand::Textures {
        filename: "a.edb".to_string(),
        output_folder: None,
        platform: Some(PlatformArg::Gc),
        format: "png".to_string(),
        no_apngs: true,
    });
    assert_eq!(job.kind, ExtractKind::Textures);
    assert_eq!(job.filename, "a.edb");
    assert_eq!(job.platform, Some(Platform::GameCube));
    assert_eq!(job.format.as_deref(), Some("png"));
    assert!(job.no_apngs);
}

#[test]
fn maps_command_keeps_trigger_definitions() {
    let job = handle_edb(EdbCommand::Maps {
        filename: "m.edb".to_string(),
        output_folder: Some("out".to_string()),
        platform: None,
        trigger_defs: Some("t.yml".to_string()),
    });
    assert_eq!(job.kind, ExtractKind::Maps);
    assert_eq!(job.output_folder.as_deref(), Some("out"));
    assert_eq!(job.platform, None);
    assert_eq!(job.trigger_defs.as_deref(), Some("t.yml"));
    let job = handle_edb(EdbCommand::Spreadsheets { filename: "s.edb".to_string(), output_folder: None });
    assert_eq!(job.kind, ExtractKind::Spreadsheets);
}

#[test]
fn filelist_create_resolves_platform() {
    let job = handle_filelist(FilelistCommand::Create {
        input_folder: "in".to_string(),
        output_file: "./Filelist".to_string(),
        drive_letter: 'x',
        version: 7,
        platform: PlatformArg::Xb,
        split_size: 0x80000000,
        scr_file: None,
    });
    match job {
        FilelistJob::Create { platform, version, split_size, drive_letter, .. } => {
            assert_eq!(platform, Platform::Xbox);
            assert_eq!((version, split_size, drive_letter), (7, 0x80000000, 'x'));
        }
        _ => panic!("wrong job"),
    }
    let job = handle_filelist(FilelistCommand::Extract {
        filename: "f.bin".to_string(),
        output_folder: "./".to_string(),
        create_scr: true,
    });
    assert!(matches!(job, FilelistJob::Extract { create_scr: true, .. }));
}
