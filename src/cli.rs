//! Commands of the command-line tool and the jobs they select.
use vstd::prelude::*;
use crate::header::{Platform, PlatformArg, platform_of_arg};

verus! {

/// What to extract from one file.
#[derive(Debug)]
pub enum EdbCommand {
    Entities {
        filename: String,
        output_folder: Option<String>,
        platform: Option<PlatformArg>,
        no_embed: bool,
        no_transparent: bool,
    },
    Spreadsheets {
        filename: String,
        output_folder: Option<String>,
    },
    Maps {
        filename: String,
        output_folder: Option<String>,
        platform: Option<PlatformArg>,
        trigger_defs: Option<String>,
    },
    Textures {
        filename: String,
        output_folder: Option<String>,
        platform: Option<PlatformArg>,
        format: String,
        no_apngs: bool,
    },
    Animations {
        filename: String,
        output_folder: Option<String>,
        platform: Option<PlatformArg>,
    },
}

/// What to do with a file list archive.
#[derive(Debug)]
pub enum FilelistCommand {
    Extract {
        filename: String,
        output_folder: String,
        create_scr: bool,
    },
    Create {
        input_folder: String,
        output_file: String,
        drive_letter: char,
        version: u32,
        platform: PlatformArg,
        split_size: u32,
        scr_file: Option<String>,
    },
}

/// Which kind of data an extraction job reads.
#[derive(Clone, Copy, Debug, PartialEq, Eq, Structural)]
pub enum ExtractKind {
    Entities,
    Spreadsheets,
    Maps,
    Textures,
    Animations,
}

/// One extraction, with every option that its kind takes; options a kind does
/// not take are empty.
#[derive(Debug)]
pub struct EdbJob {
    pub kind: ExtractKind,
    pub filename: String,
    pub output_folder: Option<String>,
    /// A platform that overrides detection.
    pub platform: Option<Platform>,
    pub no_embed: bool,
    pub no_transparent: bool,
    pub trigger_defs: Option<String>,
    pub format: Option<String>,
    pub no_apngs: bool,
}

/// A file list job, with its platform resolved.
#[derive(Debug)]
pub enum FilelistJob {
    Extract {
        filename: String,
        output_folder: String,
        create_scr: bool,
    },
    Create {
        input_folder: String,
        output_file: String,
        drive_letter: char,
        version: u32,
        platform: Platform,
        split_size: u32,
        scr_file: Option<String>,
    },
}

pub open spec fn platform_override(a: Option<PlatformArg>) -> Option<Platform> {
    match a {
        Some(p) => Some(platform_of_arg(p)),
        None => None,
    }
}

fn convert_platform(a: Option<PlatformArg>) -> (r: Option<Platform>)
    ensures
        r == platform_override(a),
{
    match a {
        Some(p) => Some(Platform::from(p)),
        None => None,
    }
}

/// The job that an extraction command asks for.
pub fn handle_edb(cmd: EdbCommand) -> (r: EdbJob)
    ensures
        match cmd {
            EdbCommand::Entities { filename, output_folder, platform, no_embed, no_transparent } =>
                r.kind == ExtractKind::Entities && r.filename == filename && r.output_folder == output_folder
                && r.platform == platform_override(platform) && r.no_embed == no_embed
                && r.no_transparent == no_transparent && r.trigger_defs is None && r.format is None && !r.no_apngs,
            EdbCommand::Spreadsheets { filename, output_folder } =>
                r.kind == ExtractKind::Spreadsheets && r.filename == filename && r.output_folder == output_folder
                && r.platform is None && !r.no_embed && !r.no_transparent && r.trigger_defs is None
                && r.format is None && !r.no_apngs,
            EdbCommand::Maps { filename, output_folder, platform, trigger_defs } =>
                r.kind == ExtractKind::Maps && r.filename == filename && r.output_folder == output_folder
                && r.platform == platform_override(platform) && !r.no_embed && !r.no_transparent
                && r.trigger_defs == trigger_defs && r.format is None && !r.no_apngs,
            EdbCommand::Textures { filename, output_folder, platform, format, no_apngs } =>
                r.kind == ExtractKind::Textures && r.filename == filename && r.output_folder == output_folder
                && r.platform == platform_override(platform) && !r.no_embed && !r.no_transparent
                && r.trigger_defs is None && r.format == Some(format) && r.no_apngs == no_apngs,
            EdbCommand::Animations { filename, output_folder, platform } =>
                r.kind == ExtractKind::Animations && r.filename == filename && r.output_folder == output_folder
                && r.platform == platform_override(platform) && !r.no_embed && !r.no_transparent
                && r.trigger_defs is None && r.format is None && !r.no_apngs,
        },
{
    match cmd {
        EdbCommand::Entities { filename, output_folder, platform, no_embed, no_transparent } => EdbJob {
            kind: ExtractKind::Entities,
            filename,
            output_folder,
            platform: convert_platform(platform),
            no_embed,
            no_transparent,
            trigger_defs: None,
            format: None,
            no_apngs: false,
        },
        EdbCommand::Spreadsheets { filename, output_folder } => EdbJob {
            kind: ExtractKind::Spreadsheets,
            filename,
            output_folder,
            platform: None,
            no_embed: false,
            no_transparent: false,
            trigger_defs: None,
            format: None,
            no_apngs: false,
        },
        EdbCommand::Maps { filename, output_folder, platform, trigger_defs } => EdbJob {
            kind: ExtractKind::Maps,
            filename,
            output_folder,
            platform: convert_platform(platform),
            no_embed: false,
            no_transparent: false,
            trigger_defs,
            format: None,
            no_apngs: false,
        },
        EdbCommand::Textures { filename, output_folder, platform, format, no_apngs } => EdbJob {
            kind: ExtractKind::Textures,
            filename,
            output_folder,
            platform: convert_platform(platform),
            no_embed: false,
            no_transparent: false,
            trigger_defs: None,
            format: Some(format),
            no_apngs,
        },
        EdbCommand::Animations { filename, output_folder, platform } => EdbJob {
            kind: ExtractKind::Animations,
            filename,
            output_folder,
            platform: convert_platform(platform),
            no_embed: false,
            no_transparent: false,
            trigger_defs: None,
            format: None,
            no_apngs: false,
        },
    }
}

/// The job that a file list command asks for.
pub fn handle_filelist(cmd: FilelistCommand) -> (r: FilelistJob)
    ensures
        match cmd {
            FilelistCommand::Extract { filename, output_folder, create_scr } =>
                r == (FilelistJob::Extract { filename, output_folder, create_scr }),
            FilelistCommand::Create { input_folder, output_file, drive_letter, version, platform, split_size, scr_file } =>
                r == (FilelistJob::Create {
                    input_folder, output_file, drive_letter, version,
                    platform: platform_of_arg(platform), split_size, scr_file,
                }),
        },
{
    match cmd {
        FilelistCommand::Extract { filename, output_folder, create_scr } =>
            FilelistJob::Extract { filename, output_folder, create_scr },
        FilelistCommand::Create { input_folder, output_file, drive_letter, version, platform, split_size, scr_file } =>
            FilelistJob::Create {
                input_folder,
                output_file,
                drive_letter,
                version,
                platform: Platform::from(platform),
                split_size,
                scr_file,
            },
    }
}

} // verus!
