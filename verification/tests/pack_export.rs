//! Tests of the pack export orchestrator: progress cadence, fail-fast
//! sealing, and archive construction.

use std::io::Read;

use sticker_export::export::{AssetRef, ExportError, ExportOutcome, ExportedAsset, OutKind};
use sticker_export::pack::{
    archive_filename, build_archive, AcceptResult, PackExportJob, Progress,
};

fn asset(n: usize) -> ExportedAsset {
    ExportedAsset {
        unique_id: format!("uid{}", n),
        kind: OutKind::Png,
        payload: vec![n as u8; 4 + n],
    }
}

fn failure(n: usize) -> ExportOutcome {
    ExportOutcome::Failed(
        AssetRef {
            file_id: format!("file{}", n),
            unique_id: format!("uid{}", n),
            set_name: Some("pack".to_owned()),
        },
        ExportError::Download,
    )
}

#[test]
fn pack_of_seven_emits_progress_at_five_and_seven() {
    let mut job = PackExportJob::new(7);
    let mut notes: Vec<Progress> = Vec::new();
    for n in 0..7 {
        match job.accept(ExportOutcome::Done(asset(n))) {
            AcceptResult::Accepted(p) => {
                if let Some(note) = p {
                    notes.push(note);
                }
            }
            other => panic!("expected the outcome to be recorded, got {:?}", other),
        }
        assert_eq!(job.completed(), n + 1);
    }
    assert_eq!(notes.len(), 2);
    assert_eq!(notes[0], Progress { completed: 5, total: 7 });
    assert_eq!(notes[1], Progress { completed: 7, total: 7 });
}

#[test]
fn pack_completed_count_strictly_increases() {
    let mut job = PackExportJob::new(3);
    assert_eq!(job.completed(), 0);
    for n in 0..3 {
        job.accept(ExportOutcome::Done(asset(n)));
        assert_eq!(job.completed(), n + 1);
    }
    // The job is sealed: a late outcome is discarded.
    match job.accept(ExportOutcome::Done(asset(9))) {
        AcceptResult::Discarded => {}
        other => panic!("expected a discard after completion, got {:?}", other),
    }
    assert_eq!(job.completed(), 3);
}

#[test]
fn pack_aborts_on_first_failure() {
    let mut job = PackExportJob::new(5);
    job.accept(ExportOutcome::Done(asset(0)));
    job.accept(ExportOutcome::Done(asset(1)));
    match job.accept(failure(2)) {
        AcceptResult::Aborted(ExportError::Download) => {}
        other => panic!("expected the failure to abort the job, got {:?}", other),
    }
    // No further outcome is accepted, successes included.
    match job.accept(ExportOutcome::Done(asset(3))) {
        AcceptResult::Discarded => {}
        other => panic!("expected a discard after sealing, got {:?}", other),
    }
    assert_eq!(job.completed(), 2);
}

/// A complete job holding the given assets, built through the orchestrator.
fn complete_job(assets: Vec<ExportedAsset>) -> PackExportJob {
    let mut job = PackExportJob::new(assets.len());
    for a in assets {
        match job.accept(ExportOutcome::Done(a)) {
            AcceptResult::Accepted(_) => {}
            other => panic!("expected the outcome to be recorded, got {:?}", other),
        }
    }
    assert!(job.is_complete());
    job
}

#[test]
fn archive_holds_one_entry_per_asset() {
    let job = complete_job(vec![asset(0), asset(1), asset(2)]);
    let out = build_archive(&job).unwrap();
    let mut zip = zip::ZipArchive::new(std::io::Cursor::new(out.bytes)).unwrap();
    assert_eq!(zip.len(), 3);
    for n in 0..3 {
        let mut entry = zip.by_index(n).unwrap();
        assert_eq!(entry.name(), format!("uid{}.png", n));
        assert_eq!(entry.compression(), zip::CompressionMethod::Deflated);
        assert_eq!(entry.unix_mode().map(|mode| mode & 0o777), Some(0o755));
        let mut data = Vec::new();
        entry.read_to_end(&mut data).unwrap();
        assert_eq!(data, vec![n as u8; 4 + n]);
    }
}

#[test]
fn archive_of_seven_notes_at_five_and_seven() {
    let job = complete_job((0..7).map(asset).collect());
    let out = build_archive(&job).unwrap();
    assert_eq!(out.notes.len(), 2);
    assert_eq!(out.notes[0], Progress { completed: 5, total: 7 });
    assert_eq!(out.notes[1], Progress { completed: 7, total: 7 });
}

#[test]
fn archive_of_empty_pack_is_empty() {
    let job = complete_job(Vec::new());
    let out = build_archive(&job).unwrap();
    assert_eq!(out.notes.len(), 0);
    let zip = zip::ZipArchive::new(std::io::Cursor::new(out.bytes)).unwrap();
    assert_eq!(zip.len(), 0);
}

#[test]
fn archive_is_named_after_the_pack() {
    assert_eq!(archive_filename(&"classic_frogs".to_owned()), "stickers-classic_frogs.zip");
}
