use fotema::generate_previews::{
    records_needing_preview, GeneratePreviews, GeneratePreviewsInput, GeneratePreviewsOutput,
    ItemOutcome, PreviewError,
};
use fotema::media::MediaRecord;
use fotema::repository::Repository;

fn catalog(paths: &[(&str, bool)]) -> Repository {
    let mut repo = Repository::new();
    for (p, has) in paths {
        let mut r = MediaRecord::new(format!("/photos/{}", p), "/photos".to_string());
        if *has {
            r.square_preview_path = Some(format!("/cache/{}.png", p));
        }
        repo.upsert(r).unwrap();
    }
    repo
}

/// Runs one generation; `fail` names the sources whose preview fails.
/// Returns how many records were handed to the previewer, how many were
/// stored and how many completion signals came.
fn generate(repo: &mut Repository, fail: &[&str]) -> (usize, usize, usize) {
    let mut worker = GeneratePreviews::init();
    worker.update(GeneratePreviewsInput::Generate, repo.all());
    let (mut previewed, mut stored, mut done) = (0, 0, 0);
    while let Some(rec) = worker.next_record() {
        previewed += 1;
        let outcome = if fail.iter().any(|f| rec.source_path.ends_with(f)) {
            Err(PreviewError::DecodeFailed)
        } else {
            Ok(format!("/cache/{}.png", rec.id))
        };
        if worker.record_outcome(repo, outcome) == ItemOutcome::Stored {
            stored += 1;
        }
    }
    if worker.completion() == Some(GeneratePreviewsOutput::PreviewsGenerated) {
        done += 1;
    }
    (previewed, stored, done)
}

#[test]
fn two_of_three_records_get_previews() {
    let mut repo = catalog(&[("a.jpg", false), ("b.jpg", true), ("c.jpg", false)]);
    assert_eq!(generate(&mut repo, &[]), (2, 2, 1));
    assert!(repo.all().iter().all(|r| r.square_preview_path.is_some()));
}

#[test]
fn second_run_previews_nothing() {
    let mut repo = catalog(&[("a.jpg", false), ("b.jpg", false)]);
    generate(&mut repo, &[]);
    assert_eq!(generate(&mut repo, &[]), (0, 0, 1));
}

#[test]
fn one_failure_does_not_stop_the_others() {
    let mut repo = catalog(&[("a.jpg", false), ("b.jpg", false), ("c.jpg", false)]);
    assert_eq!(generate(&mut repo, &["b.jpg"]), (3, 2, 1));
    let all = repo.all();
    assert!(all[0].square_preview_path.is_some());
    assert_eq!(all[1].square_preview_path, None);
    assert!(all[2].square_preview_path.is_some());
    // the failed record is retried on the next run
    assert_eq!(generate(&mut repo, &[]), (1, 1, 1));
}

#[test]
fn failed_preview_reports_its_error() {
    let mut repo = catalog(&[("a.jpg", false)]);
    let mut worker = GeneratePreviews::init();
    worker.update(GeneratePreviewsInput::Generate, repo.all());
    assert!(worker.completion().is_none());
    let outcome = worker.record_outcome(&mut repo, Err(PreviewError::CacheWriteFailed));
    assert_eq!(outcome, ItemOutcome::PreviewFailed(PreviewError::CacheWriteFailed));
    assert_eq!(worker.completion(), Some(GeneratePreviewsOutput::PreviewsGenerated));
}

#[test]
fn empty_catalog_completes_at_once() {
    let mut repo = Repository::new();
    assert_eq!(generate(&mut repo, &[]), (0, 0, 1));
}

#[test]
fn filter_keeps_order_of_records_without_preview() {
    let mut with = MediaRecord::new("/p/b.jpg".to_string(), "/p".to_string());
    with.square_preview_path = Some("/cache/b.png".to_string());
    let records = vec![
        MediaRecord::new("/p/a.jpg".to_string(), "/p".to_string()),
        with,
        MediaRecord::new("/p/c.jpg".to_string(), "/p".to_string()),
    ];
    let out = records_needing_preview(records);
    assert_eq!(out.len(), 2);
    assert_eq!(out[0].source_path, "/p/a.jpg");
    assert_eq!(out[1].source_path, "/p/c.jpg");
}
