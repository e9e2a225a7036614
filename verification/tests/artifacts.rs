use softnpu::artifacts::{
    download_outcome, image_outcome, AttemptEnd,
    after_attempt, branch_to_resolve, dendrite_image_url, resolved_revision, response_outcome,
    sidecar_lite_url, softnpu_url, ArtifactVersion, Attempt, RefObject, RetryDecision,
    DOWNLOAD_ATTEMPTS,
};

#[test]
fn artifact_urls() {
    assert_eq!(
        sidecar_lite_url("abc123", "scadm"),
        "https://buildomat.eng.oxide.computer/public/file/oxidecomputer/sidecar-lite/release/abc123/scadm"
    );
    assert_eq!(
        dendrite_image_url("deadbeef"),
        "https://buildomat.eng.oxide.computer/public/file/oxidecomputer/dendrite/image/deadbeef/dendrite-softnpu.tar.gz"
    );
    assert_eq!(
        softnpu_url("r1", "softnpu.sha256.txt"),
        "https://buildomat.eng.oxide.computer/public/file/oxidecomputer/softnpu/image/r1/softnpu.sha256.txt"
    );
}

#[test]
fn versions_choose_the_branch_to_resolve() {
    assert_eq!(branch_to_resolve(&ArtifactVersion::Latest), Some("main"));
    assert_eq!(branch_to_resolve(&ArtifactVersion::Branch("rel")), Some("rel"));
    assert_eq!(branch_to_resolve(&ArtifactVersion::Commit("c0ffee")), None);
}

#[test]
fn references_resolve_to_commits_and_tags() {
    assert_eq!(resolved_revision("main", RefObject::Commit { sha: "a1".into() }).unwrap(), "a1");
    assert_eq!(resolved_revision("main", RefObject::Tag { sha: "b2".into() }).unwrap(), "b2");
    let e = resolved_revision("dev", RefObject::Other).unwrap_err();
    assert_eq!(e.branch, "dev");
    assert_eq!(e.error, "unexpected ref object type");
}

#[test]
fn failures_are_retried_until_the_attempts_run_out() {
    for attempt in 1..DOWNLOAD_ATTEMPTS {
        assert!(matches!(after_attempt(attempt, Attempt::Failed("x")), RetryDecision::SleepAndRetry));
    }
    assert!(matches!(
        after_attempt(DOWNLOAD_ATTEMPTS, Attempt::Failed("last")),
        RetryDecision::Finish(Err("last"))
    ));
    assert!(matches!(after_attempt(3, Attempt::<&str>::Succeeded), RetryDecision::Finish(Ok(()))));
    assert!(matches!(after_attempt(1, Attempt::Aborted("now")), RetryDecision::Abort("now")));
    assert_eq!(DOWNLOAD_ATTEMPTS, 5);
}

#[test]
fn only_http_200_is_a_success() {
    assert!(matches!(response_outcome(200, "e"), Attempt::Succeeded));
    assert!(matches!(response_outcome(404, "e404"), Attempt::Failed("e404")));
}

#[test]
fn only_setup_failures_end_a_download_at_once() {
    assert!(matches!(download_outcome(AttemptEnd::CreateFile(1)), Attempt::Failed(1)));
    assert!(matches!(download_outcome(AttemptEnd::Configure(2)), Attempt::Failed(2)));
    assert!(matches!(download_outcome(AttemptEnd::Callbacks(3)), Attempt::Aborted(3)));
    assert!(matches!(download_outcome(AttemptEnd::Transfer(4)), Attempt::Failed(4)));
    assert!(matches!(download_outcome(AttemptEnd::ResponseCode(5)), Attempt::Failed(5)));
    assert!(matches!(download_outcome(AttemptEnd::Completed { status: 200, http_error: 6 }), Attempt::Succeeded));
    assert!(matches!(download_outcome(AttemptEnd::Completed { status: 404, http_error: 7 }), Attempt::Failed(7)));
    assert!(matches!(image_outcome(AttemptEnd::ResponseCode(5)), Attempt::Aborted(5)));
    assert!(matches!(image_outcome(AttemptEnd::Callbacks(3)), Attempt::Aborted(3)));
    assert!(matches!(image_outcome(AttemptEnd::Transfer(4)), Attempt::Failed(4)));
    assert!(matches!(image_outcome(AttemptEnd::Completed { status: 500, http_error: 8 }), Attempt::Failed(8)));
}
