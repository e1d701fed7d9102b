use fgc::bars::{summary_line, CloneProgress};
use fgc::progress::{
    apply_git_line, apply_git_match, apply_lfs_progress, git_line_kind, pattern_for, phase,
    CloneStatus, GitLineKind, RECEIVING_PATTERN,
};

#[test]
fn status_starts_clean() {
    let s = CloneStatus::new("blobless", "u", "d");
    assert_eq!(s.phases.len(), 6);
    assert_eq!(s.phases[3].name, "LFS files");
    assert_eq!(s.message, "Starting...");
    assert!(!s.done);
    let p = phase("x");
    assert_eq!((p.name.as_str(), p.percent, p.detail.as_str(), p.done), ("x", 0, "", false));
}

#[test]
fn phases_activate_and_finish() {
    let mut s = CloneStatus::new("s", "u", "d");
    s.set_phase_active(3);
    assert_eq!(s.current_phase, 3);
    assert!(s.phases[0].done && s.phases[1].done && s.phases[2].done);
    assert!(!s.phases[3].done && !s.phases[5].done);
    s.set_phase_active(1);
    assert!(s.phases[0].done && !s.phases[1].done && !s.phases[2].done);
    s.set_phase_percent(2, 250, "big");
    assert_eq!(s.phases[2].percent, 100);
    assert_eq!(s.phases[2].detail, "big");
    assert_eq!(s.current_phase, 2);
    s.set_phase_percent(9, 10, "none");
    assert_eq!(s.current_phase, 2);
    s.finish_phase(4);
    assert!(s.phases[4].done);
    assert_eq!(s.phases[4].percent, 100);
    s.set_message("hi");
    s.set_speed("1 MiB/s");
    assert_eq!((s.message.as_str(), s.speed.as_str()), ("hi", "1 MiB/s"));
}

#[test]
fn mark_done_completes_or_freezes() {
    let mut s = CloneStatus::new("s", "u", "d");
    s.set_phase_percent(1, 40, "");
    s.mark_done(true);
    assert!(s.done && s.success);
    assert!(s.phases.iter().all(|p| p.done && p.percent == 100));

    let mut f = CloneStatus::new("s", "u", "d");
    f.set_phase_percent(1, 40, "");
    f.mark_done(false);
    assert!(f.done && !f.success);
    assert_eq!(f.phases[1].percent, 40);
    assert!(f.phases.iter().all(|p| !p.done));
}

#[test]
fn git_lines_update_status() {
    let mut s = CloneStatus::new("s", "u", "d");
    apply_git_line(&mut s, "remote: Counting objects:  12% (12/100)");
    assert_eq!(s.current_phase, 0);
    assert_eq!(s.phases[0].percent, 12);
    assert_eq!(s.phases[0].detail, "counting");
    apply_git_line(&mut s, "remote: Compressing objects:  70% (7/10)");
    assert_eq!(s.phases[0].detail, "compressing");
    apply_git_line(&mut s, "Receiving objects:  45% (450/1000), 2.40 MiB/s");
    assert_eq!(s.current_phase, 1);
    assert!(s.phases[0].done);
    assert_eq!(s.phases[1].percent, 45);
    assert_eq!(s.speed, "2.40 MiB/s");
    assert_eq!(s.phases[1].detail, "2.40 MiB/s");
    apply_git_line(&mut s, "Resolving deltas: 100% (30/30), done.");
    assert_eq!(s.current_phase, 2);
    assert_eq!(s.phases[2].percent, 100);
    assert_eq!(s.phases[2].detail, "");
    apply_git_line(&mut s, "Updating files: 10% (1/10)");
    assert_eq!(s.current_phase, 4);
    assert_eq!(s.phases[4].percent, 50);
    assert_eq!(s.phases[4].detail, "checkout");
    apply_git_line(&mut s, "unrelated output");
    assert_eq!(s.current_phase, 4);
}

#[test]
fn receiving_line_without_speed_only_activates() {
    let mut s = CloneStatus::new("s", "u", "d");
    apply_git_line(&mut s, "Receiving objects:  45% (450/1000), 1.20 MiB | 2.40 MiB/s");
    assert_eq!(s.current_phase, 1);
    assert_eq!(s.phases[1].percent, 0);
    assert_eq!(s.speed, "");
}

#[test]
fn lfs_progress_percent() {
    let mut s = CloneStatus::new("s", "u", "d");
    apply_lfs_progress(&mut s, 3, 4, "aria2c: 4 files");
    assert_eq!(s.current_phase, 3);
    assert_eq!(s.phases[3].percent, 75);
    assert_eq!(s.phases[3].detail, "aria2c: 4 files");
    apply_lfs_progress(&mut s, 9, 4, "more");
    assert_eq!(s.phases[3].percent, 100);
    apply_lfs_progress(&mut s, 9, 0, "none");
    assert_eq!(s.phases[3].percent, 0);
}

#[test]
fn terminal_progress_follows_git() {
    let mut p = CloneProgress::new();
    assert_eq!(p.steps[0].message, "[1/6] Negotiating refs with remote...");
    assert!(p.steps[0].ticking);
    p.process_line("Counting objects: 33% (1/3)");
    assert_eq!(p.steps[0].message, "[1/6] Counting objects (33%)");
    p.process_line("Receiving objects:  45% (450/1000), 2.40 MiB/s");
    assert!(p.steps[0].finished);
    assert_eq!(p.current_step, 1);
    assert_eq!(p.steps[1].position, 45);
    assert_eq!(p.steps[1].message, "[2/6] Receiving objects (2.40 MiB/s)");
    p.process_line("Resolving deltas:  50% (5/10)");
    assert!(p.steps[1].finished);
    assert_eq!(p.steps[2].position, 50);
    assert_eq!(p.steps[2].message, "[3/6] Resolving deltas");
    p.set_lfs_progress(30, 20, "pulling");
    assert_eq!(p.steps[3].position, 20);
    assert_eq!(p.steps[3].length, Some(100));
    assert_eq!(p.steps[3].message, "[4/6] LFS files - pulling");
    p.finish_lfs();
    assert_eq!(p.steps[3].position, 100);
    assert!(p.steps[3].finished);
    p.process_line("Checking out files: 100% (5/5)");
    assert_eq!(p.current_step, 4);
    assert_eq!(p.steps[4].position, 50);
    p.finish_checkout();
    assert!(p.steps[4].finished);
    assert_eq!(p.steps[4].position, 100);
    p.start_post_processing();
    assert_eq!(p.current_step, 5);
    assert!(p.steps[5].ticking);
    p.finish_post_processing();
    assert!(p.steps[5].finished);
}

#[test]
fn resolving_does_not_go_back() {
    let mut p = CloneProgress::new();
    p.advance_to_checkout();
    p.advance_to_resolving();
    assert_eq!(p.current_step, 4);
}

#[test]
fn summary_pads_seconds() {
    assert_eq!(summary_line(125, "linux", "blobless"), "Total time: 2m 05s  |  Strategy: blobless  |  Destination: linux");
    assert_eq!(summary_line(59, "d", "full"), "Total time: 0m 59s  |  Strategy: full  |  Destination: d");
}

fn groups(v: &[Option<&str>]) -> Option<Vec<Option<String>>> {
    Some(v.iter().map(|g| g.map(|x| x.to_string())).collect())
}

#[test]
fn line_kinds_and_patterns() {
    assert_eq!(git_line_kind("Receiving objects:  5% (1/20)"), GitLineKind::Receiving);
    assert_eq!(git_line_kind("remote: Counting objects: 10% (1/10)"), GitLineKind::Counting);
    assert_eq!(git_line_kind("Updating files: 100% (3/3)"), GitLineKind::Checkout);
    assert_eq!(git_line_kind("Cloning into 'x'..."), GitLineKind::Other);
    assert_eq!(pattern_for(GitLineKind::Receiving), Some(RECEIVING_PATTERN));
    assert_eq!(pattern_for(GitLineKind::Checkout), None);
}

#[test]
fn matches_update_status_from_given_groups() {
    let mut s = CloneStatus::new("blobless", "u", "d");
    apply_git_match(
        &mut s,
        GitLineKind::Receiving,
        &groups(&[Some("all"), Some("42"), Some("1"), Some("2"), Some("1.5"), Some("MiB")]),
    );
    assert_eq!(s.current_phase, 1);
    assert_eq!(s.phases[1].percent, 42);
    assert_eq!(s.speed, "1.5 MiB/s");
    assert_eq!(s.phases[1].detail, "1.5 MiB/s");
    assert!(s.phases[0].done);
    apply_git_match(&mut s, GitLineKind::Resolving, &groups(&[Some("all"), Some("300")]));
    assert_eq!((s.current_phase, s.phases[2].percent), (2, 0));
    apply_git_match(&mut s, GitLineKind::Counting, &None);
    assert_eq!((s.current_phase, s.phases[0].done), (0, false));
    apply_git_match(&mut s, GitLineKind::Other, &groups(&[Some("x")]));
    assert_eq!(s.current_phase, 0);
}

#[test]
fn bars_follow_given_groups() {
    let mut p = CloneProgress::new();
    p.apply_match(
        GitLineKind::Receiving,
        &groups(&[Some("all"), Some("7"), Some("1"), Some("2"), Some("3"), Some("KiB")]),
    );
    assert_eq!(p.current_step, 1);
    assert_eq!(p.steps[1].position, 7);
    assert_eq!(p.steps[1].message, "[2/6] Receiving objects (3 KiB/s)");
    p.apply_match(GitLineKind::Compressing, &groups(&[Some("all"), Some("9")]));
    assert_eq!(p.steps[0].message, "[1/6] Compressing objects (9%)");
}
