use actuary::progress::Progress;

#[test]
fn default_progress_starts_at_chapter_one() {
    let p = Progress::default();
    assert_eq!(p.current_chapter, 1);
    assert!(p.completed_chapters.is_empty());
    assert!(p.is_unlocked(1));
    assert!(!p.is_unlocked(2));
}

#[test]
fn completing_a_chapter_unlocks_the_next() {
    let mut p = Progress::default();
    p.mark_complete(1);
    assert!(p.is_unlocked(2));
    assert!(!p.is_unlocked(3));
    assert!(p.is_completed(1));
    p.mark_complete(2);
    assert!(p.is_unlocked(3));
    assert_eq!(p.completed_chapters, vec![1, 2]);
}

#[test]
fn marking_twice_records_once() {
    let mut p = Progress::default();
    p.mark_complete(2);
    p.mark_complete(2);
    assert_eq!(p.completed_chapters, vec![2]);
    assert!(p.is_unlocked(3));
    assert!(p.is_unlocked(1));
}
