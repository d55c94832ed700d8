//! Which chapters the player has completed, and which are unlocked.

use vstd::prelude::*;

verus! {

/// The player's progress through the chapters.
///
/// `completed_chapters` lists each completed chapter once, in the order in
/// which they were completed.
pub struct Progress {
    pub current_chapter: usize,
    pub completed_chapters: Vec<usize>,
}

/// A chapter is unlocked when it is the first one, or when the chapter
/// before it is among the completed ones.
pub open spec fn chapter_unlocked(completed: Seq<usize>, chapter: usize) -> bool {
    chapter == 1 || (chapter >= 1 && completed.contains((chapter - 1) as usize))
}

/// The completed chapters after recording `chapter`: unchanged if it is
/// already there, otherwise with `chapter` added at the end.
pub open spec fn with_completed(completed: Seq<usize>, chapter: usize) -> Seq<usize> {
    if completed.contains(chapter) {
        completed
    } else {
        completed.push(chapter)
    }
}

impl Default for Progress {
    /// Progress at the start of the game: on chapter 1, nothing completed.
    fn default() -> (p: Progress)
        ensures
            p.current_chapter == 1,
            p.completed_chapters@ == Seq::<usize>::empty(),
    {
        Progress { current_chapter: 1, completed_chapters: Vec::new() }
    }
}

impl Progress {
    /// Whether `chapter` is unlocked in this progress.
    pub open spec fn unlocked(&self, chapter: usize) -> bool {
        chapter_unlocked(self.completed_chapters@, chapter)
    }

    /// Well-formed progress lists no chapter twice.
    pub open spec fn wf(&self) -> bool {
        self.completed_chapters@.no_duplicates()
    }

    /// Whether `chapter` has been completed.
    pub fn is_completed(&self, chapter: usize) -> (b: bool)
        ensures
            b == self.completed_chapters@.contains(chapter),
    {
        let n = self.completed_chapters.len();
        let mut i: usize = 0;
        while i < n
            invariant
                n == self.completed_chapters@.len(),
                i <= n,
                forall|j: int| 0 <= j < i ==> self.completed_chapters@[j] != chapter,
            decreases n - i,
        {
            if self.completed_chapters[i] == chapter {
                return true;
            }
            i = i + 1;
        }
        false
    }

    /// Whether the player may start `chapter`: chapter 1 always, any other
    /// once the chapter before it is complete.
    pub fn is_unlocked(&self, chapter: usize) -> (b: bool)
        requires
            chapter >= 1,
        ensures
            b == self.unlocked(chapter),
    {
        chapter == 1 || self.is_completed(chapter - 1)
    }

    /// Records `chapter` as completed; a chapter already recorded is not
    /// recorded again.
    pub fn mark_complete(&mut self, chapter: usize)
        ensures
            final(self).current_chapter == old(self).current_chapter,
            final(self).completed_chapters@ == with_completed(old(self).completed_chapters@, chapter),
            old(self).wf() ==> final(self).wf(),
    {
        if !self.is_completed(chapter) {
            self.completed_chapters.push(chapter);
        }
    }
}

/// Completing a chapter unlocks the chapter that follows it.
pub proof fn lemma_completing_unlocks_next(completed: Seq<usize>, chapter: usize)
    requires
        chapter < usize::MAX,
    ensures
        chapter_unlocked(with_completed(completed, chapter), (chapter + 1) as usize),
{
    let after = with_completed(completed, chapter);
    if !completed.contains(chapter) {
        assert(after[after.len() - 1] == chapter);
    }
}

/// Recording a completion never locks a chapter that was unlocked.
pub proof fn lemma_completing_keeps_unlocked(completed: Seq<usize>, chapter: usize, other: usize)
    requires
        chapter_unlocked(completed, other),
    ensures
        chapter_unlocked(with_completed(completed, chapter), other),
{
    if other != 1 {
        let i = choose|i: int| 0 <= i < completed.len() && completed[i] == (other - 1) as usize;
        assert(with_completed(completed, chapter)[i] == (other - 1) as usize);
    }
}

/// Recording the same completion twice is the same as recording it once.
pub proof fn lemma_completing_twice(completed: Seq<usize>, chapter: usize)
    ensures
        with_completed(with_completed(completed, chapter), chapter) == with_completed(completed, chapter),
{
    if !completed.contains(chapter) {
        let after = completed.push(chapter);
        assert(after[after.len() - 1] == chapter);
    }
}

/// Chapter 1 is unlocked whatever has been completed.
pub proof fn lemma_first_chapter_unlocked(completed: Seq<usize>)
    ensures
        chapter_unlocked(completed, 1),
{
}

} // verus!
