//! Two-frame sprite animation: a sprite flips between two indices of its
//! sprite sheet each time its timer runs out.

use vstd::prelude::*;

verus! {

/// The two sprite-sheet indices an animated sprite flips between.
#[derive(Clone, Copy, Debug, PartialEq, Eq, Structural)]
pub struct AnimationIndices {
    pub first: usize,
    pub last: usize,
}

impl AnimationIndices {
    /// Whether `index` is one of the two frames.
    pub open spec fn has_frame(self, index: usize) -> bool {
        index == self.first || index == self.last
    }

    /// The frame that follows `index`: from the last frame back to the first,
    /// from anywhere else to the last.
    pub open spec fn flipped(self, index: usize) -> usize {
        if index == self.last {
            self.first
        } else {
            self.last
        }
    }

    /// What one update writes to a sprite that shows `index`: the frame that
    /// follows when the sprite's timer has just run out, nothing otherwise.
    pub open spec fn next_frame(self, just_finished: bool, index: usize) -> Option<usize> {
        if just_finished {
            Some(self.flipped(index))
        } else {
            None
        }
    }
}

/// One update of an animated sprite. `just_finished` says whether the
/// sprite's timer ran out during this update, `sprite_index` is the index the
/// sprite shows now. The result is the index to write to the sprite, or `None`
/// when the sprite is to be left alone.
pub fn animate_sprite_two_frame(
    indices: &AnimationIndices,
    just_finished: bool,
    sprite_index: usize,
) -> (next: Option<usize>)
    ensures
        next == indices.next_frame(just_finished, sprite_index),
{
    if just_finished {
        if sprite_index == indices.last {
            Some(indices.first)
        } else {
            Some(indices.last)
        }
    } else {
        None
    }
}

/// Whatever a sprite shows, after a flip it shows one of the two frames.
pub proof fn lemma_flip_lands_on_frame(indices: AnimationIndices, index: usize)
    ensures
        indices.has_frame(indices.flipped(index)),
{
}

/// A sprite that shows one of the two frames shows the same frame again after
/// two flips.
pub proof fn lemma_flip_twice(indices: AnimationIndices, index: usize)
    requires
        indices.has_frame(index),
    ensures
        indices.flipped(indices.flipped(index)) == index,
{
}

/// Between two distinct frames a flip always changes what the sprite shows.
pub proof fn lemma_flip_changes_frame(indices: AnimationIndices, index: usize)
    requires
        indices.first != indices.last,
    ensures
        indices.flipped(index) != index,
{
}

} // verus!
