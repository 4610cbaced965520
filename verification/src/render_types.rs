//! The stack-disciplined pool of off-screen render targets.
//!
//! A target is never destroyed when popped: it stays in the pool above the
//! active top, keyed by its resolution/depth/interpolation signature, and
//! the next push at that slot reuses it when the signature still matches.
//! The drawer samples recently popped targets through `get_nth`.

use vstd::prelude::*;
use crate::filters::TextureInterpolation;

verus! {

/// One off-screen render target. `id` is the handle the host maps to its
/// GPU object; the library never reuses an id for a different signature.
#[derive(Copy, Clone, PartialEq, Eq, Structural, Debug)]
pub struct TextureBuffer {
    pub id: usize,
    pub width: i32,
    pub height: i32,
    pub depthbuffer: bool,
    pub interpolation: TextureInterpolation,
}

/// A buffer-stack protocol violation: a fatal internal error of the
/// compositing sequence, not user-recoverable.
#[derive(Copy, Clone, PartialEq, Eq, Structural, Debug)]
pub enum StackError {
    /// `pop` or `bind_current` on an empty active stack.
    EmptyStack,
    /// `get_nth` outside the allocated entries.
    OutOfRange,
    /// The stack was not empty when the frame ended.
    UnbalancedStack,
}

/// The pooled target stack. Entries below `cursor` are the active stack,
/// entries from `cursor` up are pooled, most recently popped first.
pub struct TextureBufferStack {
    pub stack: Vec<TextureBuffer>,
    pub cursor: usize,
    pub width: i32,
    pub height: i32,
    pub depthbuffer_enabled: bool,
    pub interpolation: TextureInterpolation,
    pub next_id: usize,
}

impl TextureBufferStack {
    pub open spec fn wf(self) -> bool {
        self.cursor <= self.stack.len()
    }

    /// The id counter after one allocation: ids stay fresh for the first
    /// `usize::MAX` targets ever allocated, far beyond any real frame.
    pub open spec fn spec_bumped_id(self) -> usize {
        if self.next_id < usize::MAX {
            (self.next_id + 1) as usize
        } else {
            self.next_id
        }
    }

    /// Whether a pooled target matches the currently configured signature.
    pub open spec fn spec_matches(self, b: TextureBuffer) -> bool {
        b.width == self.width && b.height == self.height && b.depthbuffer
            == self.depthbuffer_enabled && b.interpolation == self.interpolation
    }

    pub fn new(width: i32, height: i32) -> (r: TextureBufferStack)
        ensures
            r.stack@ == Seq::<TextureBuffer>::empty(),
            r.cursor == 0,
            r.width == width,
            r.height == height,
            r.depthbuffer_enabled == true,
            r.interpolation == TextureInterpolation::Linear,
            r.next_id == 0,
            r.wf(),
    {
        TextureBufferStack {
            stack: Vec::new(),
            cursor: 0,
            width,
            height,
            depthbuffer_enabled: true,
            interpolation: TextureInterpolation::Linear,
            next_id: 0,
        }
    }

    /// Targets allocated after this call use the new resolution.
    pub fn set_resolution(&mut self, width: i32, height: i32)
        ensures
            *final(self) == (TextureBufferStack { width, height, ..*old(self) }),
    {
        self.width = width;
        self.height = height;
    }

    /// Targets allocated after this call have a depth buffer or not.
    pub fn set_depthbuffer(&mut self, enabled: bool)
        ensures
            *final(self) == (TextureBufferStack { depthbuffer_enabled: enabled, ..*old(self) }),
    {
        self.depthbuffer_enabled = enabled;
    }

    /// Targets allocated after this call are sampled with this mode.
    pub fn set_interpolation(&mut self, interpolation: TextureInterpolation)
        ensures
            *final(self) == (TextureBufferStack { interpolation, ..*old(self) }),
    {
        self.interpolation = interpolation;
    }

    /// Place a target matching the configured signature on top of the
    /// active stack: the pooled entry at the slot when its signature still
    /// matches, else a freshly allocated one (discarding the stale pool
    /// from the slot upward).
    pub fn push(&mut self)
        requires
            old(self).wf(),
        ensures
            final(self).wf(),
            final(self).cursor == old(self).cursor + 1,
            final(self).width == old(self).width,
            final(self).height == old(self).height,
            final(self).depthbuffer_enabled == old(self).depthbuffer_enabled,
            final(self).interpolation == old(self).interpolation,
            old(self).cursor < old(self).stack.len() && old(self).spec_matches(
                old(self).stack[old(self).cursor as int],
            ) ==> final(self).stack == old(self).stack && final(self).next_id == old(
                self,
            ).next_id,
            !(old(self).cursor < old(self).stack.len() && old(self).spec_matches(
                old(self).stack[old(self).cursor as int],
            )) ==> final(self).stack@ == old(self).stack@.take(old(self).cursor as int).push(
                TextureBuffer {
                    id: old(self).next_id,
                    width: old(self).width,
                    height: old(self).height,
                    depthbuffer: old(self).depthbuffer_enabled,
                    interpolation: old(self).interpolation,
                },
            ) && final(self).next_id == old(self).spec_bumped_id(),
            final(self).spec_matches(final(self).stack[old(self).cursor as int]),
    {
        if self.cursor < self.stack.len() {
            let candidate = self.stack[self.cursor];
            if candidate.width == self.width && candidate.height == self.height
                && candidate.depthbuffer == self.depthbuffer_enabled && (match (
                candidate.interpolation,
                self.interpolation,
            ) {
                (TextureInterpolation::Linear, TextureInterpolation::Linear) => true,
                (TextureInterpolation::Nearest, TextureInterpolation::Nearest) => true,
                _ => false,
            }) {
                self.cursor = self.cursor + 1;
                return ;
            }
            self.stack.truncate(self.cursor);
        }
        let fresh = TextureBuffer {
            id: self.next_id,
            width: self.width,
            height: self.height,
            depthbuffer: self.depthbuffer_enabled,
            interpolation: self.interpolation,
        };
        self.stack.push(fresh);
        if self.next_id < usize::MAX {
            self.next_id = self.next_id + 1;
        }
        self.cursor = self.stack.len();
    }

    /// The target drawing goes to: the top of the active stack.
    pub fn get_current(&self) -> (r: Result<TextureBuffer, StackError>)
        requires
            self.wf(),
        ensures
            self.cursor > 0 ==> r == Ok::<TextureBuffer, StackError>(
                self.stack[self.cursor - 1],
            ),
            self.cursor == 0 ==> r == Err::<TextureBuffer, StackError>(StackError::EmptyStack),
    {
        if self.cursor == 0 {
            Err(StackError::EmptyStack)
        } else {
            Ok(self.stack[self.cursor - 1])
        }
    }

    /// The top of the active stack, to be bound as the working target.
    pub fn bind_current(&self) -> (r: Result<TextureBuffer, StackError>)
        requires
            self.wf(),
        ensures
            self.cursor > 0 ==> r == Ok::<TextureBuffer, StackError>(
                self.stack[self.cursor - 1],
            ),
            self.cursor == 0 ==> r == Err::<TextureBuffer, StackError>(StackError::EmptyStack),
    {
        self.get_current()
    }

    /// The `n`-th allocated target counting upward from the first entry
    /// above the active top: the targets most recently popped back into
    /// the pool, nearest first. With an empty active stack, `get_nth(1)`
    /// is the first allocated target.
    pub fn get_nth(&self, n: usize) -> (r: Result<TextureBuffer, StackError>)
        requires
            self.wf(),
        ensures
            1 <= n && self.cursor + n <= self.stack.len() ==> r == Ok::<
                TextureBuffer,
                StackError,
            >(self.stack[self.cursor + n - 1]),
            !(1 <= n && self.cursor + n <= self.stack.len()) ==> r == Err::<
                TextureBuffer,
                StackError,
            >(StackError::OutOfRange),
    {
        if n < 1 || self.stack.len() - self.cursor < n {
            Err(StackError::OutOfRange)
        } else {
            Ok(self.stack[self.cursor + n - 1])
        }
    }

    /// Remove the top of the active stack, returning it to the pool. Must
    /// pair with a prior `push`; popping an empty stack is the documented
    /// fatal protocol error.
    pub fn pop(&mut self) -> (r: Result<(), StackError>)
        requires
            old(self).wf(),
        ensures
            final(self).wf(),
            old(self).cursor > 0 ==> *final(self) == (TextureBufferStack {
                cursor: (old(self).cursor - 1) as usize,
                ..*old(self)
            }) && r == Ok::<(), StackError>(()),
            old(self).cursor == 0 ==> *final(self) == *old(self) && r == Err::<(), StackError>(
                StackError::EmptyStack,
            ),
    {
        if self.cursor == 0 {
            Err(StackError::EmptyStack)
        } else {
            self.cursor = self.cursor - 1;
            Ok(())
        }
    }

    /// The end-of-frame balance check: every push of the frame must have
    /// been popped. Failing it is the documented fatal internal error.
    pub fn assert_no_stack(&self) -> (r: Result<(), StackError>)
        ensures
            self.cursor == 0 ==> r == Ok::<(), StackError>(()),
            self.cursor != 0 ==> r == Err::<(), StackError>(StackError::UnbalancedStack),
    {
        if self.cursor == 0 {
            Ok(())
        } else {
            Err(StackError::UnbalancedStack)
        }
    }
}

} // verus!
