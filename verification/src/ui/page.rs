//! The page host: a fixed, statically typed collection of page objects
//! and the index of the one currently shown. Frame events are routed to
//! the selected page only; every other page is fully suspended for that
//! frame, which the contracts state as "every slot but the selected one
//! is unchanged". Cross-page access goes through `pages_mut` and plain
//! tuple fields, so fetching a page of the wrong type is a compile
//! error, never undefined behaviour.

use vstd::prelude::*;

use crate::context::Context;
use crate::dmx::DMX;

verus! {

/// One top-level screen of the application. A page draws by appending
/// commands to the frame's context; it must leave the context's offset
/// and clip as it found them (narrowing inside the call is fine, as
/// long as the narrowed context is released again) and may not drop or
/// rewrite commands recorded before it ran.
pub trait Pageable {
    fn update(&mut self, ctx: &mut Context, dmx: &mut DMX)
        ensures
            final(ctx).rect == old(ctx).rect,
            final(ctx).clip == old(ctx).clip,
            final(ctx).input == old(ctx).input,
            old(ctx).cmds@.is_prefix_of(final(ctx).cmds@),
    ;

    fn draw(&mut self, ctx: &mut Context, dmx: &mut DMX)
        ensures
            final(ctx).rect == old(ctx).rect,
            final(ctx).clip == old(ctx).clip,
            final(ctx).input == old(ctx).input,
            old(ctx).cmds@.is_prefix_of(final(ctx).cmds@),
    ;
}

/// A fixed-arity collection of pages that can route a frame event to
/// the page at a given slot. Implemented for tuples of `Pageable`
/// types.
pub trait Pages: Sized {
    /// How many slots the collection has.
    spec fn count() -> nat;

    /// Every slot other than `except` holds the same page value in
    /// `post` as in `pre`.
    spec fn slots_unchanged_except(pre: Self, post: Self, except: int) -> bool;

    /// Routes a draw call to the page in slot `current` alone; with
    /// `current` out of range nothing at all happens.
    fn draw(&mut self, current: usize, ctx: &mut Context, dmx: &mut DMX)
        ensures
            Self::slots_unchanged_except(*old(self), *final(self), current as int),
            final(ctx).rect == old(ctx).rect,
            final(ctx).clip == old(ctx).clip,
            final(ctx).input == old(ctx).input,
            old(ctx).cmds@.is_prefix_of(final(ctx).cmds@),
            current as nat >= Self::count() ==> *final(self) == *old(self) && *final(ctx)
                == *old(ctx) && *final(dmx) == *old(dmx),
    ;

    /// Routes an update call to the page in slot `current` alone; with
    /// `current` out of range nothing at all happens.
    fn update(&mut self, current: usize, ctx: &mut Context, dmx: &mut DMX)
        ensures
            Self::slots_unchanged_except(*old(self), *final(self), current as int),
            final(ctx).rect == old(ctx).rect,
            final(ctx).clip == old(ctx).clip,
            final(ctx).input == old(ctx).input,
            old(ctx).cmds@.is_prefix_of(final(ctx).cmds@),
            current as nat >= Self::count() ==> *final(self) == *old(self) && *final(ctx)
                == *old(ctx) && *final(dmx) == *old(dmx),
    ;
}

impl<A: Pageable> Pages for (A,) {
    open spec fn count() -> nat {
        1
    }

    open spec fn slots_unchanged_except(pre: Self, post: Self, except: int) -> bool {
        except != 0 ==> post.0 == pre.0
    }

    fn draw(&mut self, current: usize, ctx: &mut Context, dmx: &mut DMX) {
        match current {
            0 => self.0.draw(ctx, dmx),
            _ => {},
        }
    }

    fn update(&mut self, current: usize, ctx: &mut Context, dmx: &mut DMX) {
        match current {
            0 => self.0.update(ctx, dmx),
            _ => {},
        }
    }
}

impl<A: Pageable, B: Pageable> Pages for (A, B) {
    open spec fn count() -> nat {
        2
    }

    open spec fn slots_unchanged_except(pre: Self, post: Self, except: int) -> bool {
        &&& except != 0 ==> post.0 == pre.0
        &&& except != 1 ==> post.1 == pre.1
    }

    fn draw(&mut self, current: usize, ctx: &mut Context, dmx: &mut DMX) {
        match current {
            0 => self.0.draw(ctx, dmx),
            1 => self.1.draw(ctx, dmx),
            _ => {},
        }
    }

    fn update(&mut self, current: usize, ctx: &mut Context, dmx: &mut DMX) {
        match current {
            0 => self.0.update(ctx, dmx),
            1 => self.1.update(ctx, dmx),
            _ => {},
        }
    }
}

impl<A: Pageable, B: Pageable, C: Pageable> Pages for (A, B, C) {
    open spec fn count() -> nat {
        3
    }

    open spec fn slots_unchanged_except(pre: Self, post: Self, except: int) -> bool {
        &&& except != 0 ==> post.0 == pre.0
        &&& except != 1 ==> post.1 == pre.1
        &&& except != 2 ==> post.2 == pre.2
    }

    fn draw(&mut self, current: usize, ctx: &mut Context, dmx: &mut DMX) {
        match current {
            0 => self.0.draw(ctx, dmx),
            1 => self.1.draw(ctx, dmx),
            2 => self.2.draw(ctx, dmx),
            _ => {},
        }
    }

    fn update(&mut self, current: usize, ctx: &mut Context, dmx: &mut DMX) {
        match current {
            0 => self.0.update(ctx, dmx),
            1 => self.1.update(ctx, dmx),
            2 => self.2.update(ctx, dmx),
            _ => {},
        }
    }
}

/// The page host: the fixed page collection and the index of the active
/// page. The arity is fixed at construction; only `current` ever
/// changes.
#[derive(Clone, Debug)]
pub struct Page<T: Pages> {
    pages: T,
    current: usize,
}

impl<T: Pages> Page<T> {
    /// The held page collection.
    pub closed spec fn spec_pages(self) -> T {
        self.pages
    }

    /// The index of the active page.
    pub closed spec fn spec_current(self) -> usize {
        self.current
    }

    /// A host over `pages`, showing slot 0 first.
    pub fn new(pages: T) -> (r: Page<T>)
        ensures
            r.spec_pages() == pages,
            r.spec_current() == 0,
    {
        Page { pages, current: 0 }
    }

    /// Makes slot `index` the active page. Selecting a slot that does
    /// not exist is a programmer error, ruled out here rather than
    /// checked at run time.
    pub fn select(&mut self, index: usize)
        requires
            (index as nat) < T::count(),
        ensures
            final(self).spec_current() == index,
            final(self).spec_pages() == old(self).spec_pages(),
    {
        self.current = index;
    }

    /// Draws the active page; every other page receives no call this
    /// frame and is left exactly as it was.
    pub fn draw(&mut self, ctx: &mut Context, dmx: &mut DMX)
        ensures
            final(self).spec_current() == old(self).spec_current(),
            T::slots_unchanged_except(
                old(self).spec_pages(),
                final(self).spec_pages(),
                old(self).spec_current() as int,
            ),
            final(ctx).rect == old(ctx).rect,
            final(ctx).clip == old(ctx).clip,
            final(ctx).input == old(ctx).input,
            old(ctx).cmds@.is_prefix_of(final(ctx).cmds@),
    {
        let selected = self.current;
        self.pages.draw(selected, ctx, dmx);
    }

    /// Updates the active page; every other page receives no call this
    /// frame and is left exactly as it was.
    pub fn update(&mut self, ctx: &mut Context, dmx: &mut DMX)
        ensures
            final(self).spec_current() == old(self).spec_current(),
            T::slots_unchanged_except(
                old(self).spec_pages(),
                final(self).spec_pages(),
                old(self).spec_current() as int,
            ),
            final(ctx).rect == old(ctx).rect,
            final(ctx).clip == old(ctx).clip,
            final(ctx).input == old(ctx).input,
            old(ctx).cmds@.is_prefix_of(final(ctx).cmds@),
    {
        let selected = self.current;
        self.pages.update(selected, ctx, dmx);
    }

    /// Direct access to the page collection, for cross-page reads and
    /// writes through the tuple's fields.
    pub fn pages_mut(&mut self) -> (r: &mut T)
        ensures
            *r == old(self).spec_pages(),
            final(self).spec_pages() == *final(r),
            final(self).spec_current() == old(self).spec_current(),
    {
        &mut self.pages
    }

    /// Draws the page-selection chrome; there is none yet.
    pub fn selector(&mut self, ctx: &mut Context)
        ensures
            *final(self) == *old(self),
            *final(ctx) == *old(ctx),
    {
    }
}

} // verus!
