//! Editor-style control surface for lighting fixtures.
//!
//! The crate is organised bottom-up: integer geometry (`geometry`), the
//! per-frame input snapshot (`input`), the coordinate-relative drawing
//! context (`context`), the widget layer (`ui`) with its focus state
//! machine, text editor and page host, and the fixture channel model
//! (`dmx`). The platform layer polls input once per frame, builds a
//! `Context`, drives `Application::frame`, and then replays the
//! context's recorded draw commands against the real renderer.

pub mod context;
pub mod dmx;
pub mod geometry;
pub mod input;
pub mod ui;

use vstd::prelude::*;

use crate::context::Context;
use crate::dmx::DMX;
use crate::geometry::Point;
use crate::ui::page::{Page, Pageable, Pages};
use crate::ui::text::Text;
use crate::ui::{InputHandler, State, TEXT_SIZE};

verus! {

/// The setup page; it has no content yet and draws nothing.
#[derive(Clone, Copy, Debug, PartialEq, Eq, Structural)]
pub struct Setup {}

impl Setup {
    pub fn new() -> (r: Setup)
        ensures
            r == (Setup {  }),
    {
        Setup {  }
    }
}

impl Default for Setup {
    fn default() -> (r: Setup)
        ensures
            r == (Setup {  }),
    {
        Setup::new()
    }
}

impl Pageable for Setup {
    fn draw(&mut self, ctx: &mut Context, dmx: &mut DMX)
        ensures
            *final(self) == *old(self),
            *final(ctx) == *old(ctx),
            *final(dmx) == *old(dmx),
    {
    }

    fn update(&mut self, ctx: &mut Context, dmx: &mut DMX)
        ensures
            *final(self) == *old(self),
            *final(ctx) == *old(ctx),
            *final(dmx) == *old(dmx),
    {
    }
}

/// The scenes page; it has no content yet and draws nothing.
#[derive(Clone, Copy, Debug, PartialEq, Eq, Structural)]
pub struct Scenes {}

impl Scenes {
    pub fn new() -> (r: Scenes)
        ensures
            r == (Scenes {  }),
    {
        Scenes {  }
    }
}

impl Default for Scenes {
    fn default() -> (r: Scenes)
        ensures
            r == (Scenes {  }),
    {
        Scenes::new()
    }
}

impl Pageable for Scenes {
    fn draw(&mut self, ctx: &mut Context, dmx: &mut DMX)
        ensures
            *final(self) == *old(self),
            *final(ctx) == *old(ctx),
            *final(dmx) == *old(dmx),
    {
    }

    fn update(&mut self, ctx: &mut Context, dmx: &mut DMX)
        ensures
            *final(self) == *old(self),
            *final(ctx) == *old(ctx),
            *final(dmx) == *old(dmx),
    {
    }
}

/// The application state: the fixture patch, the editable project name
/// with its title widget, and the fixed pair of pages.
pub struct Application {
    pub dmx: DMX,
    pub name: Vec<char>,
    pub title: Text,
    pub from_top: usize,
    pub pages: Page<(Setup, Scenes)>,
}

/// The characters of the default project name.
pub open spec fn spec_untitled() -> Seq<char> {
    seq!['U', 'n', 't', 'i', 't', 'l', 'e', 'd']
}

impl Application {
    /// The title widget's editor, if one is active, stays inside the
    /// project name it edits.
    pub open spec fn wf(self) -> bool {
        self.title.spec_edits_ok(self.name@)
    }

    /// A fresh project: untitled, an empty patch, the title widget at
    /// the top-left, the setup page selected.
    pub fn new() -> (app: Application)
        ensures
            app.dmx.universes@ == Seq::<dmx::Universe>::empty(),
            app.name@ == spec_untitled(),
            app.title.position == (Point { x: 10, y: 10 }),
            app.title.font_size == TEXT_SIZE,
            app.title.state is Normal,
            app.title.input_handler is None,
            app.from_top == 0,
            app.pages.spec_current() == 0,
            app.pages.spec_pages() == (Setup {  }, Scenes {  }),
            app.wf(),
    {
        let mut name: Vec<char> = Vec::new();
        name.push('U');
        name.push('n');
        name.push('t');
        name.push('i');
        name.push('t');
        name.push('l');
        name.push('e');
        name.push('d');
        proof {
            assert(name@ =~= spec_untitled());
        }
        Application {
            dmx: DMX::new(),
            name,
            title: Text::new(Point { x: 10, y: 10 }, crate::ui::text_color(), TEXT_SIZE),
            from_top: 0,
            pages: Page::new((Setup::new(), Scenes::new())),
        }
    }

    /// One frame of the application inside an already-built context:
    /// the title widget runs (hit test, optional editing of the project
    /// name, drawing), then the active page alone is drawn. Every
    /// non-selected page is left exactly as it was.
    pub fn frame(&mut self, ctx: &mut Context)
        requires
            old(self).wf(),
            old(self).title.spec_layout_ok((old(self).name@.len() + 1) as nat, *old(ctx)),
        ensures
            final(self).wf(),
            final(ctx).rect == old(ctx).rect,
            final(ctx).clip == old(ctx).clip,
            final(ctx).input == old(ctx).input,
            old(ctx).cmds@.is_prefix_of(final(ctx).cmds@),
            final(self).from_top == old(self).from_top,
            final(self).title.state == State::spec_transition(
                old(self).title.spec_hit_rect(old(self).name@),
                old(ctx).input,
            ),
            match old(self).title.input_handler {
                Some(h) => {
                    let step = h.spec_step(old(self).name@, old(ctx).input);
                    &&& final(self).name@ == step.1
                    &&& final(self).title.input_handler == (
                    if step.2 {
                        Some(step.0)
                    } else {
                        None::<InputHandler>
                    })
                },
                None => final(self).name@ == old(self).name@,
            },
            final(self).pages.spec_current() == old(self).pages.spec_current(),
            <(Setup, Scenes) as Pages>::slots_unchanged_except(
                old(self).pages.spec_pages(),
                final(self).pages.spec_pages(),
                old(self).pages.spec_current() as int,
            ),
    {
        self.title.draw(&mut self.name, ctx);
        self.pages.draw(ctx, &mut self.dmx);
    }
}

impl Default for Application {
    fn default() -> (app: Application)
        ensures
            app.name@ == spec_untitled(),
            app.wf(),
    {
        Application::new()
    }
}

} // verus!
