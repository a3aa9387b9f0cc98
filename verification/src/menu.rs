use vstd::prelude::*;

verus! {

/// A window of the in-game menu.
#[derive(Clone, Copy, Debug, PartialEq, Eq, Structural)]
pub enum MenuWindow {
    Control,
    Height,
    Time,
    Blocks,
}

/// Which windows of the in-game menu are open.
pub struct MenuWindowVisibility {
    control: bool,
    time: bool,
    blocks: bool,
    height: bool,
}

impl MenuWindowVisibility {
    /// Whether `window` is open.
    pub closed spec fn open_spec(&self, window: MenuWindow) -> bool {
        match window {
            MenuWindow::Control => self.control,
            MenuWindow::Height => self.height,
            MenuWindow::Time => self.time,
            MenuWindow::Blocks => self.blocks,
        }
    }

    /// Whether `window` is open.
    pub fn is_open(&self, window: MenuWindow) -> (open: bool)
        ensures
            open == self.open_spec(window),
    {
        match window {
            MenuWindow::Control => self.control,
            MenuWindow::Height => self.height,
            MenuWindow::Time => self.time,
            MenuWindow::Blocks => self.blocks,
        }
    }

    /// Opens or closes `window`, as its close button does; the other windows
    /// stay as they were.
    pub fn set_open(&mut self, window: MenuWindow, open: bool)
        ensures
            *final(self) == with_open(*old(self), window, open),
            final(self).open_spec(window) == open,
            forall|other: MenuWindow|
                other != window ==> #[trigger] final(self).open_spec(other) == old(
                    self,
                ).open_spec(other),
    {
        match window {
            MenuWindow::Control => {
                self.control = open;
            },
            MenuWindow::Height => {
                self.height = open;
            },
            MenuWindow::Time => {
                self.time = open;
            },
            MenuWindow::Blocks => {
                self.blocks = open;
            },
        }
    }

    /// Opens `window` if it was closed and closes it if it was open, as its
    /// label in the side panel does; the other windows stay as they were.
    pub fn toggle(&mut self, window: MenuWindow)
        ensures
            *final(self) == toggled(*old(self), window),
            final(self).open_spec(window) == !old(self).open_spec(window),
            forall|other: MenuWindow|
                other != window ==> #[trigger] final(self).open_spec(other) == old(
                    self,
                ).open_spec(other),
    {
        let open = self.is_open(window);
        self.set_open(window, !open);
    }
}

impl Default for MenuWindowVisibility {
    /// Every window starts closed.
    fn default() -> (m: Self)
        ensures
            forall|w: MenuWindow| !#[trigger] m.open_spec(w),
    {
        MenuWindowVisibility { control: false, time: false, blocks: false, height: false }
    }
}

/// The state `m` with `window` set open or closed as `open` says.
pub closed spec fn with_open(m: MenuWindowVisibility, window: MenuWindow, open: bool) -> MenuWindowVisibility {
    match window {
        MenuWindow::Control => MenuWindowVisibility { control: open, ..m },
        MenuWindow::Height => MenuWindowVisibility { height: open, ..m },
        MenuWindow::Time => MenuWindowVisibility { time: open, ..m },
        MenuWindow::Blocks => MenuWindowVisibility { blocks: open, ..m },
    }
}

/// The state after toggling `window` in `m`.
pub closed spec fn toggled(m: MenuWindowVisibility, window: MenuWindow) -> MenuWindowVisibility {
    with_open(m, window, !m.open_spec(window))
}

/// Two menu states are the same exactly when the same windows are open.
pub proof fn lemma_same_windows_same_state(a: MenuWindowVisibility, b: MenuWindowVisibility)
    requires
        forall|w: MenuWindow| #[trigger] a.open_spec(w) == b.open_spec(w),
    ensures
        a == b,
{
    assert(a.open_spec(MenuWindow::Control) == b.open_spec(MenuWindow::Control));
    assert(a.open_spec(MenuWindow::Height) == b.open_spec(MenuWindow::Height));
    assert(a.open_spec(MenuWindow::Time) == b.open_spec(MenuWindow::Time));
    assert(a.open_spec(MenuWindow::Blocks) == b.open_spec(MenuWindow::Blocks));
}

/// Toggling a window twice leaves the menu as it was, and toggling two
/// windows gives the same menu in either order.
pub proof fn lemma_toggle_laws(m: MenuWindowVisibility, v: MenuWindow, w: MenuWindow)
    ensures
        toggled(toggled(m, w), w) == m,
        toggled(toggled(m, v), w) == toggled(toggled(m, w), v),
        toggled(m, w).open_spec(w) == !m.open_spec(w),
        v != w ==> toggled(m, w).open_spec(v) == m.open_spec(v),
{
}

} // verus!
