use myrmex::menu::{MenuWindow, MenuWindowVisibility};

const ALL: [MenuWindow; 4] = [MenuWindow::Control, MenuWindow::Height, MenuWindow::Time, MenuWindow::Blocks];

fn state(m: &MenuWindowVisibility) -> Vec<bool> {
    ALL.iter().map(|w| m.is_open(*w)).collect()
}

#[test]
fn every_window_starts_closed() {
    let m = MenuWindowVisibility::default();
    assert_eq!(state(&m), vec![false, false, false, false]);
}

#[test]
fn toggle_opens_only_that_window() {
    let mut m = MenuWindowVisibility::default();
    m.toggle(MenuWindow::Time);
    assert_eq!(state(&m), vec![false, false, true, false]);
    m.toggle(MenuWindow::Control);
    assert_eq!(state(&m), vec![true, false, true, false]);
    m.toggle(MenuWindow::Time);
    assert_eq!(state(&m), vec![true, false, false, false]);
}

#[test]
fn toggling_twice_restores() {
    for w in ALL {
        let mut m = MenuWindowVisibility::default();
        m.toggle(MenuWindow::Blocks);
        let before = state(&m);
        m.toggle(w);
        m.toggle(w);
        assert_eq!(state(&m), before);
    }
}

#[test]
fn toggles_commute() {
    let mut a = MenuWindowVisibility::default();
    a.toggle(MenuWindow::Height);
    a.toggle(MenuWindow::Blocks);
    let mut b = MenuWindowVisibility::default();
    b.toggle(MenuWindow::Blocks);
    b.toggle(MenuWindow::Height);
    assert_eq!(state(&a), state(&b));
}

#[test]
fn closing_a_window_leaves_the_others() {
    let mut m = MenuWindowVisibility::default();
    for w in ALL {
        m.set_open(w, true);
    }
    m.set_open(MenuWindow::Height, false);
    assert_eq!(state(&m), vec![true, false, true, true]);
}
