use vstd::prelude::*;

verus! {

/// A view of the inspector's side panel.
#[derive(Clone, Copy, Debug, PartialEq, Eq, Structural)]
pub enum MenuOption {
    /// The camera and control options; the view shown first.
    Controls,
    /// The entities of the world, with their hierarchy.
    Entities,
}

impl Default for MenuOption {
    /// The panel opens on the controls.
    fn default() -> (o: Self)
        ensures
            o == MenuOption::Controls,
    {
        MenuOption::Controls
    }
}

/// Whether the entity hierarchy is shown while `current` is the view.
pub fn shows_hierarchy(current: MenuOption) -> (shown: bool)
    ensures
        shown == (current == MenuOption::Entities),
{
    current == MenuOption::Entities
}

/// The index of the first entry of `options` that is `option`, if any: the
/// entry whose view the panel renders.
pub fn find_option(options: &[MenuOption], option: MenuOption) -> (found: Option<usize>)
    ensures
        found matches Some(i) ==> i < options.len() && options[i as int] == option && (forall|j: int|
            0 <= j < i ==> #[trigger] options[j] != option),
        found is None ==> forall|j: int| 0 <= j < options.len() ==> #[trigger] options[j] != option,
{
    let mut k: usize = 0;
    while k < options.len()
        invariant
            k <= options.len(),
            forall|j: int| 0 <= j < k ==> #[trigger] options[j] != option,
        decreases options.len() - k,
    {
        if options[k] == option {
            return Some(k);
        }
        k = k + 1;
    }
    None
}

} // verus!
