//! The rules of the menu that pops up during a game: when it is shown, and
//! what its buttons do.

use vstd::prelude::*;

verus! {

/// Whether a part of the interface is drawn.
#[derive(Copy, Clone, Debug, PartialEq, Eq, Structural, Hash)]
pub enum Visibility {
    /// Drawn if the part that holds it is.
    Inherited,
    /// Not drawn.
    Hidden,
    /// Drawn in any case.
    Visible,
}

impl Visibility {
    /// The other state of a menu: a hidden one comes up, any other is hidden.
    pub open spec fn flipped(self) -> Visibility {
        if self == Visibility::Hidden {
            Visibility::Inherited
        } else {
            Visibility::Hidden
        }
    }

    /// The state of a menu after it was asked `count` times to change: an
    /// even number of requests cancels out, an odd number counts as one.
    pub open spec fn toggled(self, count: nat) -> Visibility {
        if count % 2 == 0 {
            self
        } else {
            self.flipped()
        }
    }

    /// Requests to toggle add up: to toggle `first` times and then `second`
    /// times is to toggle `first + second` times, for a menu that is hidden
    /// or is drawn with the part that holds it.
    pub proof fn lemma_toggle_adds(self, first: nat, second: nat)
        requires
            self != Visibility::Visible,
        ensures
            self.toggled(first).toggled(second) == self.toggled(first + second),
    {
    }
}

/// Decides whether `events` requests to toggle the menu change anything: an
/// odd number does, an even number cancels out.
pub fn toggles(events: usize) -> (odd: bool)
    ensures
        odd == (events % 2 == 1),
        forall|visibility: Visibility|
            !odd ==> #[trigger] visibility.toggled(events as nat) == visibility,
{
    events % 2 == 1
}

/// Decides the state of the menu after `events` requests to toggle it.
pub fn toggle_system(events: usize, visibility: Visibility) -> (next: Visibility)
    ensures
        next == visibility.toggled(events as nat),
{
    if events % 2 == 0 {
        return visibility;
    }
    match visibility {
        Visibility::Hidden => Visibility::Inherited,
        _ => Visibility::Hidden,
    }
}

/// What a button of the menu does.
#[derive(Copy, Clone, Debug, PartialEq, Eq, Structural, Hash)]
pub enum ButtonAction {
    /// Leaves the game for the main menu.
    Quit,
}

impl ButtonAction {
    pub open spec fn caption(self) -> Seq<char> {
        match self {
            ButtonAction::Quit => "Quit Game"@,
        }
    }

    /// The text on the button.
    pub fn label(&self) -> (text: String)
        ensures
            text@ == self.caption(),
    {
        match self {
            Self::Quit => "Quit Game".to_string(),
        }
    }
}

/// What the pointer does to a button.
#[derive(Copy, Clone, Debug, PartialEq, Eq, Structural, Hash)]
pub enum Interaction {
    Clicked,
    Hovered,
    Idle,
}

/// The action of the last button that was clicked, if any was.
pub open spec fn last_clicked(interactions: Seq<(Interaction, ButtonAction)>) -> Option<
    ButtonAction,
>
    decreases interactions.len(),
{
    if interactions.len() == 0 {
        None
    } else if interactions.last().0 == Interaction::Clicked {
        Some(interactions.last().1)
    } else {
        last_clicked(interactions.drop_last())
    }
}

/// Decides what the buttons whose state has changed ask for: the action of
/// the last one that was clicked.
pub fn button_system(interactions: &Vec<(Interaction, ButtonAction)>) -> (action: Option<
    ButtonAction,
>)
    ensures
        action == last_clicked(interactions@),
{
    let mut action: Option<ButtonAction> = None;
    let mut i: usize = 0;
    while i < interactions.len()
        invariant
            i <= interactions.len(),
            action == last_clicked(interactions@.take(i as int)),
        decreases interactions.len() - i,
    {
        proof {
            let longer = interactions@.take(i + 1);
            assert(longer.drop_last() =~= interactions@.take(i as int));
            assert(longer.last() == interactions@[i as int]);
        }
        match interactions[i].0 {
            Interaction::Clicked => {
                action = Some(interactions[i].1);
            },
            _ => {},
        }
        i += 1;
    }
    assert(interactions@.take(interactions.len() as int) =~= interactions@);
    action
}

} // verus!
