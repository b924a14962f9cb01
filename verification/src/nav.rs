//! The navigation bar: a ring of slots, the cursor that moves over it, and the
//! smallest set of redraws that keeps the bar in step with the cursor.

use vstd::prelude::*;
use crate::util::Button;

verus! {

/// A destination on the navigation bar.
#[derive(Debug, Clone, Copy, PartialEq, Eq, Structural)]
pub enum NavButton {
    /// No destination; stands outside the ring.
    Unset,
    Home,
    Session,
    Leaderboard,
    Projects,
    Wishlist,
    Shop,
    Errors,
}

/// A position on the display, in pixels.
#[derive(Debug, Clone, Copy, PartialEq, Eq, Structural)]
pub struct Point {
    pub x: i32,
    pub y: i32,
}

/// The picture shown inside a slot.
#[derive(Debug, Clone, Copy, PartialEq, Eq, Structural)]
pub enum Icon {
    Home,
    Session,
    Leaderboard,
    Projects,
    Wishlist,
    Shop,
    Errors,
}

/// The frame drawn around a slot's icon.
#[derive(Debug, Clone, Copy, PartialEq, Eq, Structural)]
pub enum Chrome {
    /// Neither under the cursor nor open.
    Plain,
    /// Under the cursor.
    Selected,
    /// The screen that is open.
    Active,
}

/// One redraw: the slot's frame in the given chrome, and its icon on top.
#[derive(Debug, Clone, Copy, PartialEq, Eq, Structural)]
pub struct NavDraw {
    pub slot: NavButton,
    pub chrome: Chrome,
}

/// The cursor and the open screen.
#[derive(Debug, Clone, Copy, PartialEq, Eq, Structural)]
pub struct NavigationState {
    /// The slot under the cursor.
    pub selected: NavButton,
    /// The slot that was last confirmed.
    pub active: NavButton,
}

/// Whether the slot is one of the seven on the ring.
pub open spec fn on_ring(slot: NavButton) -> bool {
    slot != NavButton::Unset
}

/// The ring neighbour to the right; from outside the ring, the first slot.
pub open spec fn right_of(slot: NavButton) -> NavButton {
    match slot {
        NavButton::Home => NavButton::Session,
        NavButton::Session => NavButton::Leaderboard,
        NavButton::Leaderboard => NavButton::Projects,
        NavButton::Projects => NavButton::Wishlist,
        NavButton::Wishlist => NavButton::Shop,
        NavButton::Shop => NavButton::Errors,
        NavButton::Errors => NavButton::Home,
        NavButton::Unset => NavButton::Home,
    }
}

/// The ring neighbour to the left; from outside the ring, the first slot.
pub open spec fn left_of(slot: NavButton) -> NavButton {
    match slot {
        NavButton::Home => NavButton::Errors,
        NavButton::Session => NavButton::Home,
        NavButton::Leaderboard => NavButton::Session,
        NavButton::Projects => NavButton::Leaderboard,
        NavButton::Wishlist => NavButton::Projects,
        NavButton::Shop => NavButton::Wishlist,
        NavButton::Errors => NavButton::Shop,
        NavButton::Unset => NavButton::Home,
    }
}

/// Two slots are neighbours when they sit side by side on the bar, the two
/// ends counting as side by side.
pub open spec fn neighbours(a: NavButton, b: NavButton) -> bool {
    on_ring(a) && on_ring(b) && (right_of(a) == b || left_of(a) == b)
}

/// The chrome a slot shows for a given cursor and open screen: the open screen
/// shows the active chrome, the cursor the selected chrome unless it sits on
/// the open screen, every other slot the plain chrome.
pub open spec fn chrome_for(slot: NavButton, selected: NavButton, active: NavButton) -> Chrome {
    if slot == active {
        Chrome::Active
    } else if slot == selected {
        Chrome::Selected
    } else {
        Chrome::Plain
    }
}

/// What the bar shows: the chrome of each slot.
pub type Bar = spec_fn(NavButton) -> Chrome;

/// The bar after one redraw.
pub open spec fn painted(bar: Bar, draw: NavDraw) -> Bar {
    |slot: NavButton|
        if slot == draw.slot {
            draw.chrome
        } else {
            bar(slot)
        }
}

/// The bar after a list of redraws, carried out in order.
pub open spec fn painted_all(bar: Bar, draws: Seq<NavDraw>) -> Bar
    decreases draws.len(),
{
    if draws.len() == 0 {
        bar
    } else {
        painted(painted_all(bar, draws.drop_last()), draws.last())
    }
}

/// The bar shows exactly what the cursor and the open screen call for.
pub open spec fn shows(bar: Bar, selected: NavButton, active: NavButton) -> bool {
    forall|slot: NavButton| #[trigger] bar(slot) == chrome_for(slot, selected, active)
}

/// The redraws for a cursor that moved from `prev_selected` to `selected`:
/// the slot it left goes back to the chrome it has without the cursor; the
/// slot it reached is drawn selected, unless that is the open screen; and the
/// open screen is drawn again when the cursor reached it or left a neighbour
/// of it.
pub open spec fn selection_draws(
    selected: NavButton,
    prev_selected: NavButton,
    active: NavButton,
) -> Seq<NavDraw> {
    let left_behind = seq![
        NavDraw {
            slot: prev_selected,
            chrome: if prev_selected == active {
                Chrome::Active
            } else {
                Chrome::Plain
            },
        },
    ];
    let reached = if active != selected {
        seq![NavDraw { slot: selected, chrome: Chrome::Selected }]
    } else {
        Seq::<NavDraw>::empty()
    };
    let refreshed = if selected == active || neighbours(prev_selected, active) {
        seq![NavDraw { slot: active, chrome: Chrome::Active }]
    } else {
        Seq::<NavDraw>::empty()
    };
    left_behind + reached + refreshed
}

/// The redraws for a newly confirmed screen: the screen that was open goes
/// back to plain, the new one is drawn active.
pub open spec fn activation_draws(active: NavButton, prev_active: NavButton) -> Seq<NavDraw> {
    seq![
        NavDraw { slot: prev_active, chrome: Chrome::Plain },
        NavDraw { slot: active, chrome: Chrome::Active },
    ]
}

/// Where a cursor ends up after a button: Left and Right move it along the
/// ring, every other button leaves it in place.
pub open spec fn moved(selected: NavButton, button: Button) -> NavButton {
    match button {
        Button::Left => left_of(selected),
        Button::Right => right_of(selected),
        _ => selected,
    }
}

impl NavButton {
    /// Whether `neighbour` sits next to this slot on the bar.
    pub fn is_neighbour_of(&self, neighbour: &NavButton) -> (adjacent: bool)
        ensures
            adjacent == neighbours(*self, *neighbour),
    {
        match self {
            NavButton::Home => match neighbour {
                NavButton::Session => true,
                NavButton::Errors => true,
                _ => false,
            },
            NavButton::Session => match neighbour {
                NavButton::Home => true,
                NavButton::Leaderboard => true,
                _ => false,
            },
            NavButton::Leaderboard => match neighbour {
                NavButton::Session => true,
                NavButton::Projects => true,
                _ => false,
            },
            NavButton::Projects => match neighbour {
                NavButton::Leaderboard => true,
                NavButton::Wishlist => true,
                _ => false,
            },
            NavButton::Wishlist => match neighbour {
                NavButton::Projects => true,
                NavButton::Shop => true,
                _ => false,
            },
            NavButton::Shop => match neighbour {
                NavButton::Wishlist => true,
                NavButton::Errors => true,
                _ => false,
            },
            NavButton::Errors => match neighbour {
                NavButton::Shop => true,
                NavButton::Home => true,
                _ => false,
            },
            NavButton::Unset => false,
        }
    }

    /// Top-left corner of the slot's frame. The slots stand 16 pixels apart
    /// along the top edge, the first at x = 23.
    pub fn pos(&self) -> (point: Point)
        ensures
            point == (match *self {
                NavButton::Home => Point { x: 23, y: 0 },
                NavButton::Session => Point { x: 39, y: 0 },
                NavButton::Leaderboard => Point { x: 55, y: 0 },
                NavButton::Projects => Point { x: 71, y: 0 },
                NavButton::Wishlist => Point { x: 87, y: 0 },
                NavButton::Shop => Point { x: 103, y: 0 },
                NavButton::Errors => Point { x: 119, y: 0 },
                NavButton::Unset => Point { x: 0, y: 0 },
            }),
    {
        match self {
            NavButton::Home => Point { x: 23, y: 0 },
            NavButton::Session => Point { x: 39, y: 0 },
            NavButton::Leaderboard => Point { x: 55, y: 0 },
            NavButton::Projects => Point { x: 71, y: 0 },
            NavButton::Wishlist => Point { x: 87, y: 0 },
            NavButton::Shop => Point { x: 103, y: 0 },
            NavButton::Errors => Point { x: 119, y: 0 },
            NavButton::Unset => Point { x: 0, y: 0 },
        }
    }

    /// The slot's icon; outside the ring, the icon of the first slot.
    pub fn icon(&self) -> (icon: Icon)
        ensures
            icon == (match *self {
                NavButton::Home => Icon::Home,
                NavButton::Session => Icon::Session,
                NavButton::Leaderboard => Icon::Leaderboard,
                NavButton::Projects => Icon::Projects,
                NavButton::Wishlist => Icon::Wishlist,
                NavButton::Shop => Icon::Shop,
                NavButton::Errors => Icon::Errors,
                NavButton::Unset => Icon::Home,
            }),
    {
        match self {
            NavButton::Home => Icon::Home,
            NavButton::Session => Icon::Session,
            NavButton::Leaderboard => Icon::Leaderboard,
            NavButton::Projects => Icon::Projects,
            NavButton::Wishlist => Icon::Wishlist,
            NavButton::Shop => Icon::Shop,
            NavButton::Errors => Icon::Errors,
            NavButton::Unset => Icon::Home,
        }
    }

    /// Top-left corner of the slot's icon.
    pub fn icon_pos(&self) -> (point: Point)
        ensures
            point == (match *self {
                NavButton::Home => Point { x: 28, y: 2 },
                NavButton::Session => Point { x: 43, y: 1 },
                NavButton::Leaderboard => Point { x: 60, y: 3 },
                NavButton::Projects => Point { x: 76, y: 1 },
                NavButton::Wishlist => Point { x: 91, y: 2 },
                NavButton::Shop => Point { x: 107, y: 0 },
                NavButton::Errors => Point { x: 124, y: 1 },
                NavButton::Unset => Point { x: 0, y: 0 },
            }),
    {
        match self {
            NavButton::Home => Point { x: 28, y: 2 },
            NavButton::Session => Point { x: 43, y: 1 },
            NavButton::Leaderboard => Point { x: 60, y: 3 },
            NavButton::Projects => Point { x: 76, y: 1 },
            NavButton::Wishlist => Point { x: 91, y: 2 },
            NavButton::Shop => Point { x: 107, y: 0 },
            NavButton::Errors => Point { x: 124, y: 1 },
            NavButton::Unset => Point { x: 0, y: 0 },
        }
    }

    /// The ring neighbour to the right.
    pub fn right(&self) -> (next: Self)
        ensures
            next == right_of(*self),
            on_ring(next),
    {
        match self {
            NavButton::Home => NavButton::Session,
            NavButton::Session => NavButton::Leaderboard,
            NavButton::Leaderboard => NavButton::Projects,
            NavButton::Projects => NavButton::Wishlist,
            NavButton::Wishlist => NavButton::Shop,
            NavButton::Shop => NavButton::Errors,
            NavButton::Errors => NavButton::Home,
            NavButton::Unset => NavButton::Home,
        }
    }

    /// The ring neighbour to the left.
    pub fn left(&self) -> (next: Self)
        ensures
            next == left_of(*self),
            on_ring(next),
    {
        match self {
            NavButton::Home => NavButton::Errors,
            NavButton::Session => NavButton::Home,
            NavButton::Leaderboard => NavButton::Session,
            NavButton::Projects => NavButton::Leaderboard,
            NavButton::Wishlist => NavButton::Projects,
            NavButton::Shop => NavButton::Wishlist,
            NavButton::Errors => NavButton::Shop,
            NavButton::Unset => NavButton::Home,
        }
    }
}

/// Lists the redraws for a cursor that moved from `prev_selected` to
/// `selected`.
pub fn update_selected(selected: &NavButton, prev_selected: &NavButton, active: &NavButton) -> (draws:
    Vec<NavDraw>)
    ensures
        draws@ == selection_draws(*selected, *prev_selected, *active),
{
    let mut draws: Vec<NavDraw> = Vec::new();
    draws.push(
        NavDraw {
            slot: *prev_selected,
            chrome: if *prev_selected == *active {
                Chrome::Active
            } else {
                Chrome::Plain
            },
        },
    );
    if *active != *selected {
        draws.push(NavDraw { slot: *selected, chrome: Chrome::Selected });
    }
    if *selected == *active || prev_selected.is_neighbour_of(active) {
        draws.push(NavDraw { slot: *active, chrome: Chrome::Active });
    }
    assert(draws@ =~= selection_draws(*selected, *prev_selected, *active));
    draws
}

/// Lists the redraws for a newly confirmed screen.
pub fn update_active(active: &NavButton, prev_active: &NavButton) -> (draws: Vec<NavDraw>)
    ensures
        draws@ == activation_draws(*active, *prev_active),
{
    let mut draws: Vec<NavDraw> = Vec::new();
    draws.push(NavDraw { slot: *prev_active, chrome: Chrome::Plain });
    draws.push(NavDraw { slot: *active, chrome: Chrome::Active });
    assert(draws@ =~= activation_draws(*active, *prev_active));
    draws
}

/// Moves the cursor for a button. Left and Right step along the ring and
/// come with the redraws of the move; any other button moves nothing and
/// draws nothing.
pub fn move_nav(selected: &NavButton, active: &NavButton, button: &Button) -> (step: (
    NavButton,
    Vec<NavDraw>,
))
    ensures
        step.0 == moved(*selected, *button),
        step.1@ == (if *button == Button::Left || *button == Button::Right {
            selection_draws(step.0, *selected, *active)
        } else {
            Seq::<NavDraw>::empty()
        }),
{
    let next = match button {
        Button::Left => selected.left(),
        Button::Right => selected.right(),
        _ => {
            return (*selected, Vec::new());
        },
    };
    (next, update_selected(&next, selected, active))
}

/// Confirms the slot under the cursor: it becomes the open screen.
pub fn select_btn(selected: &NavButton, active: &NavButton) -> (step: (NavButton, Vec<NavDraw>))
    ensures
        step.0 == *selected,
        step.1@ == activation_draws(*selected, *active),
{
    (*selected, update_active(selected, active))
}

/// The ring is closed: a step right and a step left cancel, in either order.
pub proof fn lemma_ring_closed(slot: NavButton)
    requires
        on_ring(slot),
    ensures
        left_of(right_of(slot)) == slot,
        right_of(left_of(slot)) == slot,
{
}

/// Being neighbours is mutual, and no slot is its own neighbour.
pub proof fn lemma_neighbours_symmetric(a: NavButton, b: NavButton)
    ensures
        neighbours(a, b) == neighbours(b, a),
        !neighbours(a, a),
{
}

/// After the redraws of a cursor move, a bar that showed the old cursor shows
/// the new one: the open screen in active chrome, the cursor in selected
/// chrome unless it sits on the open screen, every other slot plain.
pub proof fn lemma_selection_keeps_bar(
    bar: Bar,
    selected: NavButton,
    prev_selected: NavButton,
    active: NavButton,
)
    requires
        shows(bar, prev_selected, active),
    ensures
        shows(
            painted_all(bar, selection_draws(selected, prev_selected, active)),
            selected,
            active,
        ),
{
    let draws = selection_draws(selected, prev_selected, active);
    let after = painted_all(bar, draws);
    assert forall|slot: NavButton| #[trigger] after(slot) == chrome_for(slot, selected, active) by {
        assert(bar(slot) == chrome_for(slot, prev_selected, active));
        lemma_painted_all_unfold(bar, draws, slot);
        if draws.len() >= 2 {
            lemma_painted_all_unfold(bar, draws.drop_last(), slot);
            if draws.len() >= 3 {
                lemma_painted_all_unfold(bar, draws.drop_last().drop_last(), slot);
                lemma_painted_all_unfold(bar, draws.drop_last().drop_last().drop_last(), slot);
            } else {
                lemma_painted_all_unfold(bar, draws.drop_last().drop_last(), slot);
            }
        } else {
            lemma_painted_all_unfold(bar, draws.drop_last(), slot);
        }
    }
}

/// After the redraws of a confirmation, a bar that showed the old open screen
/// shows the slot under the cursor as the open one.
pub proof fn lemma_activation_keeps_bar(bar: Bar, selected: NavButton, prev_active: NavButton)
    requires
        shows(bar, selected, prev_active),
    ensures
        shows(painted_all(bar, activation_draws(selected, prev_active)), selected, selected),
{
    let draws = activation_draws(selected, prev_active);
    let after = painted_all(bar, draws);
    assert forall|slot: NavButton| #[trigger] after(slot) == chrome_for(slot, selected, selected) by {
        assert(bar(slot) == chrome_for(slot, selected, prev_active));
        lemma_painted_all_unfold(bar, draws, slot);
        lemma_painted_all_unfold(bar, draws.drop_last(), slot);
        lemma_painted_all_unfold(bar, draws.drop_last().drop_last(), slot);
    }
}

/// One step of [`painted_all`], read at a single slot.
pub proof fn lemma_painted_all_unfold(bar: Bar, draws: Seq<NavDraw>, slot: NavButton)
    ensures
        draws.len() == 0 ==> painted_all(bar, draws)(slot) == bar(slot),
        draws.len() > 0 ==> painted_all(bar, draws)(slot) == (if slot == draws.last().slot {
            draws.last().chrome
        } else {
            painted_all(bar, draws.drop_last())(slot)
        }),
{
}

/// The redraws of a whole run of button presses, in order: a cursor move for
/// each Left and Right, nothing for any other button.
pub open spec fn run_draws(selected: NavButton, active: NavButton, buttons: Seq<Button>) -> Seq<
    NavDraw,
>
    decreases buttons.len(),
{
    if buttons.len() == 0 {
        Seq::<NavDraw>::empty()
    } else {
        let before = run_cursor(selected, buttons.drop_last());
        let last = buttons.last();
        run_draws(selected, active, buttons.drop_last()) + (if last == Button::Left || last
            == Button::Right {
            selection_draws(moved(before, last), before, active)
        } else {
            Seq::<NavDraw>::empty()
        })
    }
}

/// Where the cursor stands after a run of button presses.
pub open spec fn run_cursor(selected: NavButton, buttons: Seq<Button>) -> NavButton
    decreases buttons.len(),
{
    if buttons.len() == 0 {
        selected
    } else {
        moved(run_cursor(selected, buttons.drop_last()), buttons.last())
    }
}

/// Painting two lists of redraws one after the other is painting their
/// concatenation.
pub proof fn lemma_painted_all_concat(bar: Bar, first: Seq<NavDraw>, second: Seq<NavDraw>)
    ensures
        painted_all(bar, first + second) == painted_all(painted_all(bar, first), second),
    decreases second.len(),
{
    if second.len() == 0 {
        assert(first + second =~= first);
    } else {
        lemma_painted_all_concat(bar, first, second.drop_last());
        assert((first + second).drop_last() =~= first + second.drop_last());
        assert((first + second).last() == second.last());
    }
}

/// However many times the cursor is moved, after every press the bar shows
/// the cursor and the open screen of that moment.
pub proof fn lemma_run_keeps_bar(
    bar: Bar,
    selected: NavButton,
    active: NavButton,
    buttons: Seq<Button>,
)
    requires
        shows(bar, selected, active),
    ensures
        shows(
            painted_all(bar, run_draws(selected, active, buttons)),
            run_cursor(selected, buttons),
            active,
        ),
    decreases buttons.len(),
{
    if buttons.len() > 0 {
        let earlier = buttons.drop_last();
        let last = buttons.last();
        let before = run_cursor(selected, earlier);
        let bar_before = painted_all(bar, run_draws(selected, active, earlier));
        lemma_run_keeps_bar(bar, selected, active, earlier);
        if last == Button::Left || last == Button::Right {
            let step = selection_draws(moved(before, last), before, active);
            lemma_painted_all_concat(bar, run_draws(selected, active, earlier), step);
            lemma_selection_keeps_bar(bar_before, moved(before, last), before, active);
        } else {
            assert(run_draws(selected, active, buttons) =~= run_draws(selected, active, earlier));
        }
    }
}

} // verus!
