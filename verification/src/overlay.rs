//! Screen state of the in-game overlay. The drawing itself happens in
//! the shell; this module owns which screen shows and when the overlay
//! captures the game's input.

use vstd::prelude::*;

verus! {

/// Which overlay screen is showing.
#[derive(Clone, Copy, PartialEq, Eq, Structural, Debug)]
pub enum OverlayScreen {
    /// The game has not reached its splash screen yet: show nothing.
    PreStartup,
    /// The game just started: ask the user whether to connect.
    InitialStartup,
    /// The user is playing: show nothing.
    Game,
    /// The user opened the overlay by hand.
    GameOverlay,
}

/// Marker for the screen shown inside the hand-opened overlay.
#[derive(Clone, Copy, Debug)]
pub struct GameScreen;

/// Screen after the game finishes starting up: the startup prompt
/// appears once, and only from the pre-startup screen.
pub fn screen_after_startup(s: OverlayScreen) -> (r: OverlayScreen)
    ensures
        s is PreStartup ==> r is InitialStartup,
        !(s is PreStartup) ==> r == s,
{
    match s {
        OverlayScreen::PreStartup => OverlayScreen::InitialStartup,
        _ => s,
    }
}

/// Screen after a connection is established: the startup prompt gives
/// way to the game; every other screen is unaffected.
pub fn screen_after_connected(s: OverlayScreen) -> (r: OverlayScreen)
    ensures
        s is InitialStartup ==> r is Game,
        !(s is InitialStartup) ==> r == s,
{
    match s {
        OverlayScreen::InitialStartup => OverlayScreen::Game,
        _ => s,
    }
}

/// Screen after the overlay hotkey: opens the overlay from the game
/// screen only.
pub fn screen_on_overlay_hotkey(s: OverlayScreen) -> (r: OverlayScreen)
    ensures
        s is Game ==> r is GameOverlay,
        !(s is Game) ==> r == s,
{
    match s {
        OverlayScreen::Game => OverlayScreen::GameOverlay,
        _ => s,
    }
}

/// Screen after the close key: leaves the hand-opened overlay only.
pub fn screen_on_overlay_close(s: OverlayScreen) -> (r: OverlayScreen)
    ensures
        s is GameOverlay ==> r is Game,
        !(s is GameOverlay) ==> r == s,
{
    match s {
        OverlayScreen::GameOverlay => OverlayScreen::Game,
        _ => s,
    }
}

/// Whether the overlay captures the game's input: exactly on the
/// screens where the user interacts with the overlay.
pub fn blocks_input(s: OverlayScreen) -> (r: bool)
    ensures
        r == (s is InitialStartup || s is GameOverlay),
{
    match s {
        OverlayScreen::InitialStartup => true,
        OverlayScreen::GameOverlay => true,
        _ => false,
    }
}

} // verus!
