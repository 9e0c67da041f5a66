//! The screens of a small game and the rule by which one follows another.
//!
//! The logo is shown for a fixed number of frames. After it the title, the
//! game and the ending follow each other in a circle, each left when the
//! player confirms (with the enter key or a tap).

use vstd::prelude::*;

verus! {

/// The number of frames after which the logo is still on the screen.
pub const LOGO_FRAMES: i32 = 120;

#[derive(Clone, Copy, Debug, PartialEq, Eq, Structural)]
pub enum GameScreen {
    Logo,
    Title,
    Gameplay,
    Ending,
}

/// The model of a screen manager: the screen that is shown and the frames
/// counted while the logo was shown.
pub struct Screens {
    pub screen: GameScreen,
    pub frames_counter: int,
}

impl Screens {
    /// The manager before the first frame.
    pub open spec fn start() -> Screens {
        Screens { screen: GameScreen::Logo, frames_counter: 0 }
    }

    /// The manager one frame later. `confirmed` tells whether the player
    /// confirmed during that frame.
    pub open spec fn update(self, confirmed: bool) -> Screens {
        match self.screen {
            GameScreen::Logo => Screens {
                screen: if self.frames_counter + 1 > LOGO_FRAMES {
                    GameScreen::Title
                } else {
                    GameScreen::Logo
                },
                frames_counter: self.frames_counter + 1,
            },
            GameScreen::Title => Screens {
                screen: if confirmed {
                    GameScreen::Gameplay
                } else {
                    GameScreen::Title
                },
                ..self
            },
            GameScreen::Gameplay => Screens {
                screen: if confirmed {
                    GameScreen::Ending
                } else {
                    GameScreen::Gameplay
                },
                ..self
            },
            GameScreen::Ending => Screens {
                screen: if confirmed {
                    GameScreen::Title
                } else {
                    GameScreen::Ending
                },
                ..self
            },
        }
    }

    /// The manager after one frame for each entry of `confirmed`.
    pub open spec fn after(confirmed: Seq<bool>) -> Screens
        decreases confirmed.len(),
    {
        if confirmed.len() == 0 {
            Screens::start()
        } else {
            Screens::after(confirmed.drop_last()).update(confirmed.last())
        }
    }

    /// What holds of every manager: the frames are counted as long as the
    /// logo is shown, and the logo goes with the frame that exceeds its
    /// share.
    pub open spec fn wf(self) -> bool {
        if self.screen == GameScreen::Logo {
            0 <= self.frames_counter <= LOGO_FRAMES
        } else {
            self.frames_counter == LOGO_FRAMES + 1
        }
    }

    /// The logo is on the screen for the frames that are its share, the
    /// frame before the first included, and never again; the player has no
    /// say in it.
    pub proof fn lemma_logo_lasts_its_frames(confirmed: Seq<bool>)
        ensures
            Screens::after(confirmed).wf(),
            Screens::after(confirmed).screen == GameScreen::Logo <==> confirmed.len()
                <= LOGO_FRAMES,
            confirmed.len() <= LOGO_FRAMES ==> Screens::after(confirmed).frames_counter
                == confirmed.len(),
        decreases confirmed.len(),
    {
        if confirmed.len() > 0 {
            Screens::lemma_logo_lasts_its_frames(confirmed.drop_last());
        }
    }

    /// A screen other than the logo stays until the player confirms.
    pub proof fn lemma_screen_stays_until_confirmed(self)
        requires
            self.screen != GameScreen::Logo,
        ensures
            self.update(false) == self,
            self.update(true).screen != self.screen,
            self.update(true).update(true).update(true) == self,
    {
    }
}

/// The screen manager of the game.
pub struct ScreenManager {
    screen: GameScreen,
    frames_counter: i32,
}

impl View for ScreenManager {
    type V = Screens;

    closed spec fn view(&self) -> Screens {
        Screens { screen: self.screen, frames_counter: self.frames_counter as int }
    }
}

impl ScreenManager {
    #[verifier::type_invariant]
    spec fn inv(self) -> bool {
        self@.wf()
    }

    /// The manager before the first frame: it shows the logo.
    pub fn new() -> (manager: Self)
        ensures
            manager@ == Screens::start(),
    {
        ScreenManager { screen: GameScreen::Logo, frames_counter: 0 }
    }

    /// The screen to draw.
    pub fn current_screen(&self) -> (screen: GameScreen)
        ensures
            screen == self@.screen,
            self@.wf(),
    {
        proof {
            use_type_invariant(self);
        }
        self.screen
    }

    /// The frames counted while the logo was shown.
    pub fn frames_counter(&self) -> (frames: i32)
        ensures
            frames == self@.frames_counter,
            self@.wf(),
    {
        proof {
            use_type_invariant(self);
        }
        self.frames_counter
    }

    /// Goes on by one frame. `confirmed` tells whether the player confirmed
    /// during that frame.
    pub fn update(&mut self, confirmed: bool)
        ensures
            final(self)@ == old(self)@.update(confirmed),
            final(self)@.wf(),
    {
        proof {
            use_type_invariant(&*self);
        }
        let next = match self.screen {
            GameScreen::Logo => {
                // Wait for 2 seconds (120 frames) before jumping to the title screen
                let frames_counter = self.frames_counter + 1;
                ScreenManager {
                    screen: if frames_counter > LOGO_FRAMES {
                        GameScreen::Title
                    } else {
                        GameScreen::Logo
                    },
                    frames_counter,
                }
            },
            GameScreen::Title => ScreenManager {
                screen: if confirmed {
                    GameScreen::Gameplay
                } else {
                    GameScreen::Title
                },
                frames_counter: self.frames_counter,
            },
            GameScreen::Gameplay => ScreenManager {
                screen: if confirmed {
                    GameScreen::Ending
                } else {
                    GameScreen::Gameplay
                },
                frames_counter: self.frames_counter,
            },
            GameScreen::Ending => ScreenManager {
                screen: if confirmed {
                    GameScreen::Title
                } else {
                    GameScreen::Ending
                },
                frames_counter: self.frames_counter,
            },
        };
        *self = next;
    }
}

} // verus!
