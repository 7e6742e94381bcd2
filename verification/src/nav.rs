//! The interactive navigation state machine: one non-terminal state
//! (showing a slide, waiting for input) plus the terminal exit.  Every
//! keypress maps to a pure transition over the slide index and the
//! frame width; the caller performs the resulting action.

use vstd::prelude::*;
use crate::config::{adjusted_width, Config};

verus! {

/// A keyboard or terminal event, as the session loop reports it.
#[derive(Debug, Clone, Copy, PartialEq, Eq)]
pub enum NavEvent {
    Left,
    Right,
    Enter,
    Escape,
    Resize,
    Char(char),
    Other,
}

/// What the session does after a transition: redraw the current slide
/// (with or without the animated reveal), end the session, or nothing.
#[derive(Debug, Clone, Copy, PartialEq, Eq)]
pub enum NavAction {
    Redraw(bool),
    Exit,
    Stay,
}

/// The slide index after an event: Left steps back when possible,
/// Right and Enter step forward when a next slide exists; nothing else
/// moves.
pub open spec fn next_index(index: nat, count: nat, event: NavEvent) -> nat {
    match event {
        NavEvent::Left => if index > 0 {
            (index - 1) as nat
        } else {
            index
        },
        NavEvent::Right => if index + 1 < count {
            index + 1
        } else {
            index
        },
        NavEvent::Enter => if index + 1 < count {
            index + 1
        } else {
            index
        },
        _ => index,
    }
}

/// The frame width after an event: `+`/`=` widen and `-`/`_` narrow by
/// two columns, clamped; nothing else changes it.
pub open spec fn next_width(width: nat, event: NavEvent) -> nat {
    match event {
        NavEvent::Char(c) => if c == '+' || c == '=' {
            adjusted_width(width as int, 2) as nat
        } else if c == '-' || c == '_' {
            adjusted_width(width as int, -2) as nat
        } else {
            width
        },
        _ => width,
    }
}

/// The action an event provokes: stepping redraws with animation,
/// stepping forward off the last slide or quitting exits, a width
/// change or a terminal resize redraws without animation, and anything
/// else is ignored.
pub open spec fn nav_action(index: nat, count: nat, width: nat, event: NavEvent) -> NavAction {
    match event {
        NavEvent::Left => if index > 0 {
            NavAction::Redraw(true)
        } else {
            NavAction::Stay
        },
        NavEvent::Right => if index + 1 < count {
            NavAction::Redraw(true)
        } else {
            NavAction::Exit
        },
        NavEvent::Enter => if index + 1 < count {
            NavAction::Redraw(true)
        } else {
            NavAction::Exit
        },
        NavEvent::Escape => NavAction::Exit,
        NavEvent::Resize => NavAction::Redraw(false),
        NavEvent::Char(c) => if c == 'q' || c == 'Q' {
            NavAction::Exit
        } else if c == '+' || c == '=' {
            if adjusted_width(width as int, 2) != width {
                NavAction::Redraw(false)
            } else {
                NavAction::Stay
            }
        } else if c == '-' || c == '_' {
            if adjusted_width(width as int, -2) != width {
                NavAction::Redraw(false)
            } else {
                NavAction::Stay
            }
        } else {
            NavAction::Stay
        },
        NavEvent::Other => NavAction::Stay,
    }
}

/// Ghost model of a navigation session.
pub struct NavModel {
    pub index: nat,
    pub count: nat,
}

/// An interactive session over a non-empty slide sequence: the current
/// slide index is always in bounds.
#[derive(Debug, Clone, PartialEq, Eq)]
pub struct NavSession {
    index: usize,
    count: usize,
}

impl View for NavSession {
    type V = NavModel;

    closed spec fn view(&self) -> NavModel {
        NavModel { index: self.index as nat, count: self.count as nat }
    }
}

impl NavSession {
    /// The session invariant: the current index addresses a slide.
    pub open spec fn wf(&self) -> bool {
        self@.count > 0 && self@.index < self@.count
    }

    /// Opens a session on `count` slides, showing the first.  A session
    /// is only ever entered with something to show.
    pub fn new(count: usize) -> (s: NavSession)
        requires
            count > 0,
        ensures
            s.wf(),
            s@.index == 0,
            s@.count == count,
    {
        NavSession { index: 0, count }
    }

    pub fn current_index(&self) -> (i: usize)
        ensures
            i as nat == self@.index,
    {
        self.index
    }

    pub fn count(&self) -> (c: usize)
        ensures
            c as nat == self@.count,
    {
        self.count
    }

    /// Performs one transition of the state machine: updates the slide
    /// index and (through the configuration) the frame width, and
    /// reports the action the caller must carry out.
    pub fn handle(&mut self, config: &mut Config, event: NavEvent) -> (a: NavAction)
        requires
            old(self).wf(),
            old(config).wf(),
        ensures
            final(self).wf(),
            final(config).wf(),
            final(self)@.count == old(self)@.count,
            final(self)@.index == next_index(old(self)@.index, old(self)@.count, event),
            final(config)@.frame_width == next_width(old(config)@.frame_width, event),
            a == nav_action(old(self)@.index, old(self)@.count, old(config)@.frame_width, event),
            final(config)@.palette == old(config)@.palette,
            final(config)@.banner_path == old(config)@.banner_path,
            final(config)@.presentation_title == old(config)@.presentation_title,
            final(config)@.theme_label == old(config)@.theme_label,
            final(config)@.animations_enabled == old(config)@.animations_enabled,
    {
        match event {
            NavEvent::Left => {
                if self.index > 0 {
                    self.index = self.index - 1;
                    NavAction::Redraw(true)
                } else {
                    NavAction::Stay
                }
            },
            NavEvent::Right => {
                if self.index + 1 < self.count {
                    self.index = self.index + 1;
                    NavAction::Redraw(true)
                } else {
                    NavAction::Exit
                }
            },
            NavEvent::Enter => {
                if self.index + 1 < self.count {
                    self.index = self.index + 1;
                    NavAction::Redraw(true)
                } else {
                    NavAction::Exit
                }
            },
            NavEvent::Escape => NavAction::Exit,
            NavEvent::Resize => NavAction::Redraw(false),
            NavEvent::Char(c) => {
                if c == 'q' || c == 'Q' {
                    NavAction::Exit
                } else if c == '+' || c == '=' {
                    if config.adjust_frame_width(2) {
                        NavAction::Redraw(false)
                    } else {
                        NavAction::Stay
                    }
                } else if c == '-' || c == '_' {
                    if config.adjust_frame_width(-2) {
                        NavAction::Redraw(false)
                    } else {
                        NavAction::Stay
                    }
                } else {
                    NavAction::Stay
                }
            },
            NavEvent::Other => NavAction::Stay,
        }
    }
}

/// Navigation never leaves the slide sequence: every transition keeps
/// the index in bounds; from the first slide, Left does not move; and
/// from the last slide, Right and Enter end the session instead of
/// stepping out.
pub proof fn lemma_navigation_bounds(index: nat, count: nat, width: nat, event: NavEvent)
    requires
        index < count,
    ensures
        next_index(index, count, event) < count,
        next_index(0, count, NavEvent::Left) == 0,
        nav_action(0, count, width, NavEvent::Left) == NavAction::Stay,
        index == count - 1 ==> next_index(index, count, NavEvent::Right) == index,
        index == count - 1 ==> nav_action(index, count, width, NavEvent::Right)
            == NavAction::Exit,
        index == count - 1 ==> nav_action(index, count, width, NavEvent::Enter)
            == NavAction::Exit,
{
}

} // verus!
