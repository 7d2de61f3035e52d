//! The session controller: the configuration a deck runs with, and the deck
//! it is bound to.

use vstd::prelude::*;
use crate::device::{
    enumerated, listen_next, listen_told, DeckDevice, DeviceView, ListenStep, SessionState,
};
use crate::error::DeckError;
use crate::tree::DeviceTree;

verus! {

/// A deck's configuration, and the session on the deck once one is bound.
#[derive(Debug)]
pub struct Deck {
    /// Where the configuration came from.
    pub config: String,
    /// The session, once a device is bound.
    pub deck: Option<DeckDevice>,
    /// Name of the page that is active when a session starts.
    pub default: String,
    /// Names of the pages, in their order.
    pub pages: Vec<String>,
    /// Brightness of the key displays.
    pub brightness: u8,
}

impl Deck {
    /// Where the session stands: uninitialized until a device is bound.
    pub open spec fn session_state(&self) -> SessionState {
        match self.deck {
            Some(device) => device@.state,
            None => SessionState::Uninitialized,
        }
    }

    /// A controller with the given configuration and no device.
    pub fn new(config: &str, default: String, pages: Vec<String>, brightness: u8) -> (made: Self)
        ensures
            made.config@ == config@,
            made.deck is None,
            made.default == default,
            made.pages == pages,
            made.brightness == brightness,
            made.session_state() == SessionState::Uninitialized,
    {
        Deck { config: config.to_owned(), deck: None, default, pages, brightness }
    }

    /// Where the session stands.
    pub fn state(&self) -> (state: SessionState)
        ensures
            state == self.session_state(),
    {
        match &self.deck {
            Some(device) => device.state(),
            None => SessionState::Uninitialized,
        }
    }

    /// Binds the controller to the deck found in a device tree, and so starts
    /// a new session on the default page. Where no deck is found the error
    /// says why, and the controller is left as it was.
    pub fn find_device(&mut self, tree: &DeviceTree) -> (bound: Result<(), DeckError>)
        ensures
            final(self).config == old(self).config,
            final(self).default == old(self).default,
            final(self).pages == old(self).pages,
            final(self).brightness == old(self).brightness,
            match bound {
                Ok(_) => {
                    &&& final(self).deck matches Some(device)
                    &&& enumerated(*tree, old(self).default@) == Ok::<DeviceView, DeckError>(
                        device@,
                    )
                    &&& final(self).session_state() == SessionState::DeviceBound
                },
                Err(error) => {
                    &&& final(self).deck == old(self).deck
                    &&& enumerated(*tree, old(self).default@) == Err::<DeviceView, DeckError>(
                        error,
                    )
                },
            },
    {
        match DeckDevice::new(tree, self.default.as_str()) {
            Ok(device) => {
                self.deck = Some(device);
                Ok(())
            },
            Err(error) => Err(error),
        }
    }

    /// One turn of the input loop, as [`DeckDevice::listen_events`] takes it.
    /// Without a device nothing is done and the step says so.
    pub fn listen(&mut self, read: Result<usize, String>, report: &[u8; 64]) -> (step: ListenStep)
        ensures
            final(self).config == old(self).config,
            final(self).default == old(self).default,
            final(self).pages == old(self).pages,
            final(self).brightness == old(self).brightness,
            match old(self).deck {
                Some(device) => {
                    &&& final(self).deck matches Some(after)
                    &&& after@ == listen_next(device@, read, report@)
                    &&& listen_told(device@, read, report@, step)
                },
                None => final(self).deck is None && step == ListenStep::NotBound,
            },
    {
        match self.deck.take() {
            Some(mut device) => {
                let step = device.listen_events(read, report);
                self.deck = Some(device);
                step
            },
            None => ListenStep::NotBound,
        }
    }
}

} // verus!
