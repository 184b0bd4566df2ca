//! The theme environment as the controls see it.

use vstd::prelude::*;
use crate::env::color::Color;
use crate::env::key::Key;
use crate::env::key::KEY_COUNT;

verus! {

/// The part of the host's theme environment that this crate reads and
/// writes: a colour for some of the keys, and the height of a basic widget
/// if the theme gives one.
pub struct Env {
    colors: [Option<Color>; KEY_COUNT],
    basic_widget_height: Option<i64>,
}

/// What an [`Env`] holds.
pub struct EnvView {
    /// The colour stored under each key that has one.
    pub colors: Map<Key, Color>,
    /// The height of a basic widget, if the theme gives one.
    pub basic_widget_height: Option<i64>,
}

impl View for Env {
    type V = EnvView;

    closed spec fn view(&self) -> EnvView {
        EnvView {
            colors: Map::new(
                |key: Key| self.colors[key.ordinal()] is Some,
                |key: Key| self.colors[key.ordinal()]->0,
            ),
            basic_widget_height: self.basic_widget_height,
        }
    }
}

impl Env {
    /// An environment that holds nothing.
    pub fn new() -> (env: Env)
        ensures
            env@ == (EnvView { colors: Map::empty(), basic_widget_height: None }),
    {
        let env = Env { colors: [None; KEY_COUNT], basic_widget_height: None };
        assert(env@.colors =~= Map::empty());
        env
    }

    /// The height of a basic widget, if the theme gives one.
    pub fn try_basic_widget_height(&self) -> (height: Option<i64>)
        ensures
            height == self@.basic_widget_height,
    {
        self.basic_widget_height
    }

    /// The height of a basic widget, which the theme must give.
    pub fn basic_widget_height(&self) -> (height: i64)
        requires
            self@.basic_widget_height is Some,
        ensures
            Some(height) == self@.basic_widget_height,
    {
        self.basic_widget_height.unwrap()
    }

    /// Sets the height of a basic widget.
    pub fn set_basic_widget_height(&mut self, height: i64)
        ensures
            final(self)@ == (EnvView { basic_widget_height: Some(height), ..old(self)@ }),
    {
        self.basic_widget_height = Some(height);
    }

    /// The colour stored under `key`, if there is one.
    pub fn try_get(&self, key: Key) -> (color: Option<Color>)
        ensures
            color == (if self@.colors.contains_key(key) {
                Some(self@.colors[key])
            } else {
                None
            }),
    {
        self.colors[key.index()]
    }

    /// The colour stored under `key`, which must be there.
    pub fn get(&self, key: Key) -> (color: Color)
        requires
            self@.colors.contains_key(key),
        ensures
            color == self@.colors[key],
    {
        self.colors[key.index()].unwrap()
    }

    /// Stores `color` under `key`, in place of what was there.
    pub fn set(&mut self, key: Key, color: Color)
        ensures
            final(self)@ == (EnvView { colors: old(self)@.colors.insert(key, color), ..old(self)@ }),
    {
        self.colors[key.index()] = Some(color);
        assert(self@.colors =~= old(self)@.colors.insert(key, color));
    }
}

} // verus!
