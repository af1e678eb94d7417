use vstd::prelude::*;

verus! {

/// The closed set of presentation options of the form.
#[derive(Debug, Clone, Copy, PartialEq, Eq, Structural)]
pub enum Theme {
    Light,
}

impl Theme {
    /// Every theme there is, in display order.
    pub fn all() -> (r: Vec<Theme>)
        ensures
            r@ == seq![Theme::Light],
    {
        vec![Theme::Light]
    }
}

impl Default for Theme {
    fn default() -> (r: Theme)
        ensures
            r == Theme::Light,
    {
        Theme::Light
    }
}

/// The button style of the light theme.
#[derive(Debug, Clone, Copy, PartialEq, Eq, Structural)]
pub struct Button;

} // verus!
